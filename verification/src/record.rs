//! The fixed nine-field record written for each processed identifier, its
//! assembly from per-field extraction outcomes, and its serialized row form.
use vstd::prelude::*;

use crate::text::{
    comma_free, join_fields, join_spec, lemma_join_split, lemma_strip_commas_is_comma_free,
    split_on_spec, strip_commas, strip_commas_spec,
};

verus! {

/// The sentinel text substituted for a field that could not be extracted.
pub open spec fn sentinel_spec() -> Seq<char> {
    "N/A"@
}

/// Returns the sentinel value used for missing fields.
pub fn sentinel() -> (s: String)
    ensures
        s@ == sentinel_spec(),
{
    String::from_str("N/A")
}

/// The view of an optional extracted text.
pub open spec fn opt_text(o: Option<String>) -> Option<Seq<char>> {
    match o {
        Option::Some(s) => Option::Some(s@),
        Option::None => Option::None,
    }
}

/// An extraction outcome rendered as a field: the text when one was found,
/// the sentinel otherwise.
pub open spec fn field_or_sentinel(o: Option<Seq<char>>) -> Seq<char> {
    match o {
        Option::Some(t) => t,
        Option::None => sentinel_spec(),
    }
}

/// Renders one extraction outcome as a field value.
pub fn value_or_sentinel(o: Option<String>) -> (r: String)
    ensures
        r@ == field_or_sentinel(opt_text(o)),
{
    match o {
        Option::Some(s) => s,
        Option::None => sentinel(),
    }
}

/// One processed identifier's results, in the fixed schema order.
pub struct Record {
    pub code: String,
    pub name: String,
    pub price: String,
    pub per: String,
    pub pbr: String,
    pub dividend_yield: String,
    pub eps: String,
    pub forecast_year: String,
    pub forecast_amount: String,
}

impl Record {
    /// The nine field values in schema order.
    pub open spec fn fields(self) -> Seq<Seq<char>> {
        seq![
            self.code@,
            self.name@,
            self.price@,
            self.per@,
            self.pbr@,
            self.dividend_yield@,
            self.eps@,
            self.forecast_year@,
            self.forecast_amount@,
        ]
    }

    /// The field values as serialized: the price with thousands separators
    /// stripped, every other field as it stands.
    pub open spec fn csv_fields(self) -> Seq<Seq<char>> {
        self.fields().update(2, strip_commas_spec(self.price@))
    }

    /// The record's serialized row: its fields comma-joined, the price with
    /// thousands separators stripped.
    pub open spec fn row_spec(self) -> Seq<char> {
        join_spec(self.csv_fields())
    }

    /// Serializes the record as one comma-joined row.
    pub fn to_row(&self) -> (r: String)
        ensures
            r@ == self.row_spec(),
    {
        let mut v: Vec<String> = Vec::new();
        v.push(self.code.clone());
        v.push(self.name.clone());
        v.push(strip_commas(self.price.as_str()));
        v.push(self.per.clone());
        v.push(self.pbr.clone());
        v.push(self.dividend_yield.clone());
        v.push(self.eps.clone());
        v.push(self.forecast_year.clone());
        v.push(self.forecast_amount.clone());
        let r = join_fields(&v);
        proof {
            assert(v@.map_values(|f: String| f@) =~= self.csv_fields());
        }
        r
    }
}

/// Combines the identifier and the eight extraction outcomes into a record,
/// substituting the sentinel for every missing field.
pub fn assemble(
    code: String,
    name: Option<String>,
    price: Option<String>,
    per: Option<String>,
    pbr: Option<String>,
    dividend_yield: Option<String>,
    eps: Option<String>,
    forecast_year: Option<String>,
    forecast_amount: Option<String>,
) -> (r: Record)
    ensures
        r.fields() == seq![
            code@,
            field_or_sentinel(opt_text(name)),
            field_or_sentinel(opt_text(price)),
            field_or_sentinel(opt_text(per)),
            field_or_sentinel(opt_text(pbr)),
            field_or_sentinel(opt_text(dividend_yield)),
            field_or_sentinel(opt_text(eps)),
            field_or_sentinel(opt_text(forecast_year)),
            field_or_sentinel(opt_text(forecast_amount)),
        ],
{
    let r = Record {
        code,
        name: value_or_sentinel(name),
        price: value_or_sentinel(price),
        per: value_or_sentinel(per),
        pbr: value_or_sentinel(pbr),
        dividend_yield: value_or_sentinel(dividend_yield),
        eps: value_or_sentinel(eps),
        forecast_year: value_or_sentinel(forecast_year),
        forecast_amount: value_or_sentinel(forecast_amount),
    };
    proof {
        assert(r.fields() =~= seq![
            r.code@,
            r.name@,
            r.price@,
            r.per@,
            r.pbr@,
            r.dividend_yield@,
            r.eps@,
            r.forecast_year@,
            r.forecast_amount@,
        ]);
    }
    r
}

/// The nine column names of the report header, in schema order: position by
/// position they name the fields of `Record::fields`.
pub open spec fn column_names() -> Seq<Seq<char>> {
    seq![
        "株式番号"@,
        "会社名"@,
        "株価"@,
        "PER"@,
        "PBR"@,
        "配当利回り"@,
        "1株益(EPS)"@,
        "予想配当年"@,
        "予想配当額"@,
    ]
}

/// The header row: the nine column names comma-joined.
pub open spec fn header_spec() -> Seq<char> {
    join_spec(column_names())
}

/// Returns the header row written once per report.
pub fn header_row() -> (r: String)
    ensures
        r@ == header_spec(),
{
    let mut v: Vec<String> = Vec::new();
    v.push(String::from_str("株式番号"));
    v.push(String::from_str("会社名"));
    v.push(String::from_str("株価"));
    v.push(String::from_str("PER"));
    v.push(String::from_str("PBR"));
    v.push(String::from_str("配当利回り"));
    v.push(String::from_str("1株益(EPS)"));
    v.push(String::from_str("予想配当年"));
    v.push(String::from_str("予想配当額"));
    let r = join_fields(&v);
    proof {
        assert(v@.map_values(|f: String| f@) =~= column_names());
    }
    r
}

proof fn lemma_column_names_comma_free()
    ensures
        forall|i: int| 0 <= i < column_names().len() ==> comma_free(#[trigger] column_names()[i]),
{
    reveal_strlit("株式番号");
    reveal_strlit("会社名");
    reveal_strlit("株価");
    reveal_strlit("PER");
    reveal_strlit("PBR");
    reveal_strlit("配当利回り");
    reveal_strlit("1株益(EPS)");
    reveal_strlit("予想配当年");
    reveal_strlit("予想配当額");
    assert forall|i: int| 0 <= i < column_names().len() implies comma_free(
        #[trigger] column_names()[i],
    ) by {
        assert forall|j: int| 0 <= j < column_names()[i].len() implies column_names()[i][j]
            != ',' by {
        }
    }
}

/// Law: parsing the header row on commas recovers the nine column names, in
/// the order of `Record::fields`.
pub proof fn lemma_header_round_trip()
    ensures
        split_on_spec(header_spec(), ',') == column_names(),
        column_names().len() == 9,
{
    lemma_column_names_comma_free();
    lemma_join_split(column_names());
}

/// Law: parsing a serialized row on commas recovers the nine serialized field
/// values, provided no field other than the price carries a comma (the price's
/// commas are stripped by serialization itself).
pub proof fn lemma_row_round_trip(r: Record)
    requires
        comma_free(r.code@),
        comma_free(r.name@),
        comma_free(r.per@),
        comma_free(r.pbr@),
        comma_free(r.dividend_yield@),
        comma_free(r.eps@),
        comma_free(r.forecast_year@),
        comma_free(r.forecast_amount@),
    ensures
        split_on_spec(r.row_spec(), ',') == r.csv_fields(),
        r.csv_fields().len() == 9,
{
    lemma_strip_commas_is_comma_free(r.price@);
    assert forall|i: int| 0 <= i < r.csv_fields().len() implies comma_free(
        #[trigger] r.csv_fields()[i],
    ) by {
        if i != 2 {
            assert(r.csv_fields()[i] == r.fields()[i]);
        }
    }
    lemma_join_split(r.csv_fields());
}

} // verus!
