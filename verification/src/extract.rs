//! The fixed locator table and the extraction of one identifier's record
//! from a parsed document.
use vstd::prelude::*;

use crate::markup::{doc_source, extract_field, extract_spec};
use crate::record::{assemble, field_or_sentinel, sentinel_spec, Record};
use crate::text::{join_spec, strip_commas_spec};

verus! {

/// The locator of the security's name heading.
pub open spec fn locator_name() -> Seq<char> {
    "//*[@id='stockinfo_i1']/div[1]/h2"@
}

/// The locator of the price span.
pub open spec fn locator_price() -> Seq<char> {
    "//*[@id='stockinfo_i1']/div[2]/span[2] "@
}

/// The locator of the price/earnings cell of the metrics table.
pub open spec fn locator_per() -> Seq<char> {
    "//*[@id='stockinfo_i3']/table/tbody/tr[1]/td[1]"@
}

/// The locator of the price/book cell of the metrics table.
pub open spec fn locator_pbr() -> Seq<char> {
    "//*[@id='stockinfo_i3']/table/tbody/tr[1]/td[2]"@
}

/// The locator of the dividend-yield cell of the metrics table.
pub open spec fn locator_dividend_yield() -> Seq<char> {
    "//*[@id='stockinfo_i3']/table/tbody/tr[1]/td[3]"@
}

/// The locator of the earnings-per-share cell of the forecast table.
pub open spec fn locator_eps() -> Seq<char> {
    "//*[@id='kobetsu_right']/div[3]/table/tbody/tr[3]/td[4]"@
}

/// The locator of the predicted-dividend year heading of the forecast table.
pub open spec fn locator_forecast_year() -> Seq<char> {
    "//*[@id='kobetsu_right']/div[3]/table/tbody/tr[3]/th"@
}

/// The locator of the predicted-dividend amount cell of the forecast table.
pub open spec fn locator_forecast_amount() -> Seq<char> {
    "//*[@id='kobetsu_right']/div[3]/table/tbody/tr[3]/td[5]"@
}

/// The eight locators, ordered to match the non-identifier fields of
/// `Record::fields`.
pub open spec fn locator_specs() -> Seq<Seq<char>> {
    seq![
        locator_name(),
        locator_price(),
        locator_per(),
        locator_pbr(),
        locator_dividend_yield(),
        locator_eps(),
        locator_forecast_year(),
        locator_forecast_amount(),
    ]
}

/// Returns the fixed locator table, ordered to match the non-identifier
/// fields of `Record::fields`.
pub fn locator_paths() -> (v: Vec<String>)
    ensures
        v@.map_values(|s: String| s@) == locator_specs(),
{
    let mut v: Vec<String> = Vec::new();
    v.push(String::from_str("//*[@id='stockinfo_i1']/div[1]/h2"));
    v.push(String::from_str("//*[@id='stockinfo_i1']/div[2]/span[2] "));
    v.push(String::from_str("//*[@id='stockinfo_i3']/table/tbody/tr[1]/td[1]"));
    v.push(String::from_str("//*[@id='stockinfo_i3']/table/tbody/tr[1]/td[2]"));
    v.push(String::from_str("//*[@id='stockinfo_i3']/table/tbody/tr[1]/td[3]"));
    v.push(String::from_str("//*[@id='kobetsu_right']/div[3]/table/tbody/tr[3]/td[4]"));
    v.push(String::from_str("//*[@id='kobetsu_right']/div[3]/table/tbody/tr[3]/th"));
    v.push(String::from_str("//*[@id='kobetsu_right']/div[3]/table/tbody/tr[3]/td[5]"));
    proof {
        assert(v@.map_values(|s: String| s@) =~= locator_specs());
    }
    v
}

/// The nine field values of the record extracted for `id` from a document
/// parsed out of `markup`: the identifier itself, then each locator's
/// extraction outcome, the sentinel standing in for a missing field.
pub open spec fn record_spec(markup: Seq<char>, id: Seq<char>) -> Seq<Seq<char>> {
    seq![
        id,
        field_or_sentinel(extract_spec(markup, locator_name())),
        field_or_sentinel(extract_spec(markup, locator_price())),
        field_or_sentinel(extract_spec(markup, locator_per())),
        field_or_sentinel(extract_spec(markup, locator_pbr())),
        field_or_sentinel(extract_spec(markup, locator_dividend_yield())),
        field_or_sentinel(extract_spec(markup, locator_eps())),
        field_or_sentinel(extract_spec(markup, locator_forecast_year())),
        field_or_sentinel(extract_spec(markup, locator_forecast_amount())),
    ]
}

/// The serialized row of the record extracted for `id` from `markup`: its
/// nine fields comma-joined, the price with thousands separators stripped.
pub open spec fn csv_row_spec(markup: Seq<char>, id: Seq<char>) -> Seq<char> {
    join_spec(
        record_spec(markup, id).update(2, strip_commas_spec(record_spec(markup, id)[2])),
    )
}

/// Extracts every field of `id`'s record from the parsed document, falling
/// back to the sentinel for each locator that matches no node or does not
/// translate.
pub fn build_record(doc: &scraper::Html, id: &str) -> (r: Record)
    ensures
        r.fields() == record_spec(doc_source(*doc), id@),
{
    let name = extract_field(doc, "//*[@id='stockinfo_i1']/div[1]/h2").into_text();
    let price = extract_field(doc, "//*[@id='stockinfo_i1']/div[2]/span[2] ").into_text();
    let per = extract_field(doc, "//*[@id='stockinfo_i3']/table/tbody/tr[1]/td[1]").into_text();
    let pbr = extract_field(doc, "//*[@id='stockinfo_i3']/table/tbody/tr[1]/td[2]").into_text();
    let dividend_yield = extract_field(
        doc,
        "//*[@id='stockinfo_i3']/table/tbody/tr[1]/td[3]",
    ).into_text();
    let eps = extract_field(
        doc,
        "//*[@id='kobetsu_right']/div[3]/table/tbody/tr[3]/td[4]",
    ).into_text();
    let forecast_year = extract_field(
        doc,
        "//*[@id='kobetsu_right']/div[3]/table/tbody/tr[3]/th",
    ).into_text();
    let forecast_amount = extract_field(
        doc,
        "//*[@id='kobetsu_right']/div[3]/table/tbody/tr[3]/td[5]",
    ).into_text();
    let r = assemble(
        id.to_owned(),
        name,
        price,
        per,
        pbr,
        dividend_yield,
        eps,
        forecast_year,
        forecast_amount,
    );
    proof {
        assert(r.fields() =~= record_spec(doc_source(*doc), id@));
    }
    r
}

/// Law: when no locator of the table has a match in the document, every field
/// of the extracted record except the identifier is exactly the sentinel, and
/// the identifier passes through unchanged.
pub proof fn lemma_unmatched_locators_yield_sentinel(markup: Seq<char>, id: Seq<char>)
    requires
        forall|i: int| 0 <= i < locator_specs().len() ==> extract_spec(
            markup,
            #[trigger] locator_specs()[i],
        ) is None,
    ensures
        record_spec(markup, id).len() == 9,
        record_spec(markup, id)[0] == id,
        forall|i: int| 1 <= i < 9 ==> record_spec(markup, id)[i] == sentinel_spec(),
{
    assert(extract_spec(markup, locator_specs()[0]) is None);
    assert(extract_spec(markup, locator_specs()[1]) is None);
    assert(extract_spec(markup, locator_specs()[2]) is None);
    assert(extract_spec(markup, locator_specs()[3]) is None);
    assert(extract_spec(markup, locator_specs()[4]) is None);
    assert(extract_spec(markup, locator_specs()[5]) is None);
    assert(extract_spec(markup, locator_specs()[6]) is None);
    assert(extract_spec(markup, locator_specs()[7]) is None);
    assert forall|i: int| 1 <= i < 9 implies record_spec(markup, id)[i] == sentinel_spec() by {
    }
}

} // verus!
