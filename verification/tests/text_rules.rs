use stockscan::record::{assemble, header_row, value_or_sentinel, Record};
use stockscan::text::{join_fields, parse_identifiers, split_row, strip_commas, trim};
use stockscan::{default_delay_ms, request_url};

#[test]
fn strip_commas_removes_thousands_separators() {
    assert_eq!(strip_commas("1,234"), "1234");
    assert_eq!(strip_commas("12,345,678"), "12345678");
    assert_eq!(strip_commas("1234"), "1234");
    assert_eq!(strip_commas(""), "");
    assert_eq!(strip_commas(",,"), "");
}

#[test]
fn join_then_split_recovers_fields() {
    let fields: Vec<String> = vec![
        "1000".to_string(),
        "Alpha Corp".to_string(),
        "1234".to_string(),
        "10.5".to_string(),
        "1.2".to_string(),
        "3.4%".to_string(),
        "55".to_string(),
        "2026".to_string(),
        "80".to_string(),
    ];
    let row = join_fields(&fields);
    assert_eq!(row, "1000,Alpha Corp,1234,10.5,1.2,3.4%,55,2026,80");
    let back = split_row(&row);
    assert_eq!(back.len(), 9);
    assert_eq!(back, fields);
}

#[test]
fn split_of_empty_row_is_one_empty_field() {
    assert_eq!(split_row(""), vec!["".to_string()]);
    assert_eq!(split_row(","), vec!["".to_string(), "".to_string()]);
}

#[test]
fn header_columns_match_record_field_order() {
    let header = header_row();
    let columns = split_row(&header);
    assert_eq!(
        columns,
        vec!["株式番号", "会社名", "株価", "PER", "PBR", "配当利回り", "1株益(EPS)", "予想配当年", "予想配当額"]
    );
    // The same positions in a serialized record carry the same fields.
    let rec = Record {
        code: "c".to_string(),
        name: "n".to_string(),
        price: "p".to_string(),
        per: "pe".to_string(),
        pbr: "pb".to_string(),
        dividend_yield: "y".to_string(),
        eps: "e".to_string(),
        forecast_year: "fy".to_string(),
        forecast_amount: "fa".to_string(),
    };
    let parsed = split_row(&rec.to_row());
    assert_eq!(parsed, vec!["c", "n", "p", "pe", "pb", "y", "e", "fy", "fa"]);
}

#[test]
fn trim_drops_surrounding_whitespace() {
    assert_eq!(trim("  7203\t"), "7203");
    assert_eq!(trim("\r"), "");
    assert_eq!(trim("a b"), "a b");
}

#[test]
fn parse_identifiers_keeps_trimmed_nonempty_lines_in_order() {
    let ids = parse_identifiers(" 1000 \n\n2000\r\n\t\n3000");
    assert_eq!(ids, vec!["1000".to_string(), "2000".to_string(), "3000".to_string()]);
    assert_eq!(parse_identifiers(""), Vec::<String>::new());
}

#[test]
fn request_url_substitutes_the_identifier() {
    assert_eq!(request_url("7203"), "https://kabutan.jp/stock/?code=7203");
}

#[test]
fn default_delay_is_five_seconds() {
    assert_eq!(default_delay_ms(), 5000);
}

#[test]
fn missing_fields_become_the_sentinel() {
    assert_eq!(value_or_sentinel(None), "N/A");
    assert_eq!(value_or_sentinel(Some("55".to_string())), "55");
    let rec = assemble(
        "2000".to_string(),
        None,
        None,
        None,
        None,
        None,
        None,
        None,
        None,
    );
    assert_eq!(rec.to_row(), "2000,N/A,N/A,N/A,N/A,N/A,N/A,N/A,N/A");
}

#[test]
fn a_comma_inside_a_field_other_than_the_price_breaks_the_column_count() {
    let rec = assemble(
        "1000".to_string(),
        Some("Alpha, Inc".to_string()),
        None,
        None,
        None,
        None,
        None,
        None,
        None,
    );
    // Only the price's commas are stripped; any other comma adds a column.
    assert_eq!(split_row(&rec.to_row()).len(), 10);
}

#[test]
fn serialized_price_loses_thousands_separators() {
    let rec = assemble(
        "1000".to_string(),
        Some("Alpha Corp".to_string()),
        Some("1,234".to_string()),
        Some("10.5".to_string()),
        Some("1.2".to_string()),
        Some("3.4%".to_string()),
        Some("55".to_string()),
        Some("2026".to_string()),
        Some("80".to_string()),
    );
    assert_eq!(rec.to_row(), "1000,Alpha Corp,1234,10.5,1.2,3.4%,55,2026,80");
}
