use stockscan::extract::{build_record, locator_paths};
use stockscan::markup::{extract_field, parse_document, ExtractOutcome};

/// Markup shaped like the page layout the locator table targets.
fn full_page() -> String {
    [
        "<html><body>",
        "<div id=\"stockinfo_i1\">",
        "<div><h2>Alpha Corp</h2></div>",
        "<div><span>JPY</span><span>1,234</span></div>",
        "</div>",
        "<div id=\"stockinfo_i3\">",
        "<table><tbody><tr><td>10.5</td><td>1.2</td><td>3.4%</td></tr></tbody></table>",
        "</div>",
        "<div id=\"kobetsu_right\">",
        "<div>first</div><div>second</div>",
        "<div><table><tbody>",
        "<tr><th>r1</th></tr><tr><th>r2</th></tr>",
        "<tr><th>2026</th><td>q1</td><td>q2</td><td>q3</td><td>55</td><td>80</td></tr>",
        "</tbody></table></div>",
        "</div>",
        "</body></html>",
    ]
    .concat()
}

fn found(outcome: ExtractOutcome) -> Option<String> {
    match outcome {
        ExtractOutcome::Found(t) => Some(t),
        ExtractOutcome::NoMatch => None,
        ExtractOutcome::BadLocator => None,
    }
}

#[test]
fn every_locator_finds_its_field_on_a_full_page() {
    let markup = full_page();
    let doc = parse_document(&markup);
    let locators = locator_paths();
    assert_eq!(locators.len(), 8);
    let values: Vec<Option<String>> =
        locators.iter().map(|l| found(extract_field(&doc, l))).collect();
    assert_eq!(
        values,
        vec![
            Some("Alpha Corp".to_string()),
            Some("1,234".to_string()),
            Some("10.5".to_string()),
            Some("1.2".to_string()),
            Some("3.4%".to_string()),
            Some("55".to_string()),
            Some("2026".to_string()),
            Some("80".to_string()),
        ]
    );
}

#[test]
fn locators_without_a_match_report_no_match() {
    let doc = parse_document("<html></html>");
    for locator in locator_paths() {
        assert!(matches!(
            extract_field(&doc, &locator),
            ExtractOutcome::NoMatch
        ));
    }
}

#[test]
fn a_locator_that_does_not_translate_is_rejected_as_such() {
    let doc = parse_document("<html></html>");
    assert!(matches!(extract_field(&doc, "//*"), ExtractOutcome::BadLocator));
}

#[test]
fn first_matching_node_wins_in_document_order() {
    let markup = "<html><body><div id=\"stockinfo_i1\">\
                  <div><h2>First</h2><h2>Second</h2></div>\
                  </div></body></html>";
    let doc = parse_document(markup);
    let outcome = extract_field(&doc, "//*[@id='stockinfo_i1']/div[1]/h2");
    assert_eq!(found(outcome), Some("First".to_string()));
}

#[test]
fn nested_text_is_concatenated() {
    let markup = "<html><body><div id=\"stockinfo_i1\">\
                  <div><h2>Alpha <b>Corp</b></h2></div>\
                  </div></body></html>";
    let doc = parse_document(markup);
    let outcome = extract_field(&doc, "//*[@id='stockinfo_i1']/div[1]/h2");
    assert_eq!(found(outcome), Some("Alpha Corp".to_string()));
}

#[test]
fn build_record_extracts_all_fields_or_sentinels() {
    let markup = full_page();
    let doc = parse_document(&markup);
    let rec = build_record(&doc, "1000");
    assert_eq!(rec.code, "1000");
    assert_eq!(rec.name, "Alpha Corp");
    assert_eq!(rec.price, "1,234");
    assert_eq!(rec.per, "10.5");
    assert_eq!(rec.pbr, "1.2");
    assert_eq!(rec.dividend_yield, "3.4%");
    assert_eq!(rec.eps, "55");
    assert_eq!(rec.forecast_year, "2026");
    assert_eq!(rec.forecast_amount, "80");

    let empty = parse_document("<html></html>");
    let rec = build_record(&empty, "2000");
    assert_eq!(rec.code, "2000");
    assert_eq!(rec.name, "N/A");
    assert_eq!(rec.forecast_amount, "N/A");
}
