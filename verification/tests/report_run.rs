use stockscan::record::assemble;
use stockscan::runner::{FetchOutcome, PacedRunner};
use stockscan::sink::{bom, ReportSink};

fn full_page() -> String {
    [
        "<html><body>",
        "<div id=\"stockinfo_i1\">",
        "<div><h2>Alpha Corp</h2></div>",
        "<div><span>JPY</span><span>1,234</span></div>",
        "</div>",
        "<div id=\"stockinfo_i3\">",
        "<table><tbody><tr><td>10.5</td><td>1.2</td><td>3.4%</td></tr></tbody></table>",
        "</div>",
        "<div id=\"kobetsu_right\">",
        "<div>first</div><div>second</div>",
        "<div><table><tbody>",
        "<tr><th>r1</th></tr><tr><th>r2</th></tr>",
        "<tr><th>2026</th><td>q1</td><td>q2</td><td>q3</td><td>55</td><td>80</td></tr>",
        "</tbody></table></div>",
        "</div>",
        "</body></html>",
    ]
    .concat()
}

#[test]
fn byte_order_marker_is_the_utf8_one() {
    assert_eq!(bom(), vec![0xEFu8, 0xBB, 0xBF]);
}

#[test]
fn initialization_writes_exactly_one_header_row() {
    let mut sink = ReportSink::new();
    assert!(!sink.opened());
    sink.initialize();
    assert!(sink.opened());
    assert_eq!(
        sink.rows(),
        &vec!["株式番号,会社名,株価,PER,PBR,配当利回り,1株益(EPS),予想配当年,予想配当額".to_string()]
    );
}

#[test]
fn reinitializing_discards_all_prior_rows() {
    let mut sink = ReportSink::new();
    sink.initialize();
    let rec = assemble(
        "1000".to_string(),
        Some("Alpha Corp".to_string()),
        Some("1,234".to_string()),
        Some("10.5".to_string()),
        Some("1.2".to_string()),
        Some("3.4%".to_string()),
        Some("55".to_string()),
        Some("2026".to_string()),
        Some("80".to_string()),
    );
    sink.append(&rec);
    sink.append(&rec);
    assert_eq!(sink.rows().len(), 3);
    sink.initialize();
    // Exactly one header and zero data rows before any append.
    assert_eq!(
        sink.rows(),
        &vec!["株式番号,会社名,株価,PER,PBR,配当利回り,1株益(EPS),予想配当年,予想配当額".to_string()]
    );
}

#[test]
fn close_keeps_the_rows() {
    let mut sink = ReportSink::new();
    sink.initialize();
    sink.close();
    assert!(!sink.opened());
    assert_eq!(sink.rows().len(), 1);
}

#[test]
fn two_identifiers_one_full_one_empty_page() {
    let mut sink = ReportSink::new();
    sink.initialize();
    let ids = vec!["1000".to_string(), "2000".to_string()];
    let mut runner = PacedRunner::new(ids, 5000);

    assert!(!runner.finished());
    assert!(runner.ready(0));
    assert_eq!(runner.current().as_str(), "1000");
    let ok = runner.step(&mut sink, 0, FetchOutcome::Fetched(full_page()));
    assert!(ok);

    assert!(!runner.finished());
    assert_eq!(runner.current().as_str(), "2000");
    assert!(runner.ready(5000));
    let ok = runner.step(
        &mut sink,
        5000,
        FetchOutcome::Fetched("<html></html>".to_string()),
    );
    assert!(ok);
    assert!(runner.finished());

    let rows = sink.rows();
    assert_eq!(rows.len(), 3);
    assert_eq!(rows[0], "株式番号,会社名,株価,PER,PBR,配当利回り,1株益(EPS),予想配当年,予想配当額");
    assert_eq!(rows[1], "1000,Alpha Corp,1234,10.5,1.2,3.4%,55,2026,80");
    assert_eq!(rows[2], "2000,N/A,N/A,N/A,N/A,N/A,N/A,N/A,N/A");
}

#[test]
fn a_fetch_failure_stops_the_run_after_the_rows_already_written() {
    let mut sink = ReportSink::new();
    sink.initialize();
    let ids = vec!["1000".to_string(), "2000".to_string(), "3000".to_string()];
    let mut runner = PacedRunner::new(ids, 5000);

    let ok = runner.step(&mut sink, 0, FetchOutcome::Fetched(full_page()));
    assert!(ok);
    let ok = runner.step(&mut sink, 5000, FetchOutcome::Failed);
    assert!(!ok);

    // Exactly one data row: the first identifier's; none for the second or later.
    let rows = sink.rows();
    assert_eq!(rows.len(), 2);
    assert!(rows[1].starts_with("1000,"));
    assert!(!runner.finished());
    assert_eq!(runner.current().as_str(), "2000");
}

#[test]
fn pacing_blocks_a_fetch_inside_the_delay_window() {
    let mut sink = ReportSink::new();
    sink.initialize();
    let ids = vec!["1000".to_string(), "2000".to_string()];
    let mut runner = PacedRunner::new(ids, 5000);

    assert!(runner.ready(0));
    runner.step(&mut sink, 0, FetchOutcome::Fetched("<html></html>".to_string()));
    assert!(!runner.ready(4999));
    assert!(runner.ready(5000));
    runner.step(&mut sink, 5000, FetchOutcome::Fetched("<html></html>".to_string()));
    assert!(runner.finished());
    assert_eq!(sink.rows().len(), 3);
}
