use filing_facts::normalize::Figure;
use filing_facts::resolve::{document_url, report_for_document, Action, ResolveError, Resolution};
use filing_facts::schema::canonical_schema;
use filing_facts::select::{form_label, parse_category, FilingHistory, SelectionError};

fn history(forms: &[&str]) -> FilingHistory {
    FilingHistory::from_columns(
        forms.iter().map(|f| f.to_string()).collect(),
        forms.iter().enumerate().map(|(i, _)| format!("0000320193-24-00000{}", i)).collect(),
        forms.iter().enumerate().map(|(i, _)| format!("2024-0{}-01", i + 1)).collect(),
        forms.iter().map(|_| "main.htm".to_string()).collect(),
    )
    .unwrap()
}

fn names(list: &[&str]) -> Vec<String> {
    list.iter().map(|s| s.to_string()).collect()
}

fn num(f: Option<&Figure>) -> f64 {
    let p = |s: &String| s.parse::<f64>().unwrap();
    match f.unwrap() {
        Figure::Zero => 0.0,
        Figure::Fact(v) => p(v),
        Figure::Difference(a, b) => a.as_ref().map(p).unwrap_or(0.0) - b.as_ref().map(p).unwrap_or(0.0),
        Figure::Quotient(n, s, d) => (p(n) - s.as_ref().map(p).unwrap_or(0.0)) / p(d),
    }
}

const DOC: &str = "<?xml version=\"1.0\"?><xbrl><us-gaap:Assets contextRef=\"c\">500</us-gaap:Assets>\
<us-gaap:AssetsCurrent>200</us-gaap:AssetsCurrent><dei:Note>R&D</dei:Note>\
<us-gaap:LiabilitiesCurrent>100</us-gaap:LiabilitiesCurrent></xbrl>";

#[test]
fn latest_quarterly_filing_end_to_end() {
    let label = form_label(parse_category("quarterly").unwrap());
    let (mut s, a) = Resolution::start(history(&["10-Q"]), "0000320193", &label, 1, false).ok().unwrap();
    let base = "https://www.sec.gov/Archives/edgar/data/320193/000032019324000000";
    match a {
        Action::ListFiles(u) => assert_eq!(u, base),
        other => panic!("unexpected {:?}", other),
    }
    match s.files_listed(&names(&["main.htm", "aapl-20240330_htm.xml"])) {
        Action::FetchDocument(u) => assert_eq!(u, format!("{}/aapl-20240330_htm.xml", base)),
        other => panic!("unexpected {:?}", other),
    }
    assert!(matches!(s.document_fetched(DOC, &canonical_schema()), Action::Finished));
    let reports = s.into_reports();
    assert_eq!(reports.len(), 1);
    let r = &reports[0];
    assert_eq!(r.filing.instance_document, "aapl-20240330_htm.xml");
    assert_eq!(r.filing.accession_number, "0000320193-24-000000");
    assert_eq!(r.filing.filing_date, "2024-01-01");
    assert_eq!(num(r.report.figure("balance_sheet", "assets")), 500.0);
    assert_eq!(num(r.report.figure("balance_sheet", "current_assets")), 200.0);
    assert_eq!(num(r.report.figure("ratios", "current_ratio")), 2.0);
}

#[test]
fn missing_instance_is_skipped_in_latest_n() {
    let (mut s, a) = Resolution::start(history(&["10-K", "10-Q", "10-Q", "10-Q"]), "1", &"10-Q".to_string(), 2, true).ok().unwrap();
    assert!(matches!(a, Action::ListFiles(_)));
    assert!(matches!(s.files_listed(&names(&["x_htm.xml"])), Action::FetchDocument(_)));
    match s.document_fetched(DOC, &canonical_schema()) {
        Action::ListFiles(u) => assert!(u.ends_with("/000032019324000002")),
        other => panic!("unexpected {:?}", other),
    }
    assert!(matches!(s.files_listed(&names(&["main.htm"])), Action::Finished));
    assert_eq!(s.into_reports().len(), 1);
}

#[test]
fn missing_instance_fails_the_latest_filing() {
    let (mut s, _) = Resolution::start(history(&["10-Q"]), "1", &"10-Q".to_string(), 1, false).ok().unwrap();
    assert!(matches!(
        s.files_listed(&names(&["main.htm"])),
        Action::Failed(ResolveError::Selection(SelectionError::NoInstanceDocument))
    ));
}

#[test]
fn parse_error_fails_or_skips() {
    let (mut s, _) = Resolution::start(history(&["10-Q"]), "1", &"10-Q".to_string(), 1, false).ok().unwrap();
    s.files_listed(&names(&["a_htm.xml"]));
    assert!(matches!(s.document_fetched("<a></b>", &canonical_schema()), Action::Failed(ResolveError::Parse(_))));

    let (mut s, _) = Resolution::start(history(&["10-Q"]), "1", &"10-Q".to_string(), 1, true).ok().unwrap();
    s.files_listed(&names(&["a_htm.xml"]));
    assert!(matches!(s.document_fetched("<a></b>", &canonical_schema()), Action::Finished));
    assert_eq!(s.into_reports().len(), 0);
}

#[test]
fn transport_failure_is_passed_on_unchanged() {
    let (mut s, _) = Resolution::start(history(&["10-Q"]), "1", &"10-Q".to_string(), 1, false).ok().unwrap();
    match s.fetch_failed("timed out".to_string()) {
        Action::Failed(ResolveError::Transport(m)) => assert_eq!(m, "timed out"),
        other => panic!("unexpected {:?}", other),
    }
    let (mut s, _) = Resolution::start(history(&["10-Q", "10-Q"]), "1", &"10-Q".to_string(), 2, true).ok().unwrap();
    assert!(matches!(s.fetch_failed("timed out".to_string()), Action::ListFiles(_)));
}

#[test]
fn no_matching_filing_fails_the_request() {
    match Resolution::start(history(&["10-K"]), "1", &"10-Q".to_string(), 1, false) {
        Err(SelectionError::NoMatchingFilings(l)) => assert_eq!(l, "10-Q"),
        _ => panic!("expected an error"),
    }
}

#[test]
fn document_report_sanitizes_first() {
    let r = report_for_document("<x><us-gaap:Goodwill>5</us-gaap:Goodwill><n>A & B</n></x>", &canonical_schema()).unwrap();
    assert_eq!(num(r.figure("balance_sheet", "goodwill")), 5.0);
    assert_eq!(document_url(&"b".to_string(), &"c.xml".to_string()), "b/c.xml");
}
