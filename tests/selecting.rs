use filing_facts::models::{companies_with_ticker, eq_ignore_ascii_case, Company};
use filing_facts::select::{
    archive_base, find_instance_document, form_label, matching_filings, parse_category, Category,
    FilingHistory, SelectionError,
};

fn history(forms: &[&str]) -> FilingHistory {
    let col = |p: &str| forms.iter().enumerate().map(|(i, _)| format!("{}{}", p, i)).collect::<Vec<_>>();
    FilingHistory::from_columns(
        forms.iter().map(|f| f.to_string()).collect(),
        col("0000000001-24-00000"),
        col("2024-01-0"),
        col("doc"),
    )
    .unwrap()
}

#[test]
fn quarterly_picks_first_matches_in_order() {
    let h = history(&["10-K", "10-Q", "10-Q", "10-K"]);
    let label = form_label(parse_category("quarterly").unwrap());
    assert_eq!(label, "10-Q");
    assert_eq!(matching_filings(&h, &label, 2).unwrap(), vec![1, 2]);
}

#[test]
fn count_limits_the_matches() {
    let h = history(&["10-K", "10-Q", "10-Q", "10-K"]);
    assert_eq!(matching_filings(&h, &"10-K".to_string(), 1).unwrap(), vec![0]);
    assert_eq!(matching_filings(&h, &"10-K".to_string(), 5).unwrap(), vec![0, 3]);
}

#[test]
fn no_matching_filings_is_an_error() {
    let h = history(&["10-K", "8-K"]);
    match matching_filings(&h, &"10-Q".to_string(), 1) {
        Err(SelectionError::NoMatchingFilings(l)) => assert_eq!(l, "10-Q"),
        other => panic!("unexpected {:?}", other),
    }
    let empty = history(&[]);
    assert!(matching_filings(&empty, &"10-Q".to_string(), 1).is_err());
}

#[test]
fn categories_and_labels() {
    assert_eq!(parse_category("annual").unwrap(), Category::Annual);
    assert_eq!(form_label(Category::Annual), "10-K");
    assert_eq!(form_label(Category::Quarterly), "10-Q");
    assert!(matches!(parse_category("monthly"), Err(SelectionError::InvalidPeriod)));
    assert!(matches!(parse_category("Quarterly"), Err(SelectionError::InvalidPeriod)));
    assert!(matches!(parse_category(""), Err(SelectionError::InvalidPeriod)));
}

#[test]
fn unequal_columns_are_refused() {
    let h = FilingHistory::from_columns(vec!["10-Q".to_string()], vec![], vec![], vec![]);
    assert!(h.is_none());
}

#[test]
fn archive_location_strips_zeros_and_dashes() {
    assert_eq!(
        archive_base("0000320193", "0000320193-23-000106"),
        "https://www.sec.gov/Archives/edgar/data/320193/000032019323000106"
    );
    assert_eq!(archive_base("", "a-b"), "https://www.sec.gov/Archives/edgar/data//ab");
}

#[test]
fn instance_document_is_the_first_xbrl_file() {
    let files: Vec<String> = ["index.htm", "FilingSummary.xml", "a_xbrl.xml", "b_htm.xml"]
        .iter()
        .map(|s| s.to_string())
        .collect();
    assert_eq!(find_instance_document(&files), Some(2));
    let none: Vec<String> = vec!["x.xml".to_string(), "htm.xml".to_string()];
    assert_eq!(find_instance_document(&none), None);
}

#[test]
fn ticker_search_ignores_ascii_case() {
    let c = |cik: u64, t: &str| Company { cik_str: cik, ticker: t.to_string(), title: format!("Co {}", cik) };
    let found = companies_with_ticker(vec![c(1, "AAPL"), c(2, "MSFT"), c(3, "aapl")], "aApL");
    assert_eq!(found.iter().map(|c| c.cik_str).collect::<Vec<_>>(), vec![1, 3]);
    assert!(companies_with_ticker(vec![c(1, "AAPL")], "AAP").is_empty());
    assert!(eq_ignore_ascii_case("BRK.B", "brk.b"));
    assert!(!eq_ignore_ascii_case("É", "é"));
}
