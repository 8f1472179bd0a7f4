use filing_facts::facts::FactMap;
use filing_facts::normalize::{normalize, CanonicalReport, Figure, FieldRule, Rule};
use filing_facts::schema::{canonical_schema, map_us_gaap_to_rich};

fn facts(pairs: &[(&str, &str)]) -> FactMap {
    let mut m = FactMap::new();
    for (k, v) in pairs {
        m.insert(k.to_string(), v.to_string());
    }
    m
}

fn num(s: &str) -> f64 {
    s.parse().unwrap()
}

fn value(f: &Figure) -> f64 {
    match f {
        Figure::Zero => 0.0,
        Figure::Fact(v) => num(v),
        Figure::Difference(a, b) => {
            a.as_deref().map(num).unwrap_or(0.0) - b.as_deref().map(num).unwrap_or(0.0)
        }
        Figure::Quotient(n, s, d) => {
            let top = match s {
                Some(x) => num(n) - num(x),
                None => num(n),
            };
            top / num(d)
        }
    }
}

fn field(r: &CanonicalReport, section: &str, name: &str) -> f64 {
    value(r.figure(section, name).expect("field present"))
}

#[test]
fn empty_facts_give_all_zero_fields() {
    let report = map_us_gaap_to_rich(&FactMap::new());
    assert_eq!(report.fields.len(), 68);
    for f in &report.fields {
        assert!(matches!(f.figure, Figure::Zero), "{}.{}", f.section, f.name);
        assert_eq!(value(&f.figure), 0.0);
    }
    for section in ["balance_sheet", "income_statement", "cash_flow", "leases", "derivatives", "equity", "other_comprehensive_income", "ratios"] {
        assert!(report.fields.iter().any(|f| f.section == section));
    }
}

#[test]
fn ratio_with_absent_denominator_is_zero() {
    let report = map_us_gaap_to_rich(&facts(&[("us-gaap:Assets", "100.0")]));
    assert!(matches!(report.figure("ratios", "current_ratio"), Some(Figure::Zero)));
    assert_eq!(field(&report, "ratios", "current_ratio"), 0.0);
    assert_eq!(field(&report, "balance_sheet", "assets"), 100.0);
}

#[test]
fn ratio_with_zero_denominator_is_zero() {
    let report = map_us_gaap_to_rich(&facts(&[
        ("us-gaap:AssetsCurrent", "100.0"),
        ("us-gaap:LiabilitiesCurrent", "0.0"),
    ]));
    assert!(matches!(report.figure("ratios", "current_ratio"), Some(Figure::Zero)));
    let v = field(&report, "ratios", "current_ratio");
    assert_eq!(v, 0.0);
    assert!(v.is_finite());
    for zero in ["0", "-0.000", "0e5", ".0"] {
        let r = map_us_gaap_to_rich(&facts(&[
            ("us-gaap:AssetsCurrent", "1"),
            ("us-gaap:LiabilitiesCurrent", zero),
        ]));
        assert!(matches!(r.figure("ratios", "current_ratio"), Some(Figure::Zero)), "{}", zero);
    }
}

#[test]
fn ratio_with_both_operands_divides() {
    let report = map_us_gaap_to_rich(&facts(&[
        ("us-gaap:AssetsCurrent", "200"),
        ("us-gaap:LiabilitiesCurrent", "100"),
        ("us-gaap:Liabilities", "300"),
        ("us-gaap:StockholdersEquity", "150"),
    ]));
    assert_eq!(field(&report, "ratios", "current_ratio"), 2.0);
    assert_eq!(field(&report, "ratios", "debt_to_equity"), 2.0);
}

#[test]
fn gross_profit_and_margins() {
    let report = map_us_gaap_to_rich(&facts(&[
        ("us-gaap:Revenues", "1000"),
        ("us-gaap:CostOfRevenue", "600"),
        ("us-gaap:OperatingIncomeLoss", "250"),
        ("us-gaap:NetIncomeLoss", "100"),
    ]));
    assert_eq!(field(&report, "income_statement", "gross_profit"), 400.0);
    assert_eq!(field(&report, "ratios", "gross_margin"), 0.4);
    assert_eq!(field(&report, "ratios", "operating_margin"), 0.25);
    assert_eq!(field(&report, "ratios", "net_margin"), 0.1);
}

#[test]
fn gross_profit_with_one_operand_absent() {
    let report = map_us_gaap_to_rich(&facts(&[("us-gaap:CostOfRevenue", "600")]));
    assert_eq!(field(&report, "income_statement", "gross_profit"), -600.0);
    assert!(matches!(report.figure("ratios", "gross_margin"), Some(Figure::Zero)));
}

#[test]
fn shared_concept_feeds_two_fields() {
    let report = map_us_gaap_to_rich(&facts(&[(
        "us-gaap:CommonStocksIncludingAdditionalPaidInCapital",
        "77",
    )]));
    assert_eq!(field(&report, "balance_sheet", "common_stock"), 77.0);
    assert_eq!(field(&report, "equity", "additional_paid_in_capital"), 77.0);
}

#[test]
fn custom_schema_is_followed_in_order() {
    let schema = vec![
        FieldRule { section: "s".to_string(), name: "b".to_string(), rule: Rule::Fact("k:B".to_string()) },
        FieldRule { section: "s".to_string(), name: "a".to_string(), rule: Rule::Ratio("k:A".to_string(), None, "k:B".to_string()) },
    ];
    let report = normalize(&facts(&[("k:A", "9"), ("k:B", "3")]), &schema);
    assert_eq!(report.fields.len(), 2);
    assert_eq!(report.fields[0].name, "b");
    assert_eq!(value(&report.fields[0].figure), 3.0);
    assert_eq!(value(&report.fields[1].figure), 3.0);
    assert!(report.figure("s", "c").is_none());
}

#[test]
fn schema_has_every_section() {
    let schema = canonical_schema();
    assert_eq!(schema.len(), 68);
    assert_eq!(schema.iter().filter(|r| r.section == "ratios").count(), 5);
    assert_eq!(schema.iter().filter(|r| r.section == "balance_sheet").count(), 26);
}

#[test]
fn fact_map_replaces_and_reports_length() {
    let mut m = FactMap::new();
    m.insert("a".to_string(), "1".to_string());
    m.insert("b".to_string(), "2".to_string());
    m.insert("a".to_string(), "3".to_string());
    assert_eq!(m.len(), 2);
    assert_eq!(m.get(&"a".to_string()), Some("3".to_string()));
    assert_eq!(m.entries()[0].0, "a");
}
