use filing_facts::extract::{extract_facts, facts_from_tokens, accounting_concept};
use filing_facts::facts::FactMap;
use filing_facts::xml::XmlToken;

fn value(facts: &FactMap, concept: &str) -> Option<String> {
    facts.get(&concept.to_string())
}

#[test]
fn namespace_filter_keeps_accounting_concepts() {
    let doc = "<root><us-gaap:Revenues>1000</us-gaap:Revenues><other:Foo>999</other:Foo></root>";
    let facts = extract_facts(doc).unwrap();
    assert_eq!(value(&facts, "us-gaap:Revenues"), Some("1000".to_string()));
    assert_eq!(value(&facts, "us-gaap:Revenues").unwrap().parse::<f64>().unwrap(), 1000.0);
    assert_eq!(value(&facts, "other:Foo"), None);
    assert_eq!(facts.len(), 1);
    for (k, _) in facts.entries() {
        assert!(!k.contains("Foo"));
    }
}

#[test]
fn non_numeric_text_is_discarded() {
    let doc = "<us-gaap:EntityName>Acme Corp</us-gaap:EntityName>";
    let facts = extract_facts(doc).unwrap();
    assert_eq!(facts.len(), 0);
}

#[test]
fn text_is_trimmed_before_parsing() {
    let doc = "<x><us-gaap:Assets>\n   -12.5e3  \n</us-gaap:Assets></x>";
    let facts = extract_facts(doc).unwrap();
    assert_eq!(value(&facts, "us-gaap:Assets"), Some("-12.5e3".to_string()));
}

#[test]
fn last_value_wins_for_repeated_concept() {
    let doc = "<x><us-gaap:Assets>1</us-gaap:Assets><us-gaap:Assets>2</us-gaap:Assets></x>";
    let facts = extract_facts(doc).unwrap();
    assert_eq!(value(&facts, "us-gaap:Assets"), Some("2".to_string()));
    assert_eq!(facts.len(), 1);
}

#[test]
fn mismatched_end_tag_is_a_parse_error() {
    let doc = "<x><us-gaap:Assets>1</us-gaap:Other></x>";
    let err = extract_facts(doc).err().expect("tokenizer error");
    assert!(!err.message.is_empty());
}

#[test]
fn empty_document_gives_no_facts() {
    let facts = extract_facts("").unwrap();
    assert_eq!(facts.len(), 0);
}

#[test]
fn tokens_are_scanned_until_the_end() {
    let tokens = vec![
        XmlToken::Start("us-gaap:Goodwill".to_string()),
        XmlToken::Text(" 42 ".to_string()),
        XmlToken::Other,
        XmlToken::Text("7".to_string()),
        XmlToken::Start("dei:Name".to_string()),
        XmlToken::Text("9".to_string()),
        XmlToken::Eof,
        XmlToken::Start("us-gaap:Late".to_string()),
        XmlToken::Text("1".to_string()),
    ];
    let facts = facts_from_tokens(&tokens).unwrap();
    assert_eq!(value(&facts, "us-gaap:Goodwill"), Some("7".to_string()));
    assert_eq!(value(&facts, "us-gaap:Late"), None);
    assert_eq!(value(&facts, "dei:Name"), None);
}

#[test]
fn tokens_stop_at_the_first_error() {
    let tokens = vec![
        XmlToken::Start("us-gaap:Goodwill".to_string()),
        XmlToken::Failed("broken".to_string()),
        XmlToken::Text("7".to_string()),
    ];
    let err = facts_from_tokens(&tokens).err().unwrap();
    assert_eq!(err.message, "broken");
}

#[test]
fn float_literal_forms() {
    let tokens = vec![
        XmlToken::Start("us-gaap:A".to_string()),
        XmlToken::Text("inf".to_string()),
        XmlToken::Start("us-gaap:B".to_string()),
        XmlToken::Text("1.".to_string()),
        XmlToken::Start("us-gaap:C".to_string()),
        XmlToken::Text(".".to_string()),
        XmlToken::Start("us-gaap:D".to_string()),
        XmlToken::Text("1e".to_string()),
        XmlToken::Start("us-gaap:E".to_string()),
        XmlToken::Text("+.5E-3".to_string()),
        XmlToken::Start("us-gaap:F".to_string()),
        XmlToken::Text("2024-03-31".to_string()),
    ];
    let facts = facts_from_tokens(&tokens).unwrap();
    for (k, v) in facts.entries() {
        assert!(v.parse::<f64>().is_ok(), "{} = {}", k, v);
    }
    assert!(value(&facts, "us-gaap:A").is_some());
    assert!(value(&facts, "us-gaap:B").is_some());
    assert!(value(&facts, "us-gaap:C").is_none());
    assert!(value(&facts, "us-gaap:D").is_none());
    assert!(value(&facts, "us-gaap:E").is_some());
    assert!(value(&facts, "us-gaap:F").is_none());
}

#[test]
fn accounting_prefix_is_recognized() {
    assert!(accounting_concept(&"us-gaap:Assets".to_string()));
    assert!(!accounting_concept(&"us-gaap".to_string()));
    assert!(!accounting_concept(&"dei:EntityName".to_string()));
}
