use filing_facts::sanitize::sanitize_xml;

#[test]
fn bare_ampersand_is_escaped() {
    assert_eq!(sanitize_xml("AT&T"), "AT&amp;T");
    assert_eq!(sanitize_xml("a & b"), "a &amp; b");
    assert_eq!(sanitize_xml("&"), "&amp;");
}

#[test]
fn valid_references_are_kept() {
    let text = "<a>&amp; &lt; &gt; &quot; &apos; &#38; &#x26;</a>";
    assert_eq!(sanitize_xml(text), text);
}

#[test]
fn unknown_entity_is_escaped() {
    assert_eq!(sanitize_xml("&nbsp;"), "&amp;nbsp;");
    assert_eq!(sanitize_xml("&foo"), "&amp;foo");
}

#[test]
fn only_complete_references_are_kept() {
    assert_eq!(sanitize_xml("&amplifier"), "&amp;amplifier");
    assert_eq!(sanitize_xml("&# "), "&amp;# ");
    assert_eq!(sanitize_xml("&#;"), "&amp;#;");
    assert_eq!(sanitize_xml("&#x;"), "&amp;#x;");
    assert_eq!(sanitize_xml("&#12a;"), "&amp;#12a;");
    assert_eq!(sanitize_xml("&lt"), "&amp;lt");
    assert_eq!(sanitize_xml("&amp ;"), "&amp;amp ;");
    assert_eq!(sanitize_xml("&#x1F4a9;&#0065;"), "&#x1F4a9;&#0065;");
}

#[test]
fn sanitizing_twice_changes_nothing_more() {
    let once = sanitize_xml("R&D & more &lt;");
    assert_eq!(once, "R&amp;D &amp; more &lt;");
    assert_eq!(sanitize_xml(&once), once);
}

#[test]
fn no_bare_ampersand_remains() {
    let out = sanitize_xml("x&y&&amp;&z;&#1;&");
    assert_eq!(out, "x&amp;y&amp;&amp;&amp;z;&#1;&amp;");
    for (i, c) in out.char_indices() {
        if c == '&' {
            let rest = &out[i + 1..];
            let body = &rest[..rest.find(';').expect("closing semicolon")];
            let named = ["amp", "lt", "gt", "quot", "apos"].contains(&body);
            let decimal = body.len() >= 2
                && body.starts_with('#')
                && body[1..].chars().all(|d| d.is_ascii_digit());
            let hex = body.len() >= 3
                && body.starts_with("#x")
                && body[2..].chars().all(|d| d.is_ascii_hexdigit());
            assert!(named || decimal || hex, "{}", rest);
        }
    }
}

#[test]
fn empty_and_multibyte_text() {
    assert_eq!(sanitize_xml(""), "");
    assert_eq!(sanitize_xml("é&ü"), "é&amp;ü");
}
