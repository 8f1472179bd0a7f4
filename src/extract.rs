//! Fact extraction: numeric text of elements in the accounting namespace.
use vstd::prelude::*;
use crate::facts::FactMap;
use crate::numeric::{is_float_literal, trimmed, trim, float_literal};
use crate::text::{starts_with, chars_of, word_at, string_of};
use crate::xml::{XmlToken, XmlTokens, xml_token_at, next_token};

verus! {

/// A structural error of the tokenizer, which ends extraction for a document.
#[derive(Debug)]
pub struct ParseError {
    pub message: String,
}

/// The namespace prefix of recognized accounting concepts.
pub open spec fn accounting_prefix() -> Seq<char> {
    seq!['u', 's', '-', 'g', 'a', 'a', 'p', ':']
}

/// A qualified element name in the accounting namespace.
pub open spec fn is_accounting_concept(name: Seq<char>) -> bool {
    starts_with(name, accounting_prefix())
}

pub open spec fn concept_view(c: Option<String>) -> Option<Seq<char>> {
    match c {
        Some(s) => Some(s@),
        None => None,
    }
}

/// The current concept after a token: a start tag sets it when its name is in
/// the accounting namespace and clears it otherwise; other tokens keep it.
pub open spec fn next_concept(concept: Option<Seq<char>>, tok: XmlToken) -> Option<Seq<char>> {
    match tok {
        XmlToken::Start(name) => if is_accounting_concept(name@) {
            Some(name@)
        } else {
            None
        },
        _ => concept,
    }
}

/// The facts after a token: text under a current concept that trims to a
/// floating-point literal records that literal for the concept.
pub open spec fn next_facts(
    concept: Option<Seq<char>>,
    facts: Map<Seq<char>, Seq<char>>,
    tok: XmlToken,
) -> Map<Seq<char>, Seq<char>> {
    match tok {
        XmlToken::Text(t) => match concept {
            Some(c) => if is_float_literal(trimmed(t@)) {
                facts.insert(c, trimmed(t@))
            } else {
                facts
            },
            None => facts,
        },
        _ => facts,
    }
}

/// The outcome of scanning `tokens` from position `i`, with the given current
/// concept and facts: the facts at the end of the document (or of the tokens),
/// or the message of the first tokenizer error.
pub open spec fn scan_from(
    tokens: Seq<XmlToken>,
    i: int,
    concept: Option<Seq<char>>,
    facts: Map<Seq<char>, Seq<char>>,
) -> Result<Map<Seq<char>, Seq<char>>, Seq<char>>
    decreases tokens.len() - i,
{
    if i < 0 || i >= tokens.len() {
        Ok(facts)
    } else {
        match tokens[i] {
            XmlToken::Eof => Ok(facts),
            XmlToken::Failed(m) => Err(m@),
            _ => scan_from(
                tokens,
                i + 1,
                next_concept(concept, tokens[i]),
                next_facts(concept, facts, tokens[i]),
            ),
        }
    }
}

/// The outcome of scanning a whole token stream.
pub open spec fn extraction(tokens: Seq<XmlToken>) -> Result<Map<Seq<char>, Seq<char>>, Seq<char>> {
    scan_from(tokens, 0, None, Map::empty())
}

/// The tokens of a document that extraction reads: one per character, and
/// one more. Reading stops there whether or not the end was reached.
pub open spec fn document_tokens(doc: Seq<char>) -> Seq<XmlToken> {
    Seq::new(doc.len() + 1, |k: int| xml_token_at(doc, k as nat))
}

/// An executable outcome agrees with a scan outcome.
pub open spec fn outcome_is(
    r: Result<FactMap, ParseError>,
    e: Result<Map<Seq<char>, Seq<char>>, Seq<char>>,
) -> bool {
    match r {
        Ok(m) => m.wf() && e == Ok::<Map<Seq<char>, Seq<char>>, Seq<char>>(m@),
        Err(p) => e == Err::<Map<Seq<char>, Seq<char>>, Seq<char>>(p.message@),
    }
}

/// Every key is an accounting concept and every value a floating-point
/// literal.
pub open spec fn numeric_concepts_only(facts: Map<Seq<char>, Seq<char>>) -> bool {
    forall|k: Seq<char>|
        #[trigger] facts.contains_key(k) ==> is_accounting_concept(k) && is_float_literal(facts[k])
}

proof fn lemma_scan_keeps_numeric_concepts(
    tokens: Seq<XmlToken>,
    i: int,
    concept: Option<Seq<char>>,
    facts: Map<Seq<char>, Seq<char>>,
)
    requires
        concept is Some ==> is_accounting_concept(concept->0),
        numeric_concepts_only(facts),
    ensures
        scan_from(tokens, i, concept, facts) is Ok ==> numeric_concepts_only(
            scan_from(tokens, i, concept, facts)->Ok_0,
        ),
    decreases tokens.len() - i,
{
    if 0 <= i < tokens.len() && !(tokens[i] is Eof) && !(tokens[i] is Failed) {
        let c2 = next_concept(concept, tokens[i]);
        let f2 = next_facts(concept, facts, tokens[i]);
        assert(numeric_concepts_only(f2));
        lemma_scan_keeps_numeric_concepts(tokens, i + 1, c2, f2);
    }
}

/// Whatever the tokens, the facts extracted from them are keyed by concepts
/// of the accounting namespace only, and hold floating-point literals only:
/// elements of other namespaces and non-numeric text contribute nothing.
pub proof fn lemma_extraction_keeps_numeric_concepts(tokens: Seq<XmlToken>)
    ensures
        extraction(tokens) is Ok ==> numeric_concepts_only(extraction(tokens)->Ok_0),
{
    lemma_scan_keeps_numeric_concepts(tokens, 0, None, Map::empty());
}

/// Whether a qualified name is in the accounting namespace.
pub fn accounting_concept(name: &String) -> (r: bool)
    ensures
        r == is_accounting_concept(name@),
{
    let cs = chars_of(name.as_str());
    let prefix = vec!['u', 's', '-', 'g', 'a', 'a', 'p', ':'];
    assert(prefix@ =~= accounting_prefix());
    assert(cs@.subrange(0, cs@.len() as int) =~= cs@);
    word_at(&cs, 0, &prefix)
}

/// Applies one token that is neither the end nor an error.
fn absorb(concept: &mut Option<String>, facts: &mut FactMap, tok: &XmlToken)
    requires
        old(facts).wf(),
    ensures
        final(facts).wf(),
        final(facts)@ == next_facts(concept_view(*old(concept)), old(facts)@, *tok),
        concept_view(*final(concept)) == next_concept(concept_view(*old(concept)), *tok),
{
    match tok {
        XmlToken::Start(name) => {
            if accounting_concept(name) {
                *concept = Some(name.clone());
            } else {
                *concept = None;
            }
        },
        XmlToken::Text(t) => {
            match concept {
                Some(c) => {
                    let tc = trim(&chars_of(t.as_str()));
                    if float_literal(&tc) {
                        facts.insert(c.clone(), string_of(&tc));
                    }
                },
                None => {},
            }
        },
        _ => {},
    }
}

/// Collects the facts of a token stream: the text of each element in the
/// accounting namespace that trims to a floating-point literal, the last one
/// winning for a repeated concept. Stops at the end of the document, and
/// fails with the message of the first tokenizer error.
pub fn facts_from_tokens(tokens: &Vec<XmlToken>) -> (r: Result<FactMap, ParseError>)
    ensures
        outcome_is(r, extraction(tokens@)),
{
    let mut concept: Option<String> = None;
    let mut facts = FactMap::new();
    let mut i: usize = 0;
    while i < tokens.len()
        invariant
            i <= tokens.len(),
            facts.wf(),
            extraction(tokens@) == scan_from(tokens@, i as int, concept_view(concept), facts@),
        decreases tokens.len() - i,
    {
        match &tokens[i] {
            XmlToken::Eof => {
                return Ok(facts);
            },
            XmlToken::Failed(m) => {
                return Err(ParseError { message: m.clone() });
            },
            t => {
                absorb(&mut concept, &mut facts, t);
            },
        }
        i = i + 1;
    }
    Ok(facts)
}

/// Extracts the facts of an XML document (one already sanitized), reading it
/// as a stream of tokens.
pub fn extract_facts(xml: &str) -> (r: Result<FactMap, ParseError>)
    ensures
        outcome_is(r, extraction(document_tokens(xml@))),
{
    let n = xml.unicode_len();
    let ghost d = document_tokens(xml@);
    let mut toks = XmlTokens::open(xml);
    let mut concept: Option<String> = None;
    let mut facts = FactMap::new();
    let mut k: usize = 0;
    loop
        invariant
            n == xml@.len(),
            d == document_tokens(xml@),
            k <= n,
            toks.doc() == xml@,
            toks.read() == k,
            facts.wf(),
            extraction(d) == scan_from(d, k as int, concept_view(concept), facts@),
        decreases n - k,
    {
        let tok = next_token(&mut toks);
        assert(tok == d[k as int]);
        match &tok {
            XmlToken::Eof => {
                return Ok(facts);
            },
            XmlToken::Failed(m) => {
                return Err(ParseError { message: m.clone() });
            },
            t => {
                absorb(&mut concept, &mut facts, t);
            },
        }
        if k == n {
            return Ok(facts);
        }
        k = k + 1;
    }
}

} // verus!
