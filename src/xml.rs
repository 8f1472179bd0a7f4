//! The stream of XML tokens that the fact extractor reads, from quick-xml.
use vstd::prelude::*;
use quick_xml::events::Event;
use quick_xml::Reader;

verus! {

/// quick-xml's pull reader, carried as an opaque value.
#[verifier::external_type_specification]
#[verifier::external_body]
#[verifier::reject_recursive_types(R)]
pub struct ExReader<R>(Reader<R>);

/// One token of an XML document, as far as fact extraction reads it.
#[derive(Debug)]
pub enum XmlToken {
    /// A start tag, with its qualified name.
    Start(String),
    /// Character data between tags, with surrounding XML whitespace removed.
    Text(String),
    /// The end of the document.
    Eof,
    /// A structural error of the tokenizer, with its message.
    Failed(String),
    /// Any other token (end tag, empty element, comment, reference, ...).
    Other,
}

/// The token that quick-xml's reader, set to trim text, yields as its `k`-th
/// event (counting from zero) on the document `doc`.
pub uninterp spec fn xml_token_at(doc: Seq<char>, k: nat) -> XmlToken;

/// A reader over one document that counts the tokens it has handed out.
pub struct XmlTokens<'a> {
    reader: Reader<&'a [u8]>,
    doc: Ghost<Seq<char>>,
    read: Ghost<nat>,
}

/// Relies on `quick_xml::Reader::from_str`, with `Config::trim_text(true)`: a
/// reader at the start of the document.
#[verifier::external_body]
fn trimming_reader<'a>(doc: &'a str) -> Reader<&'a [u8]> {
    let mut reader = Reader::from_str(doc);
    reader.config_mut().trim_text(true);
    reader
}

impl<'a> XmlTokens<'a> {
    /// The document being read.
    pub closed spec fn doc(&self) -> Seq<char> {
        self.doc@
    }

    /// How many tokens were handed out so far.
    pub closed spec fn read(&self) -> nat {
        self.read@
    }

    /// Starts reading `doc` from its beginning.
    pub fn open(doc: &'a str) -> (r: Self)
        ensures
            r.doc() == doc@,
            r.read() == 0,
    {
        XmlTokens { reader: trimming_reader(doc), doc: Ghost(doc@), read: Ghost(0) }
    }
}

/// Relies on `quick_xml::Reader::read_event`: the next event of the document,
/// which depends on the document and on how many events came before it alone.
/// Names and text are decoded as UTF-8.
#[verifier::external_body]
pub(crate) fn next_token(tokens: &mut XmlTokens) -> (r: XmlToken)
    ensures
        final(tokens).doc() == old(tokens).doc(),
        final(tokens).read() == old(tokens).read() + 1,
        r == xml_token_at(old(tokens).doc(), old(tokens).read()),
{
    match tokens.reader.read_event() {
        Ok(Event::Start(e)) => XmlToken::Start(
            tokens.reader.decoder().decode(e.name().as_ref()).unwrap_or_default().into_owned(),
        ),
        Ok(Event::Text(t)) => XmlToken::Text(t.decode().unwrap_or_default().into_owned()),
        Ok(Event::Eof) => XmlToken::Eof,
        Ok(_) => XmlToken::Other,
        Err(e) => XmlToken::Failed(e.to_string()),
    }
}

} // verus!
