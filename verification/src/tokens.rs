//! The token stream of an XML text, as the streaming tokenizer yields it.

use quick_xml::events::Event;
use quick_xml::Reader;
use vstd::prelude::*;

verus! {

/// One step of the tokenizer, with what the flattener reads of it held as
/// plain text.
#[derive(Debug)]
pub enum XmlToken {
    /// An opening tag: its name and its attributes in written order, `None`
    /// standing for an attribute that is not well formed.
    Start { name: String, attributes: Vec<Option<(String, String)>> },
    /// A run of character data.
    Text(String),
    /// A closing tag.
    End,
    /// The end of the text.
    Eof,
    /// Any other markup: a self-closed tag, a comment, a declaration and the
    /// like.
    Other,
    /// The tokenizer gave up, with this description.
    Failed(String),
}

/// The mathematical content of an [`XmlToken`].
pub enum TokenView {
    Start { name: Seq<char>, attributes: Seq<Option<(Seq<char>, Seq<char>)>> },
    Text(Seq<char>),
    End,
    Eof,
    Other,
    Failed(Seq<char>),
}

impl View for XmlToken {
    type V = TokenView;

    open spec fn view(&self) -> TokenView {
        match self {
            XmlToken::Start { name, attributes } => TokenView::Start {
                name: name@,
                attributes: attributes.deep_view(),
            },
            XmlToken::Text(value) => TokenView::Text(value@),
            XmlToken::End => TokenView::End,
            XmlToken::Eof => TokenView::Eof,
            XmlToken::Other => TokenView::Other,
            XmlToken::Failed(message) => TokenView::Failed(message@),
        }
    }
}

impl DeepView for XmlToken {
    type V = TokenView;

    open spec fn deep_view(&self) -> TokenView {
        self@
    }
}

/// Whether a token ends the stream.
pub open spec fn is_terminal(token: TokenView) -> bool {
    token is Eof || token is Failed
}

/// A stream is closed when it ends with its only terminal token.
pub open spec fn closed_stream(tokens: Seq<TokenView>) -> bool {
    &&& tokens.len() > 0
    &&& is_terminal(tokens.last())
    &&& forall|i: int| 0 <= i < tokens.len() - 1 ==> !is_terminal(#[trigger] tokens[i])
}

/// `quick_xml::Reader`, the streaming tokenizer. Nothing of its inside is
/// known here; what it has yet to yield is named [`pending_tokens`].
#[verifier::external_type_specification]
#[verifier::external_body]
#[verifier::reject_recursive_types(R)]
pub struct ExReader<R>(Reader<R>);

/// The tokens that a text-trimming tokenizer yields on `text`, up to and
/// with the end of the text or its first failure.
pub uninterp spec fn xml_tokens(text: Seq<char>) -> Seq<TokenView>;

/// The tokens that `reader` has yet to yield, up to and with the end of its
/// text or its first failure; none once it has yielded that one.
pub uninterp spec fn pending_tokens(reader: Reader<&[u8]>) -> Seq<TokenView>;

/// `quick_xml::Reader::from_str` followed by `trim_text(true)`: a tokenizer
/// at the start of `text`. Not proved: that what it will yield is the
/// stream named [`xml_tokens`], and that this stream is closed, which holds
/// because every token but the last consumes input.
#[verifier::external_body]
pub(crate) fn trimming_reader(text: &str) -> (reader: Reader<&[u8]>)
    ensures
        pending_tokens(reader) == xml_tokens(text@),
        closed_stream(pending_tokens(reader)),
{
    let mut reader = Reader::from_str(text);
    reader.trim_text(true);
    reader
}

/// `quick_xml::Reader::read_event_into`: the next token, converted. Not
/// proved: that it is the first of the pending ones and leaves the rest.
#[verifier::external_body]
pub(crate) fn next_token(reader: &mut Reader<&[u8]>) -> (token: XmlToken)
    requires
        pending_tokens(*old(reader)).len() > 0,
    ensures
        token@ == pending_tokens(*old(reader))[0],
        pending_tokens(*final(reader)) == pending_tokens(*old(reader)).skip(1),
{
    let mut buf = Vec::new();
    match reader.read_event_into(&mut buf) {
        Ok(Event::Start(e)) => XmlToken::Start {
            name: String::from_utf8_lossy(e.name().into_inner()).to_string(),
            attributes: e.attributes().map(|a| a.ok().map(|a| (
                String::from_utf8_lossy(a.key.into_inner()).to_string(),
                String::from_utf8_lossy(&a.value).to_string(),
            ))).collect(),
        },
        Ok(Event::Text(e)) => XmlToken::Text(String::from_utf8_lossy(&e).to_string()),
        Ok(Event::End(_)) => XmlToken::End,
        Ok(Event::Eof) => XmlToken::Eof,
        Ok(_) => XmlToken::Other,
        Err(e) => XmlToken::Failed(e.to_string()),
    }
}

} // verus!
