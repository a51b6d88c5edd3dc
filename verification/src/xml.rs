//! The token stream the document walker consumes.
//!
//! The XML tokenizer is an outside collaborator.  Its reader is modelled by
//! the sequence of tokens it has yet to yield; that sequence is a function of
//! the document text alone, and the walker is verified against it.  A token
//! is a plain value: an element open (name and attributes), an element close,
//! trimmed text content, or the end of the stream.

use vstd::prelude::*;

verus! {

/// One tokenizer event, as a plain value.
#[derive(Debug, Clone)]
pub enum Token {
    /// An opening tag: its name and its attributes in document order.
    Open(String, Vec<(String, String)>),
    /// A self-closing tag: its name and its attributes in document order.
    Empty(String, Vec<(String, String)>),
    /// A closing tag: its name.
    Close(String),
    /// Text content between tags, trimmed of surrounding whitespace.
    Text(String),
    /// The end of the document, or a tokenizer failure, which ends the
    /// stream the same way.
    Eof,
    /// Any other markup (comments, declarations, processing instructions).
    Other,
}

#[verifier::ext_equal]
pub ghost enum TokenV {
    Open(Seq<char>, Seq<(Seq<char>, Seq<char>)>),
    Empty(Seq<char>, Seq<(Seq<char>, Seq<char>)>),
    Close(Seq<char>),
    Text(Seq<char>),
    Eof,
    Other,
}

impl View for Token {
    type V = TokenV;

    open spec fn view(&self) -> TokenV {
        match self {
            Token::Open(name, attrs) => TokenV::Open(name@, attrs.deep_view()),
            Token::Empty(name, attrs) => TokenV::Empty(name@, attrs.deep_view()),
            Token::Close(name) => TokenV::Close(name@),
            Token::Text(text) => TokenV::Text(text@),
            Token::Eof => TokenV::Eof,
            Token::Other => TokenV::Other,
        }
    }
}

impl DeepView for Token {
    type V = TokenV;

    open spec fn deep_view(&self) -> TokenV {
        self.view()
    }
}

/// quick_xml's reader, declared so its values can stand in signatures; it is
/// opaque here and modelled only through `pending_tokens`.
#[verifier::external_type_specification]
#[verifier::external_body]
#[verifier::reject_recursive_types(R)]
pub struct ExReader<R>(quick_xml::Reader<R>);

/// quick_xml's opening-tag event, declared so a wrapper can read its
/// attributes; opaque here.
#[verifier::external_type_specification]
#[verifier::external_body]
pub struct ExBytesStart<'a>(quick_xml::events::BytesStart<'a>);

/// The tokens a reader over `xml` yields, in order, up to the end of the
/// stream; the end itself is not a member.
pub uninterp spec fn tokens_of(xml: Seq<char>) -> Seq<TokenV>;

/// The tokens a reader has yet to yield.
pub uninterp spec fn pending_tokens(r: quick_xml::Reader<&[u8]>) -> Seq<TokenV>;

/// Relies on quick_xml's `Reader::from_str`, configured to trim text: the
/// sequence of events the reader will yield is a function of the document
/// text alone.
#[verifier::external_body]
pub(crate) fn xml_reader<'a>(xml: &'a str) -> (r: quick_xml::Reader<&'a [u8]>)
    ensures
        pending_tokens(r) == tokens_of(xml@),
{
    let mut reader = quick_xml::Reader::from_str(xml);
    reader.config_mut().trim_text(true);
    reader
}

/// Relies on `BytesStart::attributes` of quick_xml: the tag's attributes in
/// document order as (name, value) pairs; entries the tokenizer cannot parse
/// are dropped.
#[verifier::external_body]
fn attr_pairs(e: &quick_xml::events::BytesStart<'_>) -> (r: Vec<(String, String)>) {
    e.attributes().filter_map(|a| a.ok()).map(
        |a| (a.key.0.to_owned(), a.value.into_owned()),
    ).collect()
}

/// Relies on quick_xml's `Reader::read_event`: it yields the document's
/// markup events in order; once the document, or the first tokenizer error,
/// is reached, every further call reports the end of the stream.
#[verifier::external_body]
pub(crate) fn next_token(r: &mut quick_xml::Reader<&[u8]>) -> (t: Token)
    ensures
        pending_tokens(*old(r)).len() == 0 ==> t@ == TokenV::Eof && pending_tokens(*final(r))
            == pending_tokens(*old(r)),
        pending_tokens(*old(r)).len() > 0 ==> t@ == pending_tokens(*old(r))[0] && pending_tokens(
            *final(r),
        ) == pending_tokens(*old(r)).skip(1),
{
    match r.read_event() {
        Ok(quick_xml::events::Event::Start(e)) => Token::Open(e.name().0.to_owned(), attr_pairs(&e)),
        Ok(quick_xml::events::Event::Empty(e)) => Token::Empty(e.name().0.to_owned(), attr_pairs(&e)),
        Ok(quick_xml::events::Event::End(e)) => Token::Close(e.name().0.to_owned()),
        Ok(quick_xml::events::Event::Text(t)) => Token::Text(t.into_inner().into_owned()),
        Ok(quick_xml::events::Event::Eof) => Token::Eof,
        Ok(_) => Token::Other,
        Err(_) => Token::Eof,
    }
}

} // verus!
