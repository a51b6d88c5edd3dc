//! A verified mzML parser: a single-pass document walker over an XML token
//! stream, and a binary payload decoder that turns base64 text plus
//! compression and precision hints into numeric arrays.
//!
//! The walker's meaning is the spec state machine in `walker`; the decoder's
//! is the pipeline in `decode`.  The XML tokenizer and the base64, zlib and
//! MS-Numpress codecs are outside collaborators reached through trusted
//! wrappers; everything around them is proved.

use vstd::prelude::*;

pub mod attrs;
pub mod decode;
pub mod laws;
pub mod models;
pub mod walker;
pub mod xml;

verus! {

pub use models::BinaryDataArray;
pub use models::CvParam;
pub use models::DecodedArray;
pub use models::MzmlError;
pub use models::Run;
pub use models::Scan;
pub use models::ScanList;
pub use models::ScanWindow;
pub use models::Spectrum;
pub use decode::decode_binary_data;
pub use attrs::get_attr;
pub use attrs::get_attr_optional;
pub use walker::parse_tokens;
pub use xml::Token;

use walker::init_state;
use walker::parse_tokens_spec;
use walker::walk_from;
use xml::next_token;
use xml::pending_tokens;
use xml::tokens_of;
use xml::xml_reader;

/// Parse a complete mzML document into a `Run`: exactly the walk of the token
/// stream the tokenizer yields for it.
pub fn parse_mzml(xml_data: &str) -> (r: Result<Run, MzmlError>)
    ensures
        match parse_tokens_spec(tokens_of(xml_data@)) {
            Ok(rv) => r matches Ok(run) && run@ == rv,
            Err(e) => r matches Err(er) && er@ == e,
        },
{
    let ghost ts = tokens_of(xml_data@);
    let mut reader = xml_reader(xml_data);
    let mut ctx = walker::ParserContext::new();
    loop
        invariant
            ts == tokens_of(xml_data@),
            walk_from(ctx@, pending_tokens(reader)) == walk_from(init_state(), ts),
        decreases pending_tokens(reader).len(),
    {
        let ghost pend = pending_tokens(reader);
        let t = next_token(&mut reader);
        let is_eof = match &t {
            Token::Eof => true,
            _ => false,
        };
        if is_eof {
            proof {
                if pend.len() > 0 {
                    assert(pend[0] is Eof);
                }
            }
            return walker::finish_exec(ctx);
        }
        match walker::apply_token(&mut ctx, &t) {
            Ok(()) => {},
            Err(e) => {
                return Err(e);
            },
        }
    }
}

} // verus!
