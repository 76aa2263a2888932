//! The script that writes the HTML into the page, and its argument.

use vstd::prelude::*;

verus! {

/// The script that replaces the whole document by its first argument.
pub const INJECTION_SCRIPT: &'static str = "document.write(arguments[0]);";

/// The view of an encoded script argument, or of the reason there is none.
pub open spec fn argument_view(argument: Result<String, String>) -> Result<Seq<char>, Seq<char>> {
    match argument {
        Ok(text) => Ok(text@),
        Err(reason) => Err(reason@),
    }
}

/// What the JSON serializer makes of `text`: the JSON string literal that
/// stands for it, or the serializer's report of why there is none.
pub uninterp spec fn json_text(text: Seq<char>) -> Result<Seq<char>, Seq<char>>;

/// Encodes `text` as JSON with `serde_json::to_string`; a failure is given
/// as the text that the serializer's error displays.
///
/// Trusted: the result is [`json_text`] of the text, that is, encoding is a
/// function of the text alone. Nothing is claimed about the JSON itself, nor
/// that encoding succeeds.
#[verifier::external_body]
pub(crate) fn encode_json(text: &str) -> (encoded: Result<String, String>)
    ensures
        argument_view(encoded) == json_text(text@),
{
    match serde_json::to_string(text) {
        Ok(json) => Ok(json),
        Err(error) => Err(error.to_string()),
    }
}

} // verus!
