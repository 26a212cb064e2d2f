//! Turning an account's login settings into the descriptor of a connection.
use vstd::prelude::*;

use crate::error::ProfitReportError;

verus! {

/// What `std::str::from_utf8` makes of some bytes: the text they encode, or
/// `None` where they are not valid UTF-8.
pub uninterp spec fn utf8_decoded(bytes: Seq<u8>) -> Option<Seq<char>>;

/// What `str::trim` keeps of a text once the whitespace at both ends is gone.
pub uninterp spec fn trimmed(text: Seq<char>) -> Seq<char>;

/// Relies on `std::str::from_utf8`: the bytes read as UTF-8 text, or the
/// description of the decoding error.
#[verifier::external_body]
fn decode_utf8(bytes: &[u8]) -> (r: Result<&str, String>)
    ensures
        match r {
            Ok(text) => utf8_decoded(bytes@) == Some(text@),
            Err(_) => utf8_decoded(bytes@) is None,
        },
{
    match std::str::from_utf8(bytes) {
        Ok(text) => Ok(text),
        Err(e) => Err(e.to_string()),
    }
}

/// Relies on `str::trim`: the text without leading and trailing whitespace.
#[verifier::external_body]
fn trim(text: &str) -> (r: &str)
    ensures
        r@ == trimmed(text@),
{
    text.trim()
}

/// All that is needed to talk to a Kimai server as one user.
#[derive(Debug, Clone, PartialEq, Eq)]
pub struct Connection {
    pub host: String,
    pub user: String,
    pub password: String,
}

/// The secret held in the text that a secret lookup printed: the text with
/// surrounding whitespace (the final newline, notably) removed. An empty
/// secret is accepted as it is.
pub fn secret_from_text(text: &str) -> (r: String)
    ensures
        r@ == trimmed(text@),
{
    trim(text).to_owned()
}

/// The secret held in the raw output of a secret lookup, which must be UTF-8.
pub fn secret_from_output(output: &[u8]) -> (r: Result<String, ProfitReportError>)
    ensures
        match utf8_decoded(output@) {
            Some(text) => r matches Ok(s) && s@ == trimmed(text),
            None => r matches Err(ProfitReportError::Utf8(_)),
        },
{
    match decode_utf8(output) {
        Ok(text) => Ok(secret_from_text(text)),
        Err(e) => Err(ProfitReportError::Utf8(e)),
    }
}

} // verus!
