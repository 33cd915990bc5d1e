//! Text conversions of the standard library that the decoders and the vehicle
//! lookup call.  Their results are named here; nothing in this crate proves
//! what the names compute.

use vstd::prelude::*;
use vstd::utf8::{decode_utf8, valid_utf8};

verus! {

/// The upper-case form of a text, as the standard library's Unicode tables give it.
pub uninterp spec fn uppercase_of(text: Seq<char>) -> Seq<char>;

/// A text without its leading and trailing white space.
pub uninterp spec fn trimmed_of(text: Seq<char>) -> Seq<char>;

/// Calls `str::to_uppercase`.  Trusted: the result is the upper-case form of
/// the argument, a function of the argument's characters alone.
#[verifier::external_body]
pub(crate) fn uppercase(text: &str) -> (r: String)
    ensures
        r@ == uppercase_of(text@),
{
    text.to_uppercase()
}

/// Calls `str::trim`.  Trusted: the result is the argument with leading and
/// trailing white space removed, a function of the argument's characters alone.
#[verifier::external_body]
pub(crate) fn trimmed(text: &str) -> (r: String)
    ensures
        r@ == trimmed_of(text@),
{
    text.trim().to_string()
}

/// Calls `String::from_utf8`.  Trusted: the conversion succeeds exactly on
/// well-formed UTF-8, and the text is then the decoding of the bytes.
#[verifier::external_body]
pub(crate) fn utf8_text(bytes: Vec<u8>) -> (r: Option<String>)
    ensures
        r is Some <==> valid_utf8(bytes@),
        r matches Some(text) ==> text@ == decode_utf8(bytes@),
{
    String::from_utf8(bytes).ok()
}

} // verus!
