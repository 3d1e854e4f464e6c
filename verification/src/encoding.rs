//! Percent-encoding of parameter names and values, done by the
//! `urlencoding` crate behind two trusted wrappers. The encoded and
//! decoded texts are named by the uninterpreted functions `enc_of` and
//! `dec_of`; everything the rest of the crate proves about them follows
//! from the few facts stated here.

use vstd::prelude::*;

verus! {

/// A character that percent-encoding passes through unchanged: an ASCII
/// alphanumeric or one of '-', '.', '_', '~'.
pub open spec fn is_url_safe_char(c: char) -> bool {
    ('0' <= c && c <= '9') || ('A' <= c && c <= 'Z') || ('a' <= c && c <= 'z') || c == '-' || c
        == '.' || c == '_' || c == '~'
}

pub open spec fn all_url_safe(s: Seq<char>) -> bool {
    forall|i: int| 0 <= i < s.len() ==> is_url_safe_char(s[i])
}

/// What `urlencoding::encode` returns on a string: its percent-encoding.
pub uninterp spec fn enc_of(s: Seq<char>) -> Seq<char>;

/// What `urlencoding::decode` returns on a string: the percent-decoded
/// text, or `None` when the decoded bytes are not valid UTF-8.
pub uninterp spec fn dec_of(s: Seq<char>) -> Option<Seq<char>>;

/// The decoded text, with the empty string substituted when decoding fails.
pub open spec fn dec_or_empty(s: Seq<char>) -> Seq<char> {
    match dec_of(s) {
        Some(t) => t,
        None => Seq::empty(),
    }
}

/// Relies on urlencoding::encode: it percent-encodes every byte except the
/// ASCII alphanumerics and '-', '.', '_', '~'. So a string of safe
/// characters comes back unchanged, every character of the result is a
/// safe character or '%', and urlencoding::decode undoes the encoding.
#[verifier::external_body]
pub(crate) fn encode_component(s: &str) -> (r: String)
    ensures
        r@ == enc_of(s@),
        all_url_safe(s@) ==> r@ == s@,
        forall|i: int| 0 <= i < r@.len() ==> is_url_safe_char(r@[i]) || r@[i] == '%',
        dec_of(r@) == Some(s@),
{
    urlencoding::encode(s).into_owned()
}

/// Relies on urlencoding::decode: it resolves percent-escapes and fails
/// exactly when the resolved bytes are not valid UTF-8; a string without
/// '%' comes back unchanged.
#[verifier::external_body]
pub(crate) fn decode_component(s: &str) -> (r: Option<String>)
    ensures
        r.deep_view() == dec_of(s@),
        (forall|i: int| 0 <= i < s@.len() ==> s@[i] != '%') ==> r.deep_view() == Some(s@),
{
    match urlencoding::decode(s) {
        Ok(t) => Some(t.into_owned()),
        Err(_) => None,
    }
}

} // verus!
