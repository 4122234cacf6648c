//! Trusted bindings to the outside crates that resolution leans on: URL
//! parsing and HTTP header-value validation.  Each contract states what the
//! named function's source shows; nothing else in the crate is taken on
//! trust.

use vstd::prelude::*;

verus! {

/// What `url::Url::parse` yields for a given string: its serialized form
/// when the string parses as an absolute URL, nothing otherwise.  The
/// outcome depends on the string alone.
pub uninterp spec fn url_parse(s: Seq<char>) -> Option<Seq<char>>;

/// Relies on `url::Url::parse`: success, and the parsed URL's
/// serialization (`Url::as_str`), are functions of the input string; a
/// relative reference or a string without a scheme is rejected.
#[verifier::external_body]
pub(crate) fn parse_url(s: &str) -> (r: Option<String>)
    ensures
        r is Some <==> url_parse(s@) is Some,
        r is Some ==> r->0@ == url_parse(s@)->0,
{
    match url::Url::parse(s) {
        Ok(u) => Some(String::from(u.as_str())),
        Err(_) => None,
    }
}

/// A character acceptable in an HTTP header value: horizontal tab, or
/// anything that is neither an ASCII control character nor delete.
pub open spec fn valid_header_value_char(c: char) -> bool {
    c == '\t' || (c as int >= 32 && c as int != 127)
}

/// Relies on `hyper::header::HeaderValue::from_str` (the `http` crate's
/// `HeaderValue`): it accepts a string exactly when every byte is 32
/// upward except delete, or a tab; over characters that is
/// [`valid_header_value_char`] at every position, since every byte of a
/// multi-byte character is 128 or more.
#[verifier::external_body]
pub(crate) fn header_value_ok(s: &str) -> (r: bool)
    ensures
        r <==> (forall|i: int| 0 <= i < s@.len() ==> valid_header_value_char(s@[i])),
{
    hyper::header::HeaderValue::from_str(s).is_ok()
}

} // verus!
