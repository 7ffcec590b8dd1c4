//! The server-time header: how long the server took to answer, in
//! microseconds, written as `<n>us`.
use vstd::prelude::*;
use vstd::string::*;

use axum::http::header::InvalidHeaderValue;
use axum::http::HeaderValue;

use crate::decimal::{decimal, is_digit, lemma_decimal_is_digits, write_decimal};

verus! {

#[verifier::external_type_specification]
#[verifier::external_body]
pub struct ExHeaderValue(HeaderValue);

#[verifier::external_type_specification]
#[verifier::external_body]
pub struct ExInvalidHeaderValue(InvalidHeaderValue);

/// Whether a character may stand in a header value: a visible character,
/// a space or a tab (every byte of a non-ASCII character is allowed too).
pub open spec fn header_char_ok(c: char) -> bool {
    (c as int >= 32 && c as int != 127) || c == '\t'
}

/// Whether a text may be a header value.
pub open spec fn valid_header_text(s: Seq<char>) -> bool {
    forall|i: int| 0 <= i < s.len() ==> header_char_ok(#[trigger] s[i])
}

/// The text that a header value holds.
pub uninterp spec fn header_value_text(v: HeaderValue) -> Seq<char>;

/// `HeaderValue::from_str`: succeeds exactly when every byte of `s` is a
/// tab or at least 32 and not 127, which for a `str` means every character
/// passes `header_char_ok`; the value it builds holds the bytes of `s`, so
/// its text is `s`.
#[verifier::external_body]
fn parse_header_value(s: &str) -> (r: Result<HeaderValue, InvalidHeaderValue>)
    ensures
        r is Ok <==> valid_header_text(s@),
        r matches Ok(v) ==> header_value_text(v) == s@,
{
    HeaderValue::from_str(s)
}

/// A layer that adds the server-time header to every answer of the service
/// it wraps.
pub struct ServerTimeLayer;

/// A service wrapped by `ServerTimeLayer`.
pub struct ServerTimeMiddleware<S> {
    inner: S,
}

impl ServerTimeLayer {
    /// Wraps `inner`.
    pub fn layer<S>(&self, inner: S) -> (m: ServerTimeMiddleware<S>)
        ensures
            m.wrapped() == inner,
    {
        ServerTimeMiddleware { inner }
    }
}

impl<S> ServerTimeMiddleware<S> {
    /// The wrapped service.
    pub closed spec fn wrapped(&self) -> S {
        self.inner
    }

    /// Gives the wrapped service back.
    pub fn into_inner(self) -> (s: S)
        ensures
            s == self.wrapped(),
    {
        self.inner
    }
}

/// The text of the server-time header for an answer that took
/// `elapsed_micros` microseconds: the number in decimal, then `us`.
pub fn server_time_value(elapsed_micros: u128) -> (v: String)
    ensures
        v@ == decimal(elapsed_micros as nat) + "us"@,
{
    let mut v = String::new();
    write_decimal(&mut v, elapsed_micros);
    v.append("us");
    assert(v@ =~= decimal(elapsed_micros as nat) + "us"@);
    v
}

/// The server-time header for an answer that took `elapsed_micros`
/// microseconds: the number in decimal, then `us`. That text is always a
/// valid header value, so this never fails.
pub fn server_time_header(elapsed_micros: u128) -> (r: Result<HeaderValue, InvalidHeaderValue>)
    ensures
        r is Ok,
        r matches Ok(h) ==> header_value_text(h) == decimal(elapsed_micros as nat) + "us"@,
{
    let v = server_time_value(elapsed_micros);
    proof {
        reveal_strlit("us");
        let d = decimal(elapsed_micros as nat);
        lemma_decimal_is_digits(elapsed_micros as nat);
        assert forall|i: int| 0 <= i < v@.len() implies header_char_ok(#[trigger] v@[i]) by {
            if i < d.len() {
                assert(v@[i] == d[i]);
                assert(is_digit(d[i]));
            } else {
                assert(v@[i] == "us"@[i - d.len()]);
            }
        }
    }
    parse_header_value(v.as_str())
}

} // verus!
