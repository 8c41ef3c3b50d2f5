//! Status codes of upstream replies.

use crate::bytes::{append_bytes, text_bytes};
use crate::decimal::{append_decimal, decimal_text};
use hyper::StatusCode;
use vstd::prelude::*;

verus! {

/// ASCII space.
pub const ASCII_SPACE: u8 = 32;

/// What stands in for the reason phrase of a status code that has none.
pub const UNKNOWN_REASON: &'static str = "<unknown status code>";

/// The reason phrase that the `http` crate's `StatusCode::canonical_reason`
/// gives for the status code `code`, where `100 <= code <= 999`.
pub uninterp spec fn reason_phrase(code: u16) -> Option<Seq<u8>>;

/// Whether `code` can be the status code of an HTTP response.
pub open spec fn is_status_code(code: u16) -> bool {
    100 <= code <= 999
}

/// Whether `code` reports success.
pub open spec fn is_success_code(code: u16) -> bool {
    200 <= code < 300
}

/// A status code as text: the number, a space, and the reason phrase that
/// goes with it.
pub open spec fn status_text(code: u16) -> Seq<u8> {
    decimal_text(code as nat) + seq![ASCII_SPACE] + match reason_phrase(code) {
        Some(phrase) => phrase,
        None => text_bytes(UNKNOWN_REASON),
    }
}

/// Trusted: calls `StatusCode::canonical_reason` of the `http` crate, which
/// looks the code up in a fixed table. The code is made a `StatusCode` by
/// `StatusCode::from_u16` first, which takes the codes from 100 to 999: hence
/// the `requires`. The contract only gives the result its name; it claims
/// nothing about which phrase belongs to which code.
#[verifier::external_body]
fn canonical_reason(code: u16) -> (phrase: Option<Vec<u8>>)
    requires
        is_status_code(code),
    ensures
        match phrase {
            Some(text) => reason_phrase(code) == Some(text@),
            None => reason_phrase(code) is None,
        },
{
    match StatusCode::from_u16(code) {
        Ok(status) => status.canonical_reason().map(|text| text.as_bytes().to_vec()),
        Err(_) => None,
    }
}

/// The status code that the upstream source answered with.
#[derive(Clone, Copy, Debug, PartialEq, Eq)]
pub struct UpstreamStatus {
    code: u16,
}

impl View for UpstreamStatus {
    type V = u16;

    closed spec fn view(&self) -> u16 {
        self.code
    }
}

impl UpstreamStatus {
    #[verifier::type_invariant]
    spec fn in_range(self) -> bool {
        is_status_code(self.code)
    }

    /// Accepts the codes from 100 to 999 and no others.
    pub fn from_u16(code: u16) -> (status: Option<UpstreamStatus>)
        ensures
            status is Some <==> is_status_code(code),
            status is Some ==> status->0@ == code,
    {
        if 100 <= code && code <= 999 {
            Some(UpstreamStatus { code })
        } else {
            None
        }
    }

    /// The code as a number.
    pub fn code(&self) -> (code: u16)
        ensures
            code == self@,
            is_status_code(code),
    {
        proof {
            use_type_invariant(self);
        }
        self.code
    }

    /// Whether the code is one of the 2xx codes.
    pub fn is_success(&self) -> (success: bool)
        ensures
            success == is_success_code(self@),
    {
        200 <= self.code && self.code < 300
    }

    /// The code followed by its reason phrase, such as `404 Not Found`.
    pub fn describe(&self) -> (text: Vec<u8>)
        ensures
            text@ == status_text(self@),
    {
        let code = self.code();
        let phrase = canonical_reason(code);
        write_status_text(code, phrase)
    }
}

/// Writes a status code and the reason phrase found for it; a code without a
/// phrase gets a placeholder.
pub fn write_status_text(code: u16, phrase: Option<Vec<u8>>) -> (text: Vec<u8>)
    ensures
        text@ == decimal_text(code as nat) + seq![ASCII_SPACE] + match phrase {
            Some(reason) => reason@,
            None => text_bytes(UNKNOWN_REASON),
        },
{
    let mut text: Vec<u8> = Vec::new();
    append_decimal(&mut text, code as u32);
    text.push(ASCII_SPACE);
    match phrase {
        Some(reason) => append_bytes(&mut text, reason.as_slice()),
        None => append_bytes(&mut text, UNKNOWN_REASON.as_bytes()),
    }
    text
}

} // verus!
