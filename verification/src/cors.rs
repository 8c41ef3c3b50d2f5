//! Which origins may read responses from a browser.

use crate::bytes::{bytes_equal, copy_bytes, optional_bytes, text_bytes};
use vstd::prelude::*;

verus! {

/// The production site.
pub const ORIGIN_SITE: &'static str = "https://orbitalone.space";

/// The hosted frontend.
pub const ORIGIN_FRONTEND: &'static str = "https://orbitalone-frontend.vercel.app";

/// A frontend under development.
pub const ORIGIN_LOCAL: &'static str = "http://localhost:5173";

/// Whether `origin` is, byte for byte, one of the three allowed origins.
pub open spec fn is_allowed_origin(origin: Seq<u8>) -> bool {
    origin == text_bytes(ORIGIN_SITE) || origin == text_bytes(ORIGIN_FRONTEND) || origin
        == text_bytes(ORIGIN_LOCAL)
}

/// The value of `access-control-allow-origin` for a request with the given
/// `Origin` header: the origin itself where it is allowed, no header otherwise.
pub open spec fn cors_header(origin: Option<Seq<u8>>) -> Option<Seq<u8>> {
    match origin {
        Some(value) => if is_allowed_origin(value) {
            Some(value)
        } else {
            None
        },
        None => None,
    }
}

/// Checks `origin` against the allowed origins.
pub fn origin_allowed(origin: &[u8]) -> (allowed: bool)
    ensures
        allowed == is_allowed_origin(origin@),
{
    bytes_equal(origin, ORIGIN_SITE.as_bytes()) || bytes_equal(origin, ORIGIN_FRONTEND.as_bytes())
        || bytes_equal(origin, ORIGIN_LOCAL.as_bytes())
}

/// The `access-control-allow-origin` header that answers a request's `Origin`
/// header, if it gets one.
pub fn allow_origin_header(origin: &Option<Vec<u8>>) -> (header: Option<Vec<u8>>)
    ensures
        optional_bytes(header) == cors_header(optional_bytes(*origin)),
{
    match origin {
        Some(value) => {
            if origin_allowed(value.as_slice()) {
                Some(copy_bytes(value.as_slice()))
            } else {
                None
            }
        },
        None => None,
    }
}

/// The header is present exactly for the allowed origins, and then repeats
/// the request's origin.
pub proof fn lemma_cors_header_reflects_origin(origin: Option<Seq<u8>>)
    ensures
        cors_header(origin) is Some <==> origin is Some && is_allowed_origin(origin->0),
        cors_header(origin) is Some ==> cors_header(origin) == origin,
        origin is None ==> cors_header(origin) is None,
{
}

} // verus!
