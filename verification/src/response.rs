//! The responses of the proxy.

use crate::bytes::{append_bytes, copy_bytes, optional_bytes, text_bytes};
use crate::coordinate::RequestError;
use crate::status::{status_text, UpstreamStatus};
use vstd::prelude::*;

verus! {

/// Status of a response that carries a tile.
pub const STATUS_OK: u16 = 200;

/// Status of the answer to a request that names no tile.
pub const STATUS_BAD_REQUEST: u16 = 400;

/// Status of the answer where the disk tier has no file for the tile.
pub const STATUS_NOT_FOUND: u16 = 404;

/// Status of the answer where the upstream source could not be reached.
pub const STATUS_BAD_GATEWAY: u16 = 502;

/// The content type of a tile, unless upstream says otherwise.
pub const TILE_CONTENT_TYPE: &'static str = "image/jpeg";

/// Body of the answer to another method or path than `GET /tile/...`.
pub const UNSUPPORTED_ROUTE_MESSAGE: &'static str = "Only GET /tile/* supported";

/// Body of the answer to a tile path that names no coordinate.
pub const MALFORMED_PATH_MESSAGE: &'static str =
    "Invalid tile path. Expected format /tile/{z}/{x}/{y}";

/// Body of the answer where the disk tier has no file for the tile.
pub const TILE_MISSING_MESSAGE: &'static str = "Tile not found on volume";

/// Body of the answer where the upstream source could not be reached.
pub const FETCH_FAILED_MESSAGE: &'static str = "Failed to fetch tile";

/// What the body begins with where the upstream source refused; its status
/// follows.
pub const UPSTREAM_ERROR_PREFIX: &'static str = "Upstream error: ";

/// A response, ready to be sent.
#[derive(Debug, PartialEq, Eq)]
pub struct TileResponse {
    /// The status code.
    pub status: u16,
    /// The `content-type` header, if there is one.
    pub content_type: Option<Vec<u8>>,
    /// The `access-control-allow-origin` header, if there is one.
    pub allow_origin: Option<Vec<u8>>,
    /// The body.
    pub body: Vec<u8>,
}

/// What a `TileResponse` holds.
pub struct ResponseView {
    pub status: u16,
    pub content_type: Option<Seq<u8>>,
    pub allow_origin: Option<Seq<u8>>,
    pub body: Seq<u8>,
}

impl View for TileResponse {
    type V = ResponseView;

    open spec fn view(&self) -> ResponseView {
        ResponseView {
            status: self.status,
            content_type: optional_bytes(self.content_type),
            allow_origin: optional_bytes(self.allow_origin),
            body: self.body@,
        }
    }
}

/// A response that carries a tile.
pub open spec fn tile_response(
    allow_origin: Option<Seq<u8>>,
    content_type: Seq<u8>,
    tile: Seq<u8>,
) -> ResponseView {
    ResponseView { status: STATUS_OK, content_type: Some(content_type), allow_origin, body: tile }
}

/// A response that carries a message in place of a tile. It has no content
/// type.
pub open spec fn message_response(
    status: u16,
    allow_origin: Option<Seq<u8>>,
    message: Seq<u8>,
) -> ResponseView {
    ResponseView { status, content_type: None, allow_origin, body: message }
}

/// The answer to a request that names no tile: 400 either way, with a message
/// that tells the two errors apart.
pub open spec fn request_error_response(
    error: RequestError,
    allow_origin: Option<Seq<u8>>,
) -> ResponseView {
    match error {
        RequestError::UnsupportedRoute => message_response(
            STATUS_BAD_REQUEST,
            allow_origin,
            text_bytes(UNSUPPORTED_ROUTE_MESSAGE),
        ),
        RequestError::MalformedCoordinate => message_response(
            STATUS_BAD_REQUEST,
            allow_origin,
            text_bytes(MALFORMED_PATH_MESSAGE),
        ),
    }
}

/// The answer where the disk tier has no file for the tile.
pub open spec fn tile_missing_response(allow_origin: Option<Seq<u8>>) -> ResponseView {
    message_response(STATUS_NOT_FOUND, allow_origin, text_bytes(TILE_MISSING_MESSAGE))
}

/// The answer where the upstream source could not be reached.
pub open spec fn fetch_failed_response(allow_origin: Option<Seq<u8>>) -> ResponseView {
    message_response(STATUS_BAD_GATEWAY, allow_origin, text_bytes(FETCH_FAILED_MESSAGE))
}

/// The body that reports a status as upstream's refusal.
pub open spec fn upstream_error_text(status_text: Seq<u8>) -> Seq<u8> {
    text_bytes(UPSTREAM_ERROR_PREFIX) + status_text
}

/// The answer where the upstream source refused: its status, passed on.
pub open spec fn upstream_rejected_response(
    code: u16,
    allow_origin: Option<Seq<u8>>,
) -> ResponseView {
    message_response(code, allow_origin, upstream_error_text(status_text(code)))
}

impl TileResponse {
    /// Builds a response that carries a tile.
    pub fn tile(allow_origin: Option<Vec<u8>>, content_type: Vec<u8>, tile: Vec<u8>) -> (response:
        TileResponse)
        ensures
            response@ == tile_response(optional_bytes(allow_origin), content_type@, tile@),
    {
        TileResponse {
            status: STATUS_OK,
            content_type: Some(content_type),
            allow_origin,
            body: tile,
        }
    }

    /// Builds a response that carries a tile of the usual content type.
    pub fn jpeg_tile(allow_origin: Option<Vec<u8>>, tile: Vec<u8>) -> (response: TileResponse)
        ensures
            response@ == tile_response(
                optional_bytes(allow_origin),
                text_bytes(TILE_CONTENT_TYPE),
                tile@,
            ),
    {
        TileResponse::tile(allow_origin, copy_bytes(TILE_CONTENT_TYPE.as_bytes()), tile)
    }

    /// Builds a response that carries a message.
    pub fn message(status: u16, allow_origin: Option<Vec<u8>>, message: &[u8]) -> (response:
        TileResponse)
        ensures
            response@ == message_response(status, optional_bytes(allow_origin), message@),
    {
        TileResponse { status, content_type: None, allow_origin, body: copy_bytes(message) }
    }

    /// Builds the answer to a request that names no tile.
    pub fn request_error(error: RequestError, allow_origin: Option<Vec<u8>>) -> (response:
        TileResponse)
        ensures
            response@ == request_error_response(error, optional_bytes(allow_origin)),
    {
        match error {
            RequestError::UnsupportedRoute => TileResponse::message(
                STATUS_BAD_REQUEST,
                allow_origin,
                UNSUPPORTED_ROUTE_MESSAGE.as_bytes(),
            ),
            RequestError::MalformedCoordinate => TileResponse::message(
                STATUS_BAD_REQUEST,
                allow_origin,
                MALFORMED_PATH_MESSAGE.as_bytes(),
            ),
        }
    }

    /// Builds the answer where the disk tier has no file for the tile.
    pub fn tile_missing(allow_origin: Option<Vec<u8>>) -> (response: TileResponse)
        ensures
            response@ == tile_missing_response(optional_bytes(allow_origin)),
    {
        TileResponse::message(STATUS_NOT_FOUND, allow_origin, TILE_MISSING_MESSAGE.as_bytes())
    }

    /// Builds the answer where the upstream source could not be reached.
    pub fn fetch_failed(allow_origin: Option<Vec<u8>>) -> (response: TileResponse)
        ensures
            response@ == fetch_failed_response(optional_bytes(allow_origin)),
    {
        TileResponse::message(STATUS_BAD_GATEWAY, allow_origin, FETCH_FAILED_MESSAGE.as_bytes())
    }

    /// Builds the answer where the upstream source refused with `status`.
    pub fn upstream_rejected(status: UpstreamStatus, allow_origin: Option<Vec<u8>>) -> (response:
        TileResponse)
        ensures
            response@ == upstream_rejected_response(status@, optional_bytes(allow_origin)),
    {
        let described = status.describe();
        let body = upstream_error_body(described.as_slice());
        TileResponse { status: status.code(), content_type: None, allow_origin, body }
    }
}

/// Writes the body that reports `status_text` as upstream's refusal.
pub fn upstream_error_body(status_text: &[u8]) -> (body: Vec<u8>)
    ensures
        body@ == upstream_error_text(status_text@),
{
    let mut body = copy_bytes(UPSTREAM_ERROR_PREFIX.as_bytes());
    append_bytes(&mut body, status_text);
    body
}

} // verus!
