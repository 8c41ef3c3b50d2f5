//! The course of one request, step by step.
//!
//! Serving a tile takes work that this crate does not do: reading a file,
//! asking the memory cache, fetching from upstream. So a request is run as a
//! conversation. [`start`] looks at the request and says what to do first;
//! the caller does it and reports back with an [`Event`]; [`step`] says what
//! to do next, until the action is to send a response.

use crate::bytes::{copy_bytes, optional_bytes, text_bytes};
use crate::config::{DiskCacheConfig, DiskCacheSettings};
use crate::coordinate::{
    cache_key_text, disk_path_text, parse_request, parse_tile_request, upstream_url_text,
    TileCoordinate,
};
use crate::cors::{allow_origin_header, cors_header};
use crate::response::{
    fetch_failed_response, request_error_response, tile_missing_response, tile_response,
    upstream_rejected_response, ResponseView, TileResponse, TILE_CONTENT_TYPE,
};
use crate::router::{populates_memory, route, should_populate, tier_plan, TierPlan};
use crate::status::{is_success_code, UpstreamStatus};
use vstd::prelude::*;

verus! {

/// What the proxy reads of a request.
#[derive(Debug, PartialEq, Eq)]
pub struct TileRequest {
    /// The method, as sent.
    pub method: Vec<u8>,
    /// The path of the request target.
    pub path: Vec<u8>,
    /// The `Origin` header, if there is one.
    pub origin: Option<Vec<u8>>,
}

/// What a `TileRequest` holds.
pub struct RequestView {
    pub method: Seq<u8>,
    pub path: Seq<u8>,
    pub origin: Option<Seq<u8>>,
}

impl View for TileRequest {
    type V = RequestView;

    open spec fn view(&self) -> RequestView {
        RequestView {
            method: self.method@,
            path: self.path@,
            origin: optional_bytes(self.origin),
        }
    }
}

/// How an upstream fetch ended.
#[derive(Debug, PartialEq, Eq)]
pub enum FetchOutcome {
    /// No reply: the source could not be reached, or the reply did not arrive
    /// whole in time.
    TransportError,
    /// A reply, with its body read to the end.
    Reply { status: UpstreamStatus, content_type: Option<Vec<u8>>, body: Vec<u8> },
}

/// What a `FetchOutcome` holds.
pub enum FetchOutcomeView {
    TransportError,
    Reply { status: u16, content_type: Option<Seq<u8>>, body: Seq<u8> },
}

impl View for FetchOutcome {
    type V = FetchOutcomeView;

    open spec fn view(&self) -> FetchOutcomeView {
        match self {
            FetchOutcome::TransportError => FetchOutcomeView::TransportError,
            FetchOutcome::Reply { status, content_type, body } => FetchOutcomeView::Reply {
                status: status@,
                content_type: optional_bytes(*content_type),
                body: body@,
            },
        }
    }
}

/// What the caller is asked to do.
#[derive(Debug, PartialEq, Eq)]
pub enum Action {
    /// Read the file at `path`, once.
    ReadDisk { path: Vec<u8> },
    /// Look `key` up in the memory cache.
    LookupMemory { key: Vec<u8> },
    /// Fetch `url` from the upstream source.
    FetchUpstream { url: Vec<u8> },
    /// Store `tile` under `key` in the memory cache.
    StoreMemory { key: Vec<u8>, tile: Vec<u8> },
    /// Send `response`; the request is over.
    Respond { response: TileResponse },
}

/// What an `Action` holds.
pub enum ActionView {
    ReadDisk { path: Seq<u8> },
    LookupMemory { key: Seq<u8> },
    FetchUpstream { url: Seq<u8> },
    StoreMemory { key: Seq<u8>, tile: Seq<u8> },
    Respond { response: ResponseView },
}

impl View for Action {
    type V = ActionView;

    open spec fn view(&self) -> ActionView {
        match self {
            Action::ReadDisk { path } => ActionView::ReadDisk { path: path@ },
            Action::LookupMemory { key } => ActionView::LookupMemory { key: key@ },
            Action::FetchUpstream { url } => ActionView::FetchUpstream { url: url@ },
            Action::StoreMemory { key, tile } => ActionView::StoreMemory {
                key: key@,
                tile: tile@,
            },
            Action::Respond { response } => ActionView::Respond { response: response@ },
        }
    }
}

/// What the caller reports back.
#[derive(Debug, PartialEq, Eq)]
pub enum Event {
    /// The file was read: its contents, or `None` where it could not be read,
    /// whatever the reason.
    DiskRead { contents: Option<Vec<u8>> },
    /// The memory cache was asked: the tile it holds, or `None`.
    MemoryLookup { tile: Option<Vec<u8>> },
    /// The upstream fetch ended.
    UpstreamFetched { outcome: FetchOutcome },
    /// The tile was handed to the memory cache.
    MemoryStored,
}

/// What an `Event` holds.
pub enum EventView {
    DiskRead { contents: Option<Seq<u8>> },
    MemoryLookup { tile: Option<Seq<u8>> },
    UpstreamFetched { outcome: FetchOutcomeView },
    MemoryStored,
}

impl View for Event {
    type V = EventView;

    open spec fn view(&self) -> EventView {
        match self {
            Event::DiskRead { contents } => EventView::DiskRead {
                contents: optional_bytes(*contents),
            },
            Event::MemoryLookup { tile } => EventView::MemoryLookup { tile: optional_bytes(*tile) },
            Event::UpstreamFetched { outcome } => EventView::UpstreamFetched { outcome: outcome@ },
            Event::MemoryStored => EventView::MemoryStored,
        }
    }
}

/// Where a request stands: what it is waiting for, and what it needs to go on.
#[derive(Debug, PartialEq, Eq)]
pub enum State {
    /// Waiting for the tile's file to be read.
    AwaitDisk { coordinate: TileCoordinate, allow_origin: Option<Vec<u8>> },
    /// Waiting for the answer of the memory cache.
    AwaitMemory { coordinate: TileCoordinate, populate: bool, allow_origin: Option<Vec<u8>> },
    /// Waiting for the upstream fetch to end.
    AwaitUpstream { coordinate: TileCoordinate, populate: bool, allow_origin: Option<Vec<u8>> },
    /// Waiting for the memory cache to take a fetched tile; `response` goes
    /// out then.
    AwaitStore { response: TileResponse },
    /// The response was handed over.
    Finished,
}

/// What a `State` holds.
pub enum StateView {
    AwaitDisk { coordinate: TileCoordinate, allow_origin: Option<Seq<u8>> },
    AwaitMemory { coordinate: TileCoordinate, populate: bool, allow_origin: Option<Seq<u8>> },
    AwaitUpstream { coordinate: TileCoordinate, populate: bool, allow_origin: Option<Seq<u8>> },
    AwaitStore { response: ResponseView },
    Finished,
}

impl View for State {
    type V = StateView;

    open spec fn view(&self) -> StateView {
        match self {
            State::AwaitDisk { coordinate, allow_origin } => StateView::AwaitDisk {
                coordinate: *coordinate,
                allow_origin: optional_bytes(*allow_origin),
            },
            State::AwaitMemory { coordinate, populate, allow_origin } => StateView::AwaitMemory {
                coordinate: *coordinate,
                populate: *populate,
                allow_origin: optional_bytes(*allow_origin),
            },
            State::AwaitUpstream {
                coordinate,
                populate,
                allow_origin,
            } => StateView::AwaitUpstream {
                coordinate: *coordinate,
                populate: *populate,
                allow_origin: optional_bytes(*allow_origin),
            },
            State::AwaitStore { response } => StateView::AwaitStore { response: response@ },
            State::Finished => StateView::Finished,
        }
    }
}

/// The response that ends a request, after which nothing is awaited.
pub open spec fn finish(response: ResponseView) -> (StateView, ActionView) {
    (StateView::Finished, ActionView::Respond { response })
}

/// The first move for a request.
///
/// A request that names no tile is answered at once. Otherwise the tile's
/// zoom and the disk settings pick the tier: the disk tier is asked for the
/// tile's file, the memory tier for the tile's cache key.
pub open spec fn first_move(request: RequestView, config: DiskCacheSettings) -> (
    StateView,
    ActionView,
) {
    let allow_origin = cors_header(request.origin);
    match parse_request(request.method, request.path) {
        Err(error) => finish(request_error_response(error, allow_origin)),
        Ok(coordinate) => match tier_plan(coordinate.zoom, config.enabled) {
            TierPlan::DiskOnly => (
                StateView::AwaitDisk { coordinate, allow_origin },
                ActionView::ReadDisk { path: disk_path_text(config.base_path->0, coordinate) },
            ),
            TierPlan::MemoryThenUpstream => (
                StateView::AwaitMemory {
                    coordinate,
                    populate: populates_memory(coordinate.zoom, config.enabled),
                    allow_origin,
                },
                ActionView::LookupMemory { key: cache_key_text(coordinate) },
            ),
        },
    }
}

/// The move that follows the end of an upstream fetch.
///
/// No reply is a gateway failure. A reply outside the 2xx codes is passed on
/// with its status and cached nowhere. A 2xx reply is served with its content
/// type, or as a JPEG where it names none, and stored first where `populate`
/// says so.
pub open spec fn after_fetch(
    coordinate: TileCoordinate,
    populate: bool,
    allow_origin: Option<Seq<u8>>,
    outcome: FetchOutcomeView,
) -> (StateView, ActionView) {
    match outcome {
        FetchOutcomeView::TransportError => finish(fetch_failed_response(allow_origin)),
        FetchOutcomeView::Reply { status, content_type, body } => {
            if !is_success_code(status) {
                finish(upstream_rejected_response(status, allow_origin))
            } else {
                let response = tile_response(
                    allow_origin,
                    match content_type {
                        Some(named) => named,
                        None => text_bytes(TILE_CONTENT_TYPE),
                    },
                    body,
                );
                if populate {
                    (
                        StateView::AwaitStore { response },
                        ActionView::StoreMemory { key: cache_key_text(coordinate), tile: body },
                    )
                } else {
                    finish(response)
                }
            }
        },
    }
}

/// The move that follows `event` in `state`, or `None` where `event` is not
/// what `state` waits for.
///
/// A file that was read is served; one that could not be read makes a 404,
/// at once and with nothing stored anywhere. An entry found in memory is
/// served as the tile, whatever bytes it holds; where none is found, the tile
/// is fetched from upstream.
pub open spec fn next_move(state: StateView, event: EventView) -> Option<(StateView, ActionView)> {
    match (state, event) {
        (
            StateView::AwaitDisk { allow_origin, .. },
            EventView::DiskRead { contents },
        ) => match contents {
            Some(tile) => Some(
                finish(tile_response(allow_origin, text_bytes(TILE_CONTENT_TYPE), tile)),
            ),
            None => Some(finish(tile_missing_response(allow_origin))),
        },
        (
            StateView::AwaitMemory { coordinate, populate, allow_origin },
            EventView::MemoryLookup { tile },
        ) => match tile {
            Some(cached) => Some(
                finish(tile_response(allow_origin, text_bytes(TILE_CONTENT_TYPE), cached)),
            ),
            None => Some(
                (
                    StateView::AwaitUpstream { coordinate, populate, allow_origin },
                    ActionView::FetchUpstream { url: upstream_url_text(coordinate) },
                ),
            ),
        },
        (
            StateView::AwaitUpstream { coordinate, populate, allow_origin },
            EventView::UpstreamFetched { outcome },
        ) => Some(after_fetch(coordinate, populate, allow_origin, outcome)),
        (StateView::AwaitStore { response }, EventView::MemoryStored) => Some(finish(response)),
        _ => None,
    }
}

/// Decides the first move for `request`.
pub fn start(request: &TileRequest, config: &DiskCacheConfig) -> (first: (State, Action))
    ensures
        (first.0@, first.1@) == first_move(request@, config@),
{
    let allow_origin = allow_origin_header(&request.origin);
    match parse_tile_request(request.method.as_slice(), request.path.as_slice()) {
        Err(error) => (
            State::Finished,
            Action::Respond { response: TileResponse::request_error(error, allow_origin) },
        ),
        Ok(coordinate) => {
            let enabled = config.enabled();
            let base_path = config.base_path();
            match (route(coordinate.zoom, enabled), base_path) {
                (TierPlan::DiskOnly, Some(base)) => (
                    State::AwaitDisk { coordinate, allow_origin },
                    Action::ReadDisk { path: coordinate.disk_path(base) },
                ),
                _ => (
                    State::AwaitMemory {
                        coordinate,
                        populate: should_populate(coordinate.zoom, enabled),
                        allow_origin,
                    },
                    Action::LookupMemory { key: coordinate.cache_key() },
                ),
            }
        },
    }
}

/// Decides the move that follows the end of an upstream fetch.
pub fn on_fetched(
    coordinate: TileCoordinate,
    populate: bool,
    allow_origin: Option<Vec<u8>>,
    outcome: FetchOutcome,
) -> (next: (State, Action))
    ensures
        (next.0@, next.1@) == after_fetch(
            coordinate,
            populate,
            optional_bytes(allow_origin),
            outcome@,
        ),
{
    match outcome {
        FetchOutcome::TransportError => (
            State::Finished,
            Action::Respond { response: TileResponse::fetch_failed(allow_origin) },
        ),
        FetchOutcome::Reply { status, content_type, body } => {
            if !status.is_success() {
                (
                    State::Finished,
                    Action::Respond {
                        response: TileResponse::upstream_rejected(status, allow_origin),
                    },
                )
            } else {
                let content_type = match content_type {
                    Some(named) => named,
                    None => copy_bytes(TILE_CONTENT_TYPE.as_bytes()),
                };
                if populate {
                    let tile = copy_bytes(body.as_slice());
                    let response = TileResponse::tile(allow_origin, content_type, body);
                    (
                        State::AwaitStore { response },
                        Action::StoreMemory { key: coordinate.cache_key(), tile },
                    )
                } else {
                    let response = TileResponse::tile(allow_origin, content_type, body);
                    (State::Finished, Action::Respond { response })
                }
            }
        },
    }
}

/// Decides the move that follows `event` in `state`. Returns `None` where
/// `event` does not answer what `state` waits for.
pub fn step(state: State, event: Event) -> (next: Option<(State, Action)>)
    ensures
        match next {
            Some((state_after, action)) => next_move(state@, event@) == Some(
                (state_after@, action@),
            ),
            None => next_move(state@, event@) is None,
        },
{
    match (state, event) {
        (State::AwaitDisk { allow_origin, .. }, Event::DiskRead { contents }) => {
            match contents {
                Some(tile) => Some(
                    (
                        State::Finished,
                        Action::Respond { response: TileResponse::jpeg_tile(allow_origin, tile) },
                    ),
                ),
                None => Some(
                    (
                        State::Finished,
                        Action::Respond { response: TileResponse::tile_missing(allow_origin) },
                    ),
                ),
            }
        },
        (
            State::AwaitMemory { coordinate, populate, allow_origin },
            Event::MemoryLookup { tile },
        ) => {
            match tile {
                Some(cached) => Some(
                    (
                        State::Finished,
                        Action::Respond {
                            response: TileResponse::jpeg_tile(allow_origin, cached),
                        },
                    ),
                ),
                None => Some(
                    (
                        State::AwaitUpstream { coordinate, populate, allow_origin },
                        Action::FetchUpstream { url: coordinate.upstream_url() },
                    ),
                ),
            }
        },
        (
            State::AwaitUpstream { coordinate, populate, allow_origin },
            Event::UpstreamFetched { outcome },
        ) => Some(on_fetched(coordinate, populate, allow_origin, outcome)),
        (State::AwaitStore { response }, Event::MemoryStored) => Some(
            (State::Finished, Action::Respond { response }),
        ),
        _ => None,
    }
}

} // verus!
