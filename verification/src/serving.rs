//! A request served from its first move to its response, against a model of
//! what lies outside: the files on disk, the memory cache and the upstream
//! source. The model plays the caller's part, so that what the proxy does as
//! a whole can be stated and proved.

use crate::bytes::text_bytes;
use crate::config::DiskCacheSettings;
use crate::coordinate::{
    cache_key_text, disk_path_text, parse_request, upstream_url_text, RequestError,
    TileCoordinate,
};
use crate::cors::cors_header;
use crate::orchestrator::{
    first_move, next_move, ActionView, EventView, FetchOutcomeView, RequestView, StateView,
};
use crate::response::{
    fetch_failed_response, request_error_response, tile_missing_response, tile_response,
    upstream_rejected_response, ResponseView, STATUS_NOT_FOUND, STATUS_OK, TILE_CONTENT_TYPE,
};
use crate::router::{in_low_zoom_band, tier_plan, TierPlan};
use crate::status::is_success_code;
use vstd::prelude::*;

verus! {

/// What lies outside the proxy.
pub struct World {
    /// The files on disk, by path.
    pub disk: Map<Seq<u8>, Seq<u8>>,
    /// The entries that the memory cache holds, by key. The cache may drop an
    /// entry at any time, when it is full or the entry is an hour old; a
    /// `World` is what it holds at one moment.
    pub memory: Map<Seq<u8>, Seq<u8>>,
    /// What the upstream source replies, by address. An address that is not
    /// listed cannot be reached.
    pub upstream: Map<Seq<u8>, FetchOutcomeView>,
}

impl World {
    /// The contents of the file at `path`, if there is one.
    pub open spec fn file(self, path: Seq<u8>) -> Option<Seq<u8>> {
        if self.disk.contains_key(path) {
            Some(self.disk[path])
        } else {
            None
        }
    }

    /// The tile that the memory cache holds under `key`, if it holds one.
    pub open spec fn cached(self, key: Seq<u8>) -> Option<Seq<u8>> {
        if self.memory.contains_key(key) {
            Some(self.memory[key])
        } else {
            None
        }
    }

    /// How a fetch of `url` ends.
    pub open spec fn fetched(self, url: Seq<u8>) -> FetchOutcomeView {
        if self.upstream.contains_key(url) {
            self.upstream[url]
        } else {
            FetchOutcomeView::TransportError
        }
    }

    /// The world after `tile` was stored under `key` in the memory cache.
    pub open spec fn storing(self, key: Seq<u8>, tile: Seq<u8>) -> World {
        World { memory: self.memory.insert(key, tile), ..self }
    }
}

/// What the world reports back when `action` is carried out, and the world
/// after it. Only storing a tile changes the world. Sending the response is
/// the end: nothing is reported back for it.
pub open spec fn carry_out(world: World, action: ActionView) -> (Option<EventView>, World) {
    match action {
        ActionView::ReadDisk { path } => (
            Some(EventView::DiskRead { contents: world.file(path) }),
            world,
        ),
        ActionView::LookupMemory { key } => (
            Some(EventView::MemoryLookup { tile: world.cached(key) }),
            world,
        ),
        ActionView::FetchUpstream { url } => (
            Some(EventView::UpstreamFetched { outcome: world.fetched(url) }),
            world,
        ),
        ActionView::StoreMemory { key, tile } => (
            Some(EventView::MemoryStored),
            world.storing(key, tile),
        ),
        ActionView::Respond { response } => (None, world),
    }
}

/// A request that was served.
pub struct Served {
    /// Everything the proxy asked for, in order, the response included.
    pub actions: Seq<ActionView>,
    /// The response, if the request got that far.
    pub response: Option<ResponseView>,
    /// The world afterwards.
    pub world: World,
}

/// Carries out `action` and what follows from it, for at most `moves` more
/// moves.
pub open spec fn run(state: StateView, action: ActionView, world: World, moves: nat) -> Served
    decreases moves,
{
    let (event, after) = carry_out(world, action);
    let stopped = Served {
        actions: seq![action],
        response: match action {
            ActionView::Respond { response } => Some(response),
            _ => None,
        },
        world: after,
    };
    if event is Some && moves > 0 {
        match next_move(state, event->0) {
            Some((next_state, next_action)) => {
                let rest = run(next_state, next_action, after, (moves - 1) as nat);
                Served {
                    actions: seq![action] + rest.actions,
                    response: rest.response,
                    world: rest.world,
                }
            },
            None => stopped,
        }
    } else {
        stopped
    }
}

/// Serves `request` in `world`. No request takes more than four actions.
pub open spec fn serve(request: RequestView, config: DiskCacheSettings, world: World) -> Served {
    let (state, action) = first_move(request, config);
    run(state, action, world, 3)
}

/// Whether the upstream source was asked.
pub open spec fn asks_upstream(actions: Seq<ActionView>) -> bool {
    exists|i: int| 0 <= i < actions.len() && #[trigger] actions[i] is FetchUpstream
}

/// Whether the memory cache was asked for a tile.
pub open spec fn asks_memory(actions: Seq<ActionView>) -> bool {
    exists|i: int| 0 <= i < actions.len() && #[trigger] actions[i] is LookupMemory
}

/// How often the upstream source was asked.
pub open spec fn upstream_fetches(actions: Seq<ActionView>) -> nat
    decreases actions.len(),
{
    if actions.len() == 0 {
        0
    } else {
        upstream_fetches(actions.drop_last()) + if actions.last() is FetchUpstream {
            1nat
        } else {
            0nat
        }
    }
}

/// The tier that answers for `request`, if it names a tile.
pub open spec fn plan_of(request: RequestView, config: DiskCacheSettings) -> Option<TierPlan> {
    match parse_request(request.method, request.path) {
        Ok(coordinate) => Some(tier_plan(coordinate.zoom, config.enabled)),
        Err(_) => None,
    }
}

/// Every request gets a response, whatever the world holds. The response
/// carries `access-control-allow-origin` exactly where the request's origin
/// is allowed, and then repeats it. Serving never touches the files on disk.
pub proof fn lemma_every_request_is_answered(
    request: RequestView,
    config: DiskCacheSettings,
    world: World,
)
    ensures
        serve(request, config, world).response is Some,
        serve(request, config, world).response->0.allow_origin == cors_header(request.origin),
        serve(request, config, world).world.disk == world.disk,
        serve(request, config, world).world.upstream == world.upstream,
        serve(request, config, world).actions.len() <= 4,
{
    reveal_with_fuel(run, 4);
}

/// A request that names no tile is answered with 400 at once: nothing is
/// read, looked up or fetched.
pub proof fn lemma_bad_request_is_refused(
    request: RequestView,
    config: DiskCacheSettings,
    world: World,
)
    requires
        parse_request(request.method, request.path) is Err,
    ensures
        serve(request, config, world).response == Some(
            request_error_response(
                parse_request(request.method, request.path)->Err_0,
                cors_header(request.origin),
            ),
        ),
        serve(request, config, world).actions.len() == 1,
        serve(request, config, world).world == world,
{
    reveal_with_fuel(run, 4);
}

/// A low-zoom tile whose file is there is served from disk: the response is
/// the file, as a JPEG; neither the memory cache nor the upstream source is
/// asked, and nothing is stored.
pub proof fn lemma_disk_hit_is_served_from_disk(
    request: RequestView,
    config: DiskCacheSettings,
    world: World,
    coordinate: TileCoordinate,
)
    requires
        config.well_formed(),
        config.enabled,
        parse_request(request.method, request.path) == Ok::<TileCoordinate, RequestError>(
            coordinate,
        ),
        in_low_zoom_band(coordinate.zoom),
        world.file(disk_path_text(config.base_path->0, coordinate)) is Some,
    ensures
        ({
            let path = disk_path_text(config.base_path->0, coordinate);
            let served = serve(request, config, world);
            let response = tile_response(
                cors_header(request.origin),
                text_bytes(TILE_CONTENT_TYPE),
                world.file(path)->0,
            );
            &&& served.response == Some(response)
            &&& served.actions == seq![
                ActionView::ReadDisk { path },
                ActionView::Respond { response },
            ]
            &&& !asks_upstream(served.actions)
            &&& !asks_memory(served.actions)
            &&& upstream_fetches(served.actions) == 0
            &&& served.world == world
        }),
{
    reveal_with_fuel(run, 4);
    reveal_with_fuel(upstream_fetches, 4);
    let path = disk_path_text(config.base_path->0, coordinate);
    let response = tile_response(
        cors_header(request.origin),
        text_bytes(TILE_CONTENT_TYPE),
        world.file(path)->0,
    );
    let expected = seq![ActionView::ReadDisk { path }, ActionView::Respond { response }];
    assert(serve(request, config, world).actions =~= expected);
    lemma_two_actions(expected);
}

/// A low-zoom tile whose file is missing is a 404, and that is final:
/// neither the memory cache nor the upstream source is asked, and nothing is
/// stored. The miss leaves no trace, so it cannot change what is served later.
pub proof fn lemma_disk_miss_is_not_found(
    request: RequestView,
    config: DiskCacheSettings,
    world: World,
    coordinate: TileCoordinate,
)
    requires
        config.well_formed(),
        config.enabled,
        parse_request(request.method, request.path) == Ok::<TileCoordinate, RequestError>(
            coordinate,
        ),
        in_low_zoom_band(coordinate.zoom),
        world.file(disk_path_text(config.base_path->0, coordinate)) is None,
    ensures
        ({
            let path = disk_path_text(config.base_path->0, coordinate);
            let served = serve(request, config, world);
            let response = tile_missing_response(cors_header(request.origin));
            &&& served.response == Some(response)
            &&& response.status == STATUS_NOT_FOUND
            &&& served.actions == seq![
                ActionView::ReadDisk { path },
                ActionView::Respond { response },
            ]
            &&& !asks_upstream(served.actions)
            &&& !asks_memory(served.actions)
            &&& upstream_fetches(served.actions) == 0
            &&& served.world == world
        }),
{
    reveal_with_fuel(run, 4);
    let path = disk_path_text(config.base_path->0, coordinate);
    let response = tile_missing_response(cors_header(request.origin));
    let expected = seq![ActionView::ReadDisk { path }, ActionView::Respond { response }];
    assert(serve(request, config, world).actions =~= expected);
    lemma_two_actions(expected);
}

/// A tile that the memory cache holds is served from there, as a JPEG and
/// byte for byte, whatever it holds. The upstream source is not asked, and
/// the cache is left as it was.
pub proof fn lemma_memory_hit_is_served_from_memory(
    request: RequestView,
    config: DiskCacheSettings,
    world: World,
    coordinate: TileCoordinate,
)
    requires
        parse_request(request.method, request.path) == Ok::<TileCoordinate, RequestError>(
            coordinate,
        ),
        tier_plan(coordinate.zoom, config.enabled) == TierPlan::MemoryThenUpstream,
        world.cached(cache_key_text(coordinate)) is Some,
    ensures
        ({
            let key = cache_key_text(coordinate);
            let served = serve(request, config, world);
            let response = tile_response(
                cors_header(request.origin),
                text_bytes(TILE_CONTENT_TYPE),
                world.cached(key)->0,
            );
            &&& served.response == Some(response)
            &&& served.actions == seq![
                ActionView::LookupMemory { key },
                ActionView::Respond { response },
            ]
            &&& !asks_upstream(served.actions)
            &&& upstream_fetches(served.actions) == 0
            &&& served.world == world
        }),
{
    reveal_with_fuel(run, 4);
    let key = cache_key_text(coordinate);
    let response = tile_response(
        cors_header(request.origin),
        text_bytes(TILE_CONTENT_TYPE),
        world.cached(key)->0,
    );
    let expected = seq![ActionView::LookupMemory { key }, ActionView::Respond { response }];
    assert(serve(request, config, world).actions =~= expected);
    lemma_two_actions(expected);
}

/// A tile that the memory cache does not hold is fetched from upstream, once.
/// Without a reply the answer is 502. A reply outside the 2xx codes is passed
/// on and not cached. A 2xx reply is served with its bytes and stored in the
/// memory cache under the tile's key.
pub proof fn lemma_memory_miss_fetches_once(
    request: RequestView,
    config: DiskCacheSettings,
    world: World,
    coordinate: TileCoordinate,
)
    requires
        parse_request(request.method, request.path) == Ok::<TileCoordinate, RequestError>(
            coordinate,
        ),
        tier_plan(coordinate.zoom, config.enabled) == TierPlan::MemoryThenUpstream,
        world.cached(cache_key_text(coordinate)) is None,
    ensures
        ({
            let key = cache_key_text(coordinate);
            let url = upstream_url_text(coordinate);
            let allow_origin = cors_header(request.origin);
            let served = serve(request, config, world);
            &&& upstream_fetches(served.actions) == 1
            &&& served.actions[0] == ActionView::LookupMemory { key }
            &&& served.actions[1] == ActionView::FetchUpstream { url }
            &&& match world.fetched(url) {
                FetchOutcomeView::TransportError => {
                    &&& served.response == Some(fetch_failed_response(allow_origin))
                    &&& served.actions.len() == 3
                    &&& served.world == world
                },
                FetchOutcomeView::Reply { status, content_type, body } => if is_success_code(
                    status,
                ) {
                    let response = tile_response(
                        allow_origin,
                        match content_type {
                            Some(named) => named,
                            None => text_bytes(TILE_CONTENT_TYPE),
                        },
                        body,
                    );
                    &&& served.response == Some(response)
                    &&& response.status == STATUS_OK
                    &&& served.actions == seq![
                        ActionView::LookupMemory { key },
                        ActionView::FetchUpstream { url },
                        ActionView::StoreMemory { key, tile: body },
                        ActionView::Respond { response },
                    ]
                    &&& served.world == world.storing(key, body)
                } else {
                    &&& served.response == Some(upstream_rejected_response(status, allow_origin))
                    &&& served.actions.len() == 3
                    &&& served.world == world
                },
            }
        }),
{
    reveal_with_fuel(run, 4);
    let served = serve(request, config, world);
    if served.actions.len() == 3 {
        lemma_three_actions(served.actions);
    } else {
        lemma_four_actions(served.actions);
    }
}

/// A tile that was fetched is not fetched again while the memory cache holds
/// it. Of two requests that name the same tile, served one after the other,
/// the first asks the upstream source once and the second not at all; both
/// answer 200 with the same bytes, and the second leaves the cache as it
/// found it. The two need not spell the tile alike: the cache goes by the
/// coordinate, not by the text of the path.
pub proof fn lemma_repeated_request_is_served_from_memory(
    request: RequestView,
    again: RequestView,
    config: DiskCacheSettings,
    world: World,
    coordinate: TileCoordinate,
)
    requires
        parse_request(request.method, request.path) == Ok::<TileCoordinate, RequestError>(
            coordinate,
        ),
        parse_request(again.method, again.path) == Ok::<TileCoordinate, RequestError>(
            coordinate,
        ),
        tier_plan(coordinate.zoom, config.enabled) == TierPlan::MemoryThenUpstream,
        world.cached(cache_key_text(coordinate)) is None,
        world.fetched(upstream_url_text(coordinate)) is Reply,
        is_success_code(world.fetched(upstream_url_text(coordinate))->status),
    ensures
        ({
            let body = world.fetched(upstream_url_text(coordinate))->body;
            let first = serve(request, config, world);
            let second = serve(again, config, first.world);
            &&& first.response is Some
            &&& first.response->0.status == STATUS_OK
            &&& first.response->0.body == body
            &&& second.response == Some(
                tile_response(cors_header(again.origin), text_bytes(TILE_CONTENT_TYPE), body),
            )
            &&& upstream_fetches(first.actions) == 1
            &&& upstream_fetches(second.actions) == 0
            &&& !asks_upstream(second.actions)
            &&& second.world == first.world
        }),
{
    lemma_memory_miss_fetches_once(request, config, world, coordinate);
    let first = serve(request, config, world);
    assert(first.world.memory.contains_key(cache_key_text(coordinate)));
    lemma_memory_hit_is_served_from_memory(again, config, first.world, coordinate);
}

/// The upstream source is asked exactly where the memory tier answers for the
/// tile and the cache holds nothing under the tile's key, and then once. A
/// request that names no tile, one that the disk tier answers, and one whose
/// tile the cache holds never reach it.
pub proof fn lemma_upstream_is_asked_only_on_a_miss(
    request: RequestView,
    config: DiskCacheSettings,
    world: World,
)
    ensures
        ({
            let served = serve(request, config, world);
            let parsed = parse_request(request.method, request.path);
            let missed = plan_of(request, config) == Some(TierPlan::MemoryThenUpstream)
                && world.cached(cache_key_text(parsed->Ok_0)) is None;
            &&& asks_upstream(served.actions) <==> missed
            &&& upstream_fetches(served.actions) == if missed {
                1nat
            } else {
                0nat
            }
        }),
{
    reveal_with_fuel(run, 4);
    let served = serve(request, config, world);
    let parsed = parse_request(request.method, request.path);
    if parsed is Ok {
        let coordinate = parsed->Ok_0;
        if tier_plan(coordinate.zoom, config.enabled) == TierPlan::MemoryThenUpstream {
            if world.cached(cache_key_text(coordinate)) is None {
                lemma_memory_miss_fetches_once(request, config, world, coordinate);
                assert(served.actions[1] is FetchUpstream);
            } else {
                lemma_memory_hit_is_served_from_memory(request, config, world, coordinate);
            }
        } else {
            assert(served.actions.len() == 2);
            lemma_two_actions(served.actions);
        }
    } else {
        assert(served.actions.len() == 1);
        reveal_with_fuel(upstream_fetches, 2);
        assert(served.actions.drop_last().len() == 0);
    }
}

/// Where the disk tier answers, the response depends on nothing but the
/// request and the files on disk. So the same request, served again, gets the
/// same response byte for byte, whatever happened to the memory cache or the
/// upstream source in between. Serving it changes nothing outside, and asks
/// neither the memory cache nor the upstream source.
pub proof fn lemma_disk_tier_is_idempotent(
    request: RequestView,
    config: DiskCacheSettings,
    world: World,
    later: World,
)
    requires
        config.well_formed(),
        plan_of(request, config) == Some(TierPlan::DiskOnly),
        later.disk == world.disk,
    ensures
        serve(request, config, later).response == serve(request, config, world).response,
        serve(request, config, serve(request, config, world).world).response == serve(
            request,
            config,
            world,
        ).response,
        serve(request, config, world).world == world,
        !asks_upstream(serve(request, config, world).actions),
        !asks_memory(serve(request, config, world).actions),
{
    reveal_with_fuel(run, 4);
}

/// What two actions count for is what each of them counts for.
proof fn lemma_two_actions(actions: Seq<ActionView>)
    requires
        actions.len() == 2,
    ensures
        upstream_fetches(actions) == (if actions[0] is FetchUpstream {
            1nat
        } else {
            0nat
        }) + (if actions[1] is FetchUpstream {
            1nat
        } else {
            0nat
        }),
{
    reveal_with_fuel(upstream_fetches, 3);
    assert(actions.drop_last().drop_last().len() == 0);
    assert(actions.drop_last().last() == actions[0]);
}

/// What three actions count for is what each of them counts for.
proof fn lemma_three_actions(actions: Seq<ActionView>)
    requires
        actions.len() == 3,
    ensures
        upstream_fetches(actions) == (if actions[0] is FetchUpstream {
            1nat
        } else {
            0nat
        }) + (if actions[1] is FetchUpstream {
            1nat
        } else {
            0nat
        }) + (if actions[2] is FetchUpstream {
            1nat
        } else {
            0nat
        }),
{
    lemma_two_actions(actions.drop_last());
    assert(actions.drop_last()[0] == actions[0]);
    assert(actions.drop_last()[1] == actions[1]);
}

/// What four actions count for is what each of them counts for.
proof fn lemma_four_actions(actions: Seq<ActionView>)
    requires
        actions.len() == 4,
    ensures
        upstream_fetches(actions) == (if actions[0] is FetchUpstream {
            1nat
        } else {
            0nat
        }) + (if actions[1] is FetchUpstream {
            1nat
        } else {
            0nat
        }) + (if actions[2] is FetchUpstream {
            1nat
        } else {
            0nat
        }) + (if actions[3] is FetchUpstream {
            1nat
        } else {
            0nat
        }),
{
    lemma_three_actions(actions.drop_last());
    assert(actions.drop_last()[0] == actions[0]);
    assert(actions.drop_last()[1] == actions[1]);
    assert(actions.drop_last()[2] == actions[2]);
}

} // verus!
