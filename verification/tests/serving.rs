use std::collections::HashMap;
use tile_proxy::config::DiskCacheConfig;
use tile_proxy::coordinate::TileCoordinate;
use tile_proxy::orchestrator::{
    on_fetched, start, step, Action, Event, FetchOutcome, State, TileRequest,
};
use tile_proxy::response::TileResponse;
use tile_proxy::status::UpstreamStatus;

const JPEG: &[u8] = &[0xff, 0xd8, 0xff, 0xe0, 0x00, 0x10, b'J', b'F', b'I', b'F', 0xff, 0xd9];

struct Reply {
    status: u16,
    content_type: Option<Vec<u8>>,
    body: Vec<u8>,
}

struct Outside {
    disk: HashMap<Vec<u8>, Vec<u8>>,
    memory: HashMap<Vec<u8>, Vec<u8>>,
    upstream: HashMap<Vec<u8>, Reply>,
    reads: Vec<Vec<u8>>,
    lookups: Vec<Vec<u8>>,
    fetches: Vec<Vec<u8>>,
    stores: Vec<(Vec<u8>, Vec<u8>)>,
}

fn outside() -> Outside {
    Outside {
        disk: HashMap::new(),
        memory: HashMap::new(),
        upstream: HashMap::new(),
        reads: Vec::new(),
        lookups: Vec::new(),
        fetches: Vec::new(),
        stores: Vec::new(),
    }
}

fn request(method: &str, path: &str, origin: Option<&str>) -> TileRequest {
    TileRequest {
        method: method.as_bytes().to_vec(),
        path: path.as_bytes().to_vec(),
        origin: origin.map(|value| value.as_bytes().to_vec()),
    }
}

fn get(path: &str) -> TileRequest {
    request("GET", path, None)
}

fn disk_on() -> DiskCacheConfig {
    DiskCacheConfig::new(Some("/data/tiles"), true)
}

fn disk_off() -> DiskCacheConfig {
    DiskCacheConfig::new(Some("/data/tiles"), false)
}

fn upstream_address(zoom: u32, column: u32, row: u32) -> Vec<u8> {
    TileCoordinate { zoom, column, row }.upstream_url()
}

fn serve(world: &mut Outside, request: &TileRequest, config: &DiskCacheConfig) -> TileResponse {
    let (mut state, mut action) = start(request, config);
    loop {
        let event = match action {
            Action::Respond { response } => {
                assert!(matches!(state, State::Finished));
                return response;
            }
            Action::ReadDisk { path } => {
                let contents = world.disk.get(&path).cloned();
                world.reads.push(path);
                Event::DiskRead { contents }
            }
            Action::LookupMemory { key } => {
                let tile = world.memory.get(&key).cloned();
                world.lookups.push(key);
                Event::MemoryLookup { tile }
            }
            Action::FetchUpstream { url } => {
                let outcome = match world.upstream.get(&url) {
                    Some(reply) => FetchOutcome::Reply {
                        status: UpstreamStatus::from_u16(reply.status).unwrap(),
                        content_type: reply.content_type.clone(),
                        body: reply.body.clone(),
                    },
                    None => FetchOutcome::TransportError,
                };
                world.fetches.push(url);
                Event::UpstreamFetched { outcome }
            }
            Action::StoreMemory { key, tile } => {
                world.memory.insert(key.clone(), tile.clone());
                world.stores.push((key, tile));
                Event::MemoryStored
            }
        };
        let next = step(state, event).unwrap();
        state = next.0;
        action = next.1;
    }
}

#[test]
fn a_low_zoom_tile_is_served_from_its_file() {
    let mut world = outside();
    world.disk.insert(b"/data/tiles/3/2/5.jpg".to_vec(), JPEG.to_vec());
    let response = serve(&mut world, &get("/tile/3/5/2"), &disk_on());
    assert_eq!(response.status, 200);
    assert_eq!(response.content_type, Some(b"image/jpeg".to_vec()));
    assert_eq!(response.allow_origin, None);
    assert_eq!(response.body, JPEG.to_vec());
    assert_eq!(world.reads, vec![b"/data/tiles/3/2/5.jpg".to_vec()]);
    assert!(world.fetches.is_empty());
    assert!(world.lookups.is_empty());
    assert!(world.stores.is_empty());
}

#[test]
fn a_file_at_the_unswapped_place_is_not_found() {
    let mut world = outside();
    world.disk.insert(b"/data/tiles/3/5/2.jpg".to_vec(), JPEG.to_vec());
    let response = serve(&mut world, &get("/tile/3/5/2"), &disk_on());
    assert_eq!(response.status, 404);
}

#[test]
fn the_disk_tier_never_asks_upstream() {
    let mut world = outside();
    for zoom in 0..=8u32 {
        let tile = TileCoordinate { zoom, column: 1, row: 0 };
        world.disk.insert(tile.disk_path(b"/data/tiles"), vec![zoom as u8; 4]);
        world.upstream.insert(
            tile.upstream_url(),
            Reply { status: 200, content_type: None, body: b"from upstream".to_vec() },
        );
        world.memory.insert(tile.cache_key(), b"from memory".to_vec());
    }
    for zoom in 0..=8u32 {
        let response = serve(&mut world, &get(&format!("/tile/{}/1/0", zoom)), &disk_on());
        assert_eq!(response.status, 200);
        assert_eq!(response.body, vec![zoom as u8; 4]);
    }
    assert_eq!(world.reads.len(), 9);
    assert!(world.fetches.is_empty());
    assert!(world.lookups.is_empty());
}

#[test]
fn a_missing_low_zoom_tile_is_not_found() {
    let mut world = outside();
    world.memory.insert(b"3/5/2".to_vec(), b"stale".to_vec());
    world.upstream.insert(
        upstream_address(3, 5, 2),
        Reply { status: 200, content_type: None, body: JPEG.to_vec() },
    );
    let response = serve(&mut world, &get("/tile/3/5/2"), &disk_on());
    assert_eq!(response.status, 404);
    assert_eq!(response.content_type, None);
    assert_eq!(response.body, b"Tile not found on volume".to_vec());
    assert_eq!(world.reads, vec![b"/data/tiles/3/2/5.jpg".to_vec()]);
    assert!(world.lookups.is_empty());
    assert!(world.fetches.is_empty());
}

#[test]
fn a_miss_on_disk_leaves_the_memory_cache_alone() {
    let mut world = outside();
    let response = serve(&mut world, &get("/tile/8/1/2"), &disk_on());
    assert_eq!(response.status, 404);
    assert!(world.stores.is_empty());
    assert!(world.memory.is_empty());

    world.memory.insert(b"8/1/2".to_vec(), JPEG.to_vec());
    let response = serve(&mut world, &get("/tile/8/1/2"), &disk_on());
    assert_eq!(response.status, 404);
    assert!(world.stores.is_empty());
    assert_eq!(world.memory.get(&b"8/1/2".to_vec()), Some(&JPEG.to_vec()));
}

#[test]
fn a_miss_on_disk_is_answered_by_the_next_move() {
    let tile = TileCoordinate { zoom: 8, column: 1, row: 2 };
    let origin = Some(b"https://orbitalone.space".to_vec());
    assert_eq!(
        step(
            State::AwaitDisk { coordinate: tile, allow_origin: origin.clone() },
            Event::DiskRead { contents: None }
        ),
        Some((
            State::Finished,
            Action::Respond { response: TileResponse::tile_missing(origin) }
        ))
    );
}

#[test]
fn a_miss_on_disk_does_not_change_what_is_served_later() {
    let mut world = outside();
    world.upstream.insert(
        upstream_address(3, 5, 2),
        Reply { status: 200, content_type: None, body: JPEG.to_vec() },
    );
    let missing = serve(&mut world, &get("/tile/3/5/2"), &disk_on());
    assert_eq!(missing.status, 404);
    assert!(world.memory.is_empty());
    assert!(world.fetches.is_empty());

    let response = serve(&mut world, &get("/tile/3/5/2"), &disk_off());
    assert_eq!(response.status, 200);
    assert_eq!(response.content_type, Some(b"image/jpeg".to_vec()));
    assert_eq!(response.body, JPEG.to_vec());
    assert_eq!(world.fetches, vec![upstream_address(3, 5, 2)]);
    assert_eq!(world.memory.get(&b"3/5/2".to_vec()), Some(&JPEG.to_vec()));

    let again = serve(&mut world, &get("/tile/3/5/2"), &disk_off());
    assert_eq!(again.body, JPEG.to_vec());
    assert_eq!(world.fetches.len(), 1);
}

#[test]
fn after_a_miss_on_disk_the_upstream_source_decides() {
    let mut missed = outside();
    serve(&mut missed, &get("/tile/2/1/1"), &disk_on());
    serve(&mut missed, &get("/tile/2/1/0"), &disk_on());
    missed.upstream.insert(
        upstream_address(2, 1, 0),
        Reply { status: 404, content_type: None, body: Vec::new() },
    );
    let mut clean = outside();
    clean.upstream.insert(
        upstream_address(2, 1, 0),
        Reply { status: 404, content_type: None, body: Vec::new() },
    );
    for path in ["/tile/2/1/1", "/tile/2/1/0"] {
        let after_miss = serve(&mut missed, &get(path), &disk_off());
        let without = serve(&mut clean, &get(path), &disk_off());
        assert_eq!(after_miss, without);
    }
    assert_eq!(missed.fetches, clean.fetches);
    assert_eq!(missed.fetches.len(), 2);
    assert_eq!(missed.memory, clean.memory);
}

#[test]
fn whatever_the_cache_holds_is_served() {
    let tile = TileCoordinate { zoom: 12, column: 100, row: 200 };
    let waiting = || State::AwaitMemory { coordinate: tile, populate: true, allow_origin: None };
    for held in [Vec::new(), vec![0], JPEG.to_vec(), b"not an image".to_vec()] {
        assert_eq!(
            step(waiting(), Event::MemoryLookup { tile: Some(held.clone()) }),
            Some((
                State::Finished,
                Action::Respond { response: TileResponse::jpeg_tile(None, held) }
            ))
        );
    }
    assert_eq!(
        step(waiting(), Event::MemoryLookup { tile: None }),
        Some((
            State::AwaitUpstream { coordinate: tile, populate: true, allow_origin: None },
            Action::FetchUpstream { url: tile.upstream_url() },
        ))
    );
}

#[test]
fn an_empty_reply_is_cached_like_any_other() {
    let mut world = outside();
    world.upstream.insert(
        upstream_address(12, 7, 7),
        Reply { status: 200, content_type: None, body: Vec::new() },
    );
    let first = serve(&mut world, &get("/tile/12/7/7"), &disk_on());
    assert_eq!(first.status, 200);
    assert_eq!(first.content_type, Some(b"image/jpeg".to_vec()));
    assert_eq!(first.body, Vec::<u8>::new());
    assert_eq!(world.stores, vec![(b"12/7/7".to_vec(), Vec::new())]);
    let second = serve(&mut world, &get("/tile/12/7/7"), &disk_on());
    assert_eq!(second, first);
    assert_eq!(world.fetches.len(), 1);
    assert_eq!(world.stores.len(), 1);
}

#[test]
fn a_tile_spelled_otherwise_is_served_from_the_same_entry() {
    let mut world = outside();
    world.upstream.insert(
        upstream_address(12, 100, 200),
        Reply { status: 200, content_type: None, body: JPEG.to_vec() },
    );
    let first = serve(&mut world, &get("/tile/12/0100/200"), &disk_on());
    assert_eq!(first.status, 200);
    assert_eq!(first.body, JPEG.to_vec());
    assert_eq!(world.stores, vec![(b"12/100/200".to_vec(), JPEG.to_vec())]);
    for path in ["/tile/12/100/200", "/tile/+12/100/0200", "/tile/012/+100/+200"] {
        let response = serve(&mut world, &get(path), &disk_on());
        assert_eq!(response.status, 200);
        assert_eq!(response.content_type, Some(b"image/jpeg".to_vec()));
        assert_eq!(response.body, JPEG.to_vec());
    }
    assert_eq!(world.fetches.len(), 1);
    assert_eq!(world.stores.len(), 1);
}

#[test]
fn a_hit_in_memory_leaves_the_cache_as_it_was() {
    let mut world = outside();
    world.memory.insert(b"10/3/4".to_vec(), JPEG.to_vec());
    world.memory.insert(b"10/3/5".to_vec(), b"other".to_vec());
    let before = world.memory.clone();
    let response = serve(&mut world, &get("/tile/10/3/4"), &disk_on());
    assert_eq!(response, TileResponse::jpeg_tile(None, JPEG.to_vec()));
    assert_eq!(world.memory, before);
    assert!(world.stores.is_empty());
    assert!(world.fetches.is_empty());
    assert!(world.reads.is_empty());
}

#[test]
fn high_zoom_never_reads_a_file() {
    let mut world = outside();
    world.disk.insert(b"/data/tiles/9/2/5.jpg".to_vec(), b"on disk".to_vec());
    world.upstream.insert(
        upstream_address(9, 5, 2),
        Reply { status: 200, content_type: None, body: JPEG.to_vec() },
    );
    let response = serve(&mut world, &get("/tile/9/5/2"), &disk_on());
    assert_eq!(response.body, JPEG.to_vec());
    assert!(world.reads.is_empty());
    assert_eq!(world.lookups, vec![b"9/5/2".to_vec()]);
    assert_eq!(world.fetches.len(), 1);
}

#[test]
fn a_high_zoom_tile_is_fetched_and_then_served_from_memory() {
    let mut world = outside();
    world.upstream.insert(
        upstream_address(12, 100, 200),
        Reply { status: 200, content_type: Some(b"image/jpeg".to_vec()), body: JPEG.to_vec() },
    );
    let first = serve(&mut world, &get("/tile/12/100/200"), &disk_on());
    assert_eq!(first.status, 200);
    assert_eq!(first.content_type, Some(b"image/jpeg".to_vec()));
    assert_eq!(first.body, JPEG.to_vec());
    assert_eq!(world.fetches, vec![upstream_address(12, 100, 200)]);
    assert_eq!(
        world.fetches[0],
        b"https://tiles.maps.eox.at/wmts/1.0.0/s2cloudless-2024_3857/default/GoogleMapsCompatible/12/200/100.jpg"
            .to_vec()
    );
    assert_eq!(world.stores, vec![(b"12/100/200".to_vec(), JPEG.to_vec())]);

    let second = serve(&mut world, &get("/tile/12/100/200"), &disk_on());
    assert_eq!(second.status, 200);
    assert_eq!(second.content_type, Some(b"image/jpeg".to_vec()));
    assert_eq!(second.body, JPEG.to_vec());
    assert_eq!(world.fetches.len(), 1);
    assert_eq!(world.lookups, vec![b"12/100/200".to_vec(), b"12/100/200".to_vec()]);
    assert!(world.reads.is_empty());
}

#[test]
fn a_tile_is_fetched_again_once_the_cache_dropped_it() {
    let mut world = outside();
    world.upstream.insert(
        upstream_address(10, 1, 2),
        Reply { status: 200, content_type: None, body: JPEG.to_vec() },
    );
    serve(&mut world, &get("/tile/10/1/2"), &disk_off());
    world.memory.clear();
    let response = serve(&mut world, &get("/tile/10/1/2"), &disk_off());
    assert_eq!(response.body, JPEG.to_vec());
    assert_eq!(world.fetches.len(), 2);
}

#[test]
fn with_the_disk_tier_disabled_low_zoom_goes_to_memory_and_upstream() {
    let mut world = outside();
    world.disk.insert(b"/data/tiles/3/2/5.jpg".to_vec(), b"on disk".to_vec());
    world.upstream.insert(
        upstream_address(3, 5, 2),
        Reply { status: 200, content_type: None, body: JPEG.to_vec() },
    );
    for config in [disk_off(), DiskCacheConfig::new(None, true)] {
        let response = serve(&mut world, &get("/tile/3/5/2"), &config);
        assert_eq!(response.status, 200);
        assert_eq!(response.body, JPEG.to_vec());
    }
    assert!(world.reads.is_empty());
    assert_eq!(world.fetches.len(), 1);
    assert_eq!(world.stores, vec![(b"3/5/2".to_vec(), JPEG.to_vec())]);
}

#[test]
fn upstream_names_the_content_type() {
    let mut world = outside();
    world.upstream.insert(
        upstream_address(9, 0, 0),
        Reply { status: 200, content_type: Some(b"image/png".to_vec()), body: b"png".to_vec() },
    );
    world.upstream.insert(
        upstream_address(9, 0, 1),
        Reply { status: 200, content_type: None, body: b"jpg".to_vec() },
    );
    let named = serve(&mut world, &get("/tile/9/0/0"), &disk_on());
    assert_eq!(named.content_type, Some(b"image/png".to_vec()));
    let unnamed = serve(&mut world, &get("/tile/9/0/1"), &disk_on());
    assert_eq!(unnamed.content_type, Some(b"image/jpeg".to_vec()));
    let cached = serve(&mut world, &get("/tile/9/0/0"), &disk_on());
    assert_eq!(cached.content_type, Some(b"image/jpeg".to_vec()));
    assert_eq!(cached.body, b"png".to_vec());
}

#[test]
fn every_2xx_reply_is_served_as_200() {
    let mut world = outside();
    world.upstream.insert(
        upstream_address(9, 4, 4),
        Reply { status: 203, content_type: None, body: JPEG.to_vec() },
    );
    let response = serve(&mut world, &get("/tile/9/4/4"), &disk_on());
    assert_eq!(response.status, 200);
    assert_eq!(response.body, JPEG.to_vec());
    assert_eq!(world.stores.len(), 1);
}

#[test]
fn an_unreachable_upstream_is_a_bad_gateway() {
    let mut world = outside();
    let response = serve(&mut world, &get("/tile/12/1/1"), &disk_on());
    assert_eq!(response.status, 502);
    assert_eq!(response.content_type, None);
    assert_eq!(response.body, b"Failed to fetch tile".to_vec());
    assert_eq!(world.fetches.len(), 1);
    assert!(world.stores.is_empty());
}

#[test]
fn a_refusal_of_upstream_is_passed_on_and_not_cached() {
    let mut world = outside();
    world.upstream.insert(
        upstream_address(12, 1, 1),
        Reply { status: 404, content_type: Some(b"text/html".to_vec()), body: b"<html>".to_vec() },
    );
    world.upstream.insert(
        upstream_address(12, 1, 2),
        Reply { status: 503, content_type: None, body: Vec::new() },
    );
    world.upstream.insert(
        upstream_address(12, 1, 3),
        Reply { status: 301, content_type: None, body: Vec::new() },
    );
    world.upstream.insert(
        upstream_address(12, 1, 4),
        Reply { status: 799, content_type: None, body: Vec::new() },
    );
    let response = serve(&mut world, &get("/tile/12/1/1"), &disk_on());
    assert_eq!(response.status, 404);
    assert_eq!(response.content_type, None);
    assert_eq!(response.body, b"Upstream error: 404 Not Found".to_vec());
    let response = serve(&mut world, &get("/tile/12/1/2"), &disk_on());
    assert_eq!(response.status, 503);
    assert_eq!(response.body, b"Upstream error: 503 Service Unavailable".to_vec());
    let response = serve(&mut world, &get("/tile/12/1/3"), &disk_on());
    assert_eq!(response.status, 301);
    assert_eq!(response.body, b"Upstream error: 301 Moved Permanently".to_vec());
    let response = serve(&mut world, &get("/tile/12/1/4"), &disk_on());
    assert_eq!(response.status, 799);
    assert_eq!(response.body, b"Upstream error: 799 <unknown status code>".to_vec());
    assert!(world.stores.is_empty());
    assert!(world.memory.is_empty());

    serve(&mut world, &get("/tile/12/1/1"), &disk_on());
    assert_eq!(world.fetches.len(), 5);
}

#[test]
fn a_malformed_path_is_a_bad_request() {
    let mut world = outside();
    let response = serve(&mut world, &get("/tile/abc/1/2"), &disk_on());
    assert_eq!(response.status, 400);
    assert_eq!(response.content_type, None);
    assert_eq!(
        response.body,
        b"Invalid tile path. Expected format /tile/{z}/{x}/{y}".to_vec()
    );
    assert!(world.reads.is_empty() && world.lookups.is_empty() && world.fetches.is_empty());
}

#[test]
fn another_method_is_a_bad_request() {
    let mut world = outside();
    let response = serve(&mut world, &request("POST", "/tile/1/2/3", None), &disk_on());
    assert_eq!(response.status, 400);
    assert_eq!(response.content_type, None);
    assert_eq!(response.body, b"Only GET /tile/* supported".to_vec());
    assert!(world.reads.is_empty() && world.lookups.is_empty() && world.fetches.is_empty());
}

#[test]
fn another_path_is_a_bad_request() {
    let mut world = outside();
    for path in ["/", "/health", "/tiles/1/2/3", ""] {
        let response = serve(&mut world, &get(path), &disk_off());
        assert_eq!(response.status, 400);
        assert_eq!(response.body, b"Only GET /tile/* supported".to_vec());
    }
}

#[test]
fn serving_from_disk_twice_gives_the_same_bytes() {
    let mut world = outside();
    world.disk.insert(b"/data/tiles/5/9/7.jpg".to_vec(), JPEG.to_vec());
    let origin = Some("https://orbitalone.space");
    let first = serve(&mut world, &request("GET", "/tile/5/7/9", origin), &disk_on());
    world.memory.insert(b"5/7/9".to_vec(), b"other".to_vec());
    world.upstream.insert(
        upstream_address(5, 7, 9),
        Reply { status: 200, content_type: None, body: b"other".to_vec() },
    );
    let second = serve(&mut world, &request("GET", "/tile/5/7/9", origin), &disk_on());
    assert_eq!(first, second);
    assert_eq!(second.body, JPEG.to_vec());

    let missing_first = serve(&mut world, &get("/tile/5/0/0"), &disk_on());
    let missing_second = serve(&mut world, &get("/tile/5/0/0"), &disk_on());
    assert_eq!(missing_first, missing_second);
    assert_eq!(missing_second.status, 404);
}

#[test]
fn every_response_reflects_an_allowed_origin() {
    let allowed = [
        "https://orbitalone.space",
        "https://orbitalone-frontend.vercel.app",
        "http://localhost:5173",
    ];
    let refused = ["https://example.com", "http://orbitalone.space", "", "*"];
    let paths = [
        ("GET", "/tile/3/5/2"),
        ("GET", "/tile/3/0/0"),
        ("GET", "/tile/12/100/200"),
        ("GET", "/tile/12/100/200"),
        ("GET", "/tile/12/0/0"),
        ("GET", "/tile/12/0/1"),
        ("GET", "/tile/x/0/1"),
        ("POST", "/tile/1/2/3"),
    ];
    let statuses = [200u16, 404, 200, 200, 502, 500, 400, 400];
    for origin in allowed.iter().map(|o| Some(*o)).chain(refused.iter().map(|o| Some(*o))).chain([None]) {
        let mut world = outside();
        world.disk.insert(b"/data/tiles/3/2/5.jpg".to_vec(), JPEG.to_vec());
        world.upstream.insert(
            upstream_address(12, 100, 200),
            Reply { status: 200, content_type: None, body: JPEG.to_vec() },
        );
        world.upstream.insert(
            upstream_address(12, 0, 1),
            Reply { status: 500, content_type: None, body: Vec::new() },
        );
        for (index, (method, path)) in paths.iter().enumerate() {
            let response = serve(&mut world, &request(method, path, origin), &disk_on());
            assert_eq!(response.status, statuses[index]);
            let expected = match origin {
                Some(value) if allowed.contains(&value) => Some(value.as_bytes().to_vec()),
                _ => None,
            };
            assert_eq!(response.allow_origin, expected);
        }
    }
}

#[test]
fn start_picks_the_file_for_low_zoom() {
    let (state, action) = start(&get("/tile/8/3/4"), &DiskCacheConfig::new(Some("/vol"), true));
    assert!(matches!(
        state,
        State::AwaitDisk { coordinate: TileCoordinate { zoom: 8, column: 3, row: 4 }, allow_origin: None }
    ));
    assert_eq!(action, Action::ReadDisk { path: b"/vol/8/4/3.jpg".to_vec() });
}

#[test]
fn start_picks_the_cache_key_for_high_zoom() {
    let (state, action) = start(&get("/tile/9/3/4"), &disk_on());
    assert!(matches!(
        state,
        State::AwaitMemory {
            coordinate: TileCoordinate { zoom: 9, column: 3, row: 4 },
            populate: true,
            allow_origin: None
        }
    ));
    assert_eq!(action, Action::LookupMemory { key: b"9/3/4".to_vec() });
}

#[test]
fn the_cache_key_is_canonical() {
    let (_, action) = start(&get("/tile/+09/003/4"), &disk_on());
    assert_eq!(action, Action::LookupMemory { key: b"9/3/4".to_vec() });
}

#[test]
fn a_refused_request_is_answered_by_the_first_move() {
    let origin = Some("http://localhost:5173");
    let (state, action) = start(&request("PUT", "/tile/1/2/3", origin), &disk_on());
    assert_eq!(state, State::Finished);
    assert_eq!(
        action,
        Action::Respond {
            response: TileResponse {
                status: 400,
                content_type: None,
                allow_origin: Some(b"http://localhost:5173".to_vec()),
                body: b"Only GET /tile/* supported".to_vec(),
            }
        }
    );
}

#[test]
fn a_miss_in_memory_asks_upstream() {
    let tile = TileCoordinate { zoom: 12, column: 100, row: 200 };
    let next = step(
        State::AwaitMemory { coordinate: tile, populate: true, allow_origin: None },
        Event::MemoryLookup { tile: None },
    );
    assert_eq!(
        next,
        Some((
            State::AwaitUpstream { coordinate: tile, populate: true, allow_origin: None },
            Action::FetchUpstream { url: tile.upstream_url() }
        ))
    );
}

#[test]
fn an_event_that_was_not_awaited_gets_no_move() {
    let tile = TileCoordinate { zoom: 1, column: 2, row: 3 };
    assert!(step(State::Finished, Event::MemoryStored).is_none());
    assert!(step(State::Finished, Event::DiskRead { contents: None }).is_none());
    assert!(step(
        State::AwaitDisk { coordinate: tile, allow_origin: None },
        Event::MemoryLookup { tile: Some(JPEG.to_vec()) }
    )
    .is_none());
    assert!(step(
        State::AwaitDisk { coordinate: tile, allow_origin: None },
        Event::MemoryStored
    )
    .is_none());
    assert!(step(
        State::AwaitMemory { coordinate: tile, populate: true, allow_origin: None },
        Event::DiskRead { contents: Some(JPEG.to_vec()) }
    )
    .is_none());
    assert!(step(
        State::AwaitMemory { coordinate: tile, populate: true, allow_origin: None },
        Event::UpstreamFetched { outcome: FetchOutcome::TransportError }
    )
    .is_none());
    assert!(step(
        State::AwaitUpstream { coordinate: tile, populate: true, allow_origin: None },
        Event::MemoryLookup { tile: None }
    )
    .is_none());
    assert!(step(
        State::AwaitStore { response: TileResponse::tile_missing(None) },
        Event::DiskRead { contents: None }
    )
    .is_none());
}

#[test]
fn a_fetched_tile_is_not_stored_where_the_policy_says_so() {
    let tile = TileCoordinate { zoom: 4, column: 2, row: 3 };
    let reply = FetchOutcome::Reply {
        status: UpstreamStatus::from_u16(200).unwrap(),
        content_type: None,
        body: JPEG.to_vec(),
    };
    let (state, action) = on_fetched(tile, false, None, reply);
    assert!(matches!(state, State::Finished));
    match action {
        Action::Respond { response } => {
            assert_eq!(response, TileResponse::jpeg_tile(None, JPEG.to_vec()));
        }
        _ => panic!("expected the response"),
    }
}

#[test]
fn a_fetched_tile_is_stored_before_it_is_sent() {
    let tile = TileCoordinate { zoom: 14, column: 2, row: 3 };
    let reply = FetchOutcome::Reply {
        status: UpstreamStatus::from_u16(200).unwrap(),
        content_type: None,
        body: JPEG.to_vec(),
    };
    let origin = Some(b"http://localhost:5173".to_vec());
    let (state, action) = on_fetched(tile, true, origin.clone(), reply);
    match action {
        Action::StoreMemory { key, tile } => {
            assert_eq!(key, b"14/2/3".to_vec());
            assert_eq!(tile, JPEG.to_vec());
        }
        _ => panic!("expected a store"),
    }
    match step(state, Event::MemoryStored) {
        Some((State::Finished, Action::Respond { response })) => {
            assert_eq!(response, TileResponse::jpeg_tile(origin, JPEG.to_vec()));
        }
        _ => panic!("expected the response"),
    }
}

#[test]
fn the_responses_in_full() {
    assert_eq!(
        TileResponse::jpeg_tile(None, JPEG.to_vec()),
        TileResponse {
            status: 200,
            content_type: Some(b"image/jpeg".to_vec()),
            allow_origin: None,
            body: JPEG.to_vec()
        }
    );
    assert_eq!(
        TileResponse::tile(Some(b"o".to_vec()), b"image/webp".to_vec(), b"w".to_vec()),
        TileResponse {
            status: 200,
            content_type: Some(b"image/webp".to_vec()),
            allow_origin: Some(b"o".to_vec()),
            body: b"w".to_vec()
        }
    );
    assert_eq!(
        TileResponse::message(418, None, b"teapot"),
        TileResponse { status: 418, content_type: None, allow_origin: None, body: b"teapot".to_vec() }
    );
    assert_eq!(
        TileResponse::tile_missing(None),
        TileResponse {
            status: 404,
            content_type: None,
            allow_origin: None,
            body: b"Tile not found on volume".to_vec()
        }
    );
    assert_eq!(
        TileResponse::fetch_failed(Some(b"o".to_vec())),
        TileResponse {
            status: 502,
            content_type: None,
            allow_origin: Some(b"o".to_vec()),
            body: b"Failed to fetch tile".to_vec()
        }
    );
    assert_eq!(
        TileResponse::upstream_rejected(UpstreamStatus::from_u16(429).unwrap(), None),
        TileResponse {
            status: 429,
            content_type: None,
            allow_origin: None,
            body: b"Upstream error: 429 Too Many Requests".to_vec()
        }
    );
}
