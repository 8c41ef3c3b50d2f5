//! Tile coordinates: how a request names one, and the names a tile goes by in
//! the cache, on disk and upstream.

use crate::bytes::{append_bytes, bytes_equal, starts_with, text_bytes};
use crate::decimal::{
    append_decimal, decimal_text, is_digit, lemma_decimal_text_digits, lemma_parse_decimal_text,
    parse_decimal, parse_u32,
};
use vstd::prelude::*;
use vstd::slice::slice_subrange;

verus! {

/// ASCII `/`, which separates the parts of a path.
pub const ASCII_SLASH: u8 = 47;

/// The only method that is served.
pub const TILE_METHOD: &'static str = "GET";

/// What every tile path begins with.
pub const TILE_ROUTE_PREFIX: &'static str = "/tile/";

/// Where the upstream source keeps its tiles; the tile's own part follows.
pub const UPSTREAM_TILE_ROOT: &'static str =
    "https://tiles.maps.eox.at/wmts/1.0.0/s2cloudless-2024_3857/default/GoogleMapsCompatible/";

/// What a tile's file name ends with, on disk and upstream.
pub const TILE_FILE_SUFFIX: &'static str = ".jpg";

/// One cell of the tiling scheme, as the client names it.
#[derive(Clone, Copy, Debug, PartialEq, Eq, Structural)]
pub struct TileCoordinate {
    pub zoom: u32,
    pub column: u32,
    pub row: u32,
}

/// Why a request names no tile.
#[derive(Clone, Copy, Debug, PartialEq, Eq, Structural)]
pub enum RequestError {
    /// The method is not `GET`, or the path does not begin with `/tile/`.
    UnsupportedRoute,
    /// What follows `/tile/` is not three integers separated by `/`.
    MalformedCoordinate,
}

/// The pieces of `text` between occurrences of `separator`. There is always
/// one piece more than there are separators, so empty text is one empty piece.
pub open spec fn split_on(text: Seq<u8>, separator: u8) -> Seq<Seq<u8>>
    decreases text.len(),
{
    if text.len() == 0 {
        seq![Seq::<u8>::empty()]
    } else {
        let before = split_on(text.drop_last(), separator);
        if text.last() == separator {
            before.push(Seq::<u8>::empty())
        } else {
            before.drop_last().push(before.last().push(text.last()))
        }
    }
}

/// The tile that `rest` names: exactly three pieces between slashes, each an
/// integer, in the order zoom, column, row.
pub open spec fn coordinate_of(rest: Seq<u8>) -> Option<TileCoordinate> {
    let pieces = split_on(rest, ASCII_SLASH);
    if pieces.len() == 3 && parse_decimal(pieces[0]) is Some && parse_decimal(pieces[1]) is Some
        && parse_decimal(pieces[2]) is Some {
        Some(
            TileCoordinate {
                zoom: parse_decimal(pieces[0])->0,
                column: parse_decimal(pieces[1])->0,
                row: parse_decimal(pieces[2])->0,
            },
        )
    } else {
        None
    }
}

/// Whether method and path are those of a tile request at all.
pub open spec fn is_tile_route(method: Seq<u8>, path: Seq<u8>) -> bool {
    method == text_bytes(TILE_METHOD) && text_bytes(TILE_ROUTE_PREFIX).is_prefix_of(path)
}

/// The tile that a request asks for, or why it asks for none.
pub open spec fn parse_request(method: Seq<u8>, path: Seq<u8>) -> Result<
    TileCoordinate,
    RequestError,
> {
    if !is_tile_route(method, path) {
        Err(RequestError::UnsupportedRoute)
    } else {
        let rest = path.subrange(text_bytes(TILE_ROUTE_PREFIX).len() as int, path.len() as int);
        match coordinate_of(rest) {
            Some(coordinate) => Ok(coordinate),
            None => Err(RequestError::MalformedCoordinate),
        }
    }
}

/// The key of a tile in the memory cache: `zoom/column/row`.
pub open spec fn cache_key_text(coordinate: TileCoordinate) -> Seq<u8> {
    decimal_text(coordinate.zoom as nat) + seq![ASCII_SLASH] + decimal_text(
        coordinate.column as nat,
    ) + seq![ASCII_SLASH] + decimal_text(coordinate.row as nat)
}

/// The name of a tile's file: `zoom/row/column.jpg`. Disk and upstream both
/// put the row before the column, the other way round than the client does.
pub open spec fn tile_file_text(coordinate: TileCoordinate) -> Seq<u8> {
    decimal_text(coordinate.zoom as nat) + seq![ASCII_SLASH] + decimal_text(coordinate.row as nat)
        + seq![ASCII_SLASH] + decimal_text(coordinate.column as nat) + text_bytes(
        TILE_FILE_SUFFIX,
    )
}

/// The address of a tile at the upstream source.
pub open spec fn upstream_url_text(coordinate: TileCoordinate) -> Seq<u8> {
    text_bytes(UPSTREAM_TILE_ROOT) + tile_file_text(coordinate)
}

/// The path of a tile's file below the directory `base`.
pub open spec fn disk_path_text(base: Seq<u8>, coordinate: TileCoordinate) -> Seq<u8> {
    base + seq![ASCII_SLASH] + tile_file_text(coordinate)
}

/// Whether `separator` occurs nowhere in `text`.
pub open spec fn free_of(text: Seq<u8>, separator: u8) -> bool {
    forall|i: int| 0 <= i < text.len() ==> #[trigger] text[i] != separator
}

/// Splitting gives at least one piece, and no piece holds the separator.
pub proof fn lemma_split_pieces(text: Seq<u8>, separator: u8)
    ensures
        split_on(text, separator).len() >= 1,
        forall|k: int|
            0 <= k < split_on(text, separator).len() ==> free_of(
                #[trigger] split_on(text, separator)[k],
                separator,
            ),
    decreases text.len(),
{
    if text.len() > 0 {
        lemma_split_pieces(text.drop_last(), separator);
    }
}

/// The pieces put together again, with `separator` between them.
pub open spec fn joined(pieces: Seq<Seq<u8>>, separator: u8) -> Seq<u8>
    decreases pieces.len(),
{
    if pieces.len() == 0 {
        Seq::<u8>::empty()
    } else if pieces.len() == 1 {
        pieces[0]
    } else {
        joined(pieces.drop_last(), separator).push(separator) + pieces.last()
    }
}

/// Splitting loses nothing: the pieces, joined, are the text that was split.
pub proof fn lemma_split_joins_back(text: Seq<u8>, separator: u8)
    ensures
        joined(split_on(text, separator), separator) == text,
    decreases text.len(),
{
    if text.len() > 0 {
        let shorter = text.drop_last();
        let before = split_on(shorter, separator);
        let pieces = split_on(text, separator);
        lemma_split_joins_back(shorter, separator);
        lemma_split_pieces(shorter, separator);
        assert(shorter.push(text.last()) =~= text);
        if text.last() == separator {
            assert(pieces.drop_last() =~= before);
            assert(joined(before, separator).push(separator) + Seq::<u8>::empty() =~= text);
        } else if before.len() == 1 {
            assert(joined(pieces, separator) =~= text);
        } else {
            assert(pieces.drop_last() =~= before.drop_last());
            assert(joined(before.drop_last(), separator).push(separator) + before.last().push(
                text.last(),
            ) =~= text);
        }
    }
}

/// Text appended without a separator in it only lengthens the last piece.
pub proof fn lemma_split_append(text: Seq<u8>, tail: Seq<u8>, separator: u8)
    requires
        free_of(tail, separator),
    ensures
        split_on(text + tail, separator) == split_on(text, separator).drop_last().push(
            split_on(text, separator).last() + tail,
        ),
    decreases tail.len(),
{
    let pieces = split_on(text, separator);
    lemma_split_pieces(text, separator);
    if tail.len() == 0 {
        assert(text + tail =~= text);
        assert(pieces.last() + tail =~= pieces.last());
        assert(pieces.drop_last().push(pieces.last()) =~= pieces);
    } else {
        let shorter = tail.drop_last();
        assert(free_of(shorter, separator)) by {
            assert forall|i: int| 0 <= i < shorter.len() implies #[trigger] shorter[i]
                != separator by {
                assert(shorter[i] == tail[i]);
            }
        }
        lemma_split_append(text, shorter, separator);
        assert((text + tail).drop_last() =~= text + shorter);
        assert((text + tail).last() == tail.last());
        assert(tail.last() == tail[tail.len() - 1]);
        let before = split_on(text + shorter, separator);
        assert(before.drop_last() =~= pieces.drop_last());
        assert(before.last().push(tail.last()) =~= pieces.last() + tail);
    }
}

/// A separator at the end opens a new, empty piece.
pub proof fn lemma_split_separator(text: Seq<u8>, separator: u8)
    ensures
        split_on(text.push(separator), separator) == split_on(text, separator).push(
            Seq::<u8>::empty(),
        ),
{
    assert(text.push(separator).drop_last() =~= text);
}

/// The notation of a number holds no slash.
pub proof fn lemma_decimal_text_has_no_slash(n: nat)
    ensures
        free_of(decimal_text(n), ASCII_SLASH),
{
    lemma_decimal_text_digits(n);
    assert forall|i: int| 0 <= i < decimal_text(n).len() implies #[trigger] decimal_text(n)[i]
        != ASCII_SLASH by {
        assert(is_digit(decimal_text(n)[i]));
    }
}

/// A cache key splits at its slashes into the three numbers it was made of.
pub proof fn lemma_cache_key_pieces(coordinate: TileCoordinate)
    ensures
        split_on(cache_key_text(coordinate), ASCII_SLASH) == seq![
            decimal_text(coordinate.zoom as nat),
            decimal_text(coordinate.column as nat),
            decimal_text(coordinate.row as nat),
        ],
{
    let zoom = decimal_text(coordinate.zoom as nat);
    let column = decimal_text(coordinate.column as nat);
    let row = decimal_text(coordinate.row as nat);
    let nothing = Seq::<u8>::empty();
    lemma_decimal_text_has_no_slash(coordinate.zoom as nat);
    lemma_decimal_text_has_no_slash(coordinate.column as nat);
    lemma_decimal_text_has_no_slash(coordinate.row as nat);

    lemma_split_append(nothing, zoom, ASCII_SLASH);
    assert(nothing + zoom =~= zoom);
    assert(split_on(zoom, ASCII_SLASH) =~= seq![zoom]);

    lemma_split_separator(zoom, ASCII_SLASH);
    let first = zoom.push(ASCII_SLASH);
    assert(split_on(first, ASCII_SLASH) =~= seq![zoom, nothing]);

    lemma_split_append(first, column, ASCII_SLASH);
    assert(nothing + column =~= column);
    assert(split_on(first + column, ASCII_SLASH) =~= seq![zoom, column]);

    lemma_split_separator(first + column, ASCII_SLASH);
    let second = (first + column).push(ASCII_SLASH);
    assert(split_on(second, ASCII_SLASH) =~= seq![zoom, column, nothing]);

    lemma_split_append(second, row, ASCII_SLASH);
    assert(nothing + row =~= row);
    assert(split_on(second + row, ASCII_SLASH) =~= seq![zoom, column, row]);
    assert(second + row =~= cache_key_text(coordinate));
}

/// Every coordinate can be asked for: a `GET` of `/tile/` followed by zoom,
/// column and row in decimal, with slashes between them, names exactly that
/// coordinate.
pub proof fn lemma_plain_path_parses(coordinate: TileCoordinate)
    ensures
        coordinate_of(cache_key_text(coordinate)) == Some(coordinate),
        parse_request(
            text_bytes(TILE_METHOD),
            text_bytes(TILE_ROUTE_PREFIX) + cache_key_text(coordinate),
        ) == Ok::<TileCoordinate, RequestError>(coordinate),
{
    lemma_cache_key_pieces(coordinate);
    lemma_parse_decimal_text(coordinate.zoom);
    lemma_parse_decimal_text(coordinate.column);
    lemma_parse_decimal_text(coordinate.row);
    let prefix = text_bytes(TILE_ROUTE_PREFIX);
    let path = prefix + cache_key_text(coordinate);
    assert(path.subrange(0, prefix.len() as int) =~= prefix);
    assert(path.subrange(prefix.len() as int, path.len() as int) =~= cache_key_text(coordinate));
}

/// A request names a tile exactly when it is a `GET` below `/tile/` whose rest
/// has three pieces that are all integers. Another method or prefix is an
/// unsupported route; fewer or more pieces, or a piece that is no integer, is a
/// malformed coordinate.
pub proof fn lemma_parse_request_outcomes(method: Seq<u8>, path: Seq<u8>)
    ensures
        parse_request(method, path) is Ok <==> {
            let rest = path.subrange(
                text_bytes(TILE_ROUTE_PREFIX).len() as int,
                path.len() as int,
            );
            let pieces = split_on(rest, ASCII_SLASH);
            &&& is_tile_route(method, path)
            &&& pieces.len() == 3
            &&& forall|k: int| 0 <= k < 3 ==> parse_decimal(#[trigger] pieces[k]) is Some
        },
        parse_request(method, path) == Err::<TileCoordinate, RequestError>(
            RequestError::UnsupportedRoute,
        ) <==> !is_tile_route(method, path),
        parse_request(method, path) is Ok ==> {
            let rest = path.subrange(
                text_bytes(TILE_ROUTE_PREFIX).len() as int,
                path.len() as int,
            );
            let pieces = split_on(rest, ASCII_SLASH);
            let coordinate = parse_request(method, path)->Ok_0;
            &&& parse_decimal(pieces[0]) == Some(coordinate.zoom)
            &&& parse_decimal(pieces[1]) == Some(coordinate.column)
            &&& parse_decimal(pieces[2]) == Some(coordinate.row)
        },
{
}

/// Splits `text` at every `separator`.
pub fn split_segments(text: &[u8], separator: u8) -> (pieces: Vec<Vec<u8>>)
    ensures
        pieces@.len() == split_on(text@, separator).len(),
        forall|k: int|
            0 <= k < pieces@.len() ==> (#[trigger] pieces@[k])@ == split_on(text@, separator)[k],
{
    let mut pieces: Vec<Vec<u8>> = Vec::new();
    let mut current: Vec<u8> = Vec::new();
    let mut i: usize = 0;
    assert(text@.subrange(0, 0) =~= Seq::<u8>::empty());
    while i < text.len()
        invariant
            i <= text@.len(),
            split_on(text@.subrange(0, i as int), separator).len() == pieces@.len() + 1,
            forall|k: int|
                0 <= k < pieces@.len() ==> (#[trigger] pieces@[k])@ == split_on(
                    text@.subrange(0, i as int),
                    separator,
                )[k],
            current@ == split_on(text@.subrange(0, i as int), separator).last(),
        decreases text@.len() - i,
    {
        let byte: u8 = text[i];
        proof {
            let longer = text@.subrange(0, i + 1);
            assert(longer.drop_last() =~= text@.subrange(0, i as int));
            assert(longer.last() == byte);
        }
        if byte == separator {
            pieces.push(current);
            current = Vec::new();
        } else {
            current.push(byte);
        }
        i += 1;
    }
    assert(text@.subrange(0, i as int) =~= text@);
    pieces.push(current);
    pieces
}

/// Decodes what follows the route prefix into a coordinate.
pub fn parse_coordinate(rest: &[u8]) -> (coordinate: Option<TileCoordinate>)
    ensures
        coordinate == coordinate_of(rest@),
{
    let pieces = split_segments(rest, ASCII_SLASH);
    if pieces.len() != 3 {
        return None;
    }
    let zoom = parse_u32(pieces[0].as_slice());
    let column = parse_u32(pieces[1].as_slice());
    let row = parse_u32(pieces[2].as_slice());
    match (zoom, column, row) {
        (Some(zoom), Some(column), Some(row)) => Some(TileCoordinate { zoom, column, row }),
        _ => None,
    }
}

/// Decodes a request: the method has to be `GET` and the path
/// `/tile/{zoom}/{column}/{row}`.
pub fn parse_tile_request(method: &[u8], path: &[u8]) -> (parsed: Result<
    TileCoordinate,
    RequestError,
>)
    ensures
        parsed == parse_request(method@, path@),
{
    let prefix = TILE_ROUTE_PREFIX.as_bytes();
    if !bytes_equal(method, TILE_METHOD.as_bytes()) || !starts_with(path, prefix) {
        return Err(RequestError::UnsupportedRoute);
    }
    let rest = slice_subrange(path, prefix.len(), path.len());
    match parse_coordinate(rest) {
        Some(coordinate) => Ok(coordinate),
        None => Err(RequestError::MalformedCoordinate),
    }
}

impl TileCoordinate {
    /// The key under which the memory cache holds this tile.
    pub fn cache_key(&self) -> (key: Vec<u8>)
        ensures
            key@ == cache_key_text(*self),
    {
        let mut key: Vec<u8> = Vec::new();
        append_decimal(&mut key, self.zoom);
        key.push(ASCII_SLASH);
        append_decimal(&mut key, self.column);
        key.push(ASCII_SLASH);
        append_decimal(&mut key, self.row);
        assert(key@ =~= cache_key_text(*self));
        key
    }

    /// Appends this tile's file name, row before column, to `buffer`.
    pub fn append_tile_file(&self, buffer: &mut Vec<u8>)
        ensures
            final(buffer)@ == old(buffer)@ + tile_file_text(*self),
    {
        append_decimal(buffer, self.zoom);
        buffer.push(ASCII_SLASH);
        append_decimal(buffer, self.row);
        buffer.push(ASCII_SLASH);
        append_decimal(buffer, self.column);
        append_bytes(buffer, TILE_FILE_SUFFIX.as_bytes());
        assert(buffer@ =~= old(buffer)@ + tile_file_text(*self));
    }

    /// The address from which the upstream source serves this tile.
    pub fn upstream_url(&self) -> (url: Vec<u8>)
        ensures
            url@ == upstream_url_text(*self),
    {
        let mut url: Vec<u8> = Vec::new();
        append_bytes(&mut url, UPSTREAM_TILE_ROOT.as_bytes());
        self.append_tile_file(&mut url);
        url
    }

    /// The file that holds this tile below the directory `base`.
    pub fn disk_path(&self, base: &[u8]) -> (path: Vec<u8>)
        ensures
            path@ == disk_path_text(base@, *self),
    {
        let mut path: Vec<u8> = Vec::new();
        append_bytes(&mut path, base);
        path.push(ASCII_SLASH);
        self.append_tile_file(&mut path);
        assert(path@ =~= disk_path_text(base@, *self));
        path
    }
}

} // verus!
