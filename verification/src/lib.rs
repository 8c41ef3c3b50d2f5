//! Decision logic of a read-through caching proxy for map tiles.
//!
//! A request names a tile by zoom, column and row. Low zoom levels are served
//! from files on disk; everything else comes from a memory cache that is filled
//! from a fixed upstream tile source. This crate holds the rules: how a request
//! path is decoded, which tier answers it, which file, cache key and upstream
//! URL belong to a tile, and which response each outcome produces. Reading
//! files, talking to the cache and fetching from upstream are left to the
//! caller, which is told at every step what to do next.
//!
//! All text (paths, header values, bodies) is handled as bytes.
//!
//! - [`coordinate`]: tile coordinates, the request path, and the names of a
//!   tile in the cache, on disk and upstream
//! - [`router`]: the choice of tier
//! - [`config`]: fixed limits and the settings of the disk tier
//! - [`cors`]: the allowed origins
//! - [`status`], [`response`]: upstream status codes and the proxy's responses
//! - [`orchestrator`]: the course of one request, move by move
//! - [`serving`]: whole requests against a model of disk, cache and upstream,
//!   and what is proved of them
//! - [`bytes`], [`decimal`]: byte strings and decimal numbers

pub mod bytes;
pub mod config;
pub mod coordinate;
pub mod cors;
pub mod decimal;
pub mod orchestrator;
pub mod response;
pub mod router;
pub mod serving;
pub mod status;
