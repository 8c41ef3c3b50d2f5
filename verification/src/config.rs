//! Settings: the fixed limits of the proxy, and where the disk tier lives.

use crate::bytes::optional_bytes;
use vstd::prelude::*;
use vstd::string::StrSliceExecFns;
use vstd::utf8::encode_utf8;

verus! {

/// The environment variable that names the directory of the disk tier.
pub const TILE_STORAGE_VARIABLE: &'static str = "TILE_STORAGE_PATH";

/// The directory of the disk tier where the variable is not set.
pub const DEFAULT_TILE_BASE_PATH: &'static str = "/data/tiles";

/// The address the proxy listens on.
pub const LISTEN_ADDRESS: &'static str = "0.0.0.0:8080";

/// How many tiles the memory cache holds at most.
pub const MAX_TILE_CACHE_CAPACITY: u64 = 50_000;

/// How long a tile stays in the memory cache after it was stored, in seconds.
pub const TILE_CACHE_TTL_SECONDS: u64 = 3_600;

/// How long an upstream request may take, in seconds.
pub const UPSTREAM_TIMEOUT_SECONDS: u64 = 10;

/// How many idle upstream connections are kept for reuse.
pub const UPSTREAM_MAX_IDLE_CONNECTIONS: usize = 100;

/// How the proxy names itself to the upstream source.
pub const UPSTREAM_USER_AGENT: &'static str = "tile-proxy-rust/1.0";

/// Whether `c` has the Unicode property `White_Space`.
pub open spec fn is_white_space(c: char) -> bool {
    let code = c as u32;
    ||| 0x09 <= code <= 0x0D
    ||| code == 0x20
    ||| code == 0x85
    ||| code == 0xA0
    ||| code == 0x1680
    ||| 0x2000 <= code <= 0x200A
    ||| code == 0x2028
    ||| code == 0x2029
    ||| code == 0x202F
    ||| code == 0x205F
    ||| code == 0x3000
}

/// Whether `text` is empty or made of white space only.
pub open spec fn is_blank(text: Seq<char>) -> bool {
    forall|i: int| 0 <= i < text.len() ==> is_white_space(#[trigger] text[i])
}

/// `text` without the white space it begins with.
pub open spec fn trimmed_start(text: Seq<char>) -> Seq<char>
    decreases text.len(),
{
    if text.len() > 0 && is_white_space(text[0]) {
        trimmed_start(text.drop_first())
    } else {
        text
    }
}

/// `text` without the white space it ends with.
pub open spec fn trimmed_end(text: Seq<char>) -> Seq<char>
    decreases text.len(),
{
    if text.len() > 0 && is_white_space(text.last()) {
        trimmed_end(text.drop_last())
    } else {
        text
    }
}

/// `text` without the white space at either end.
pub open spec fn trimmed_text(text: Seq<char>) -> Seq<char> {
    trimmed_end(trimmed_start(text))
}

/// What an optional piece of text holds.
pub open spec fn raw_text(raw: Option<&str>) -> Option<Seq<char>> {
    match raw {
        Some(value) => Some(value@),
        None => None,
    }
}

/// The directory of the disk tier, given what the environment holds for it:
/// the default where the variable is unset, nothing where it is blank, else
/// its value without surrounding white space.
pub open spec fn base_path_of(raw: Option<Seq<char>>) -> Option<Seq<char>> {
    match raw {
        None => Some(DEFAULT_TILE_BASE_PATH@),
        Some(value) => if trimmed_text(value).len() == 0 {
            None
        } else {
            Some(trimmed_text(value))
        },
    }
}

/// Trusted: calls `str::trim` of the standard library. The contract restates
/// its documentation: leading and trailing characters with the Unicode
/// property `White_Space` are removed, and nothing else. `is_white_space`
/// lists the characters that have the property.
#[verifier::external_body]
fn trim_white_space(text: &str) -> (trimmed: &str)
    ensures
        trimmed@ == trimmed_text(text@),
{
    text.trim()
}

/// Works out the directory of the disk tier from the value of
/// `TILE_STORAGE_PATH`, or from `None` where the variable is not set.
pub fn resolve_base_path(raw: Option<&str>) -> (base: Option<String>)
    ensures
        match base {
            Some(path) => base_path_of(raw_text(raw)) == Some(path@),
            None => base_path_of(raw_text(raw)) is None,
        },
{
    match raw {
        None => Some(DEFAULT_TILE_BASE_PATH.to_owned()),
        Some(value) => {
            let trimmed = trim_white_space(value);
            if trimmed.is_empty() {
                None
            } else {
                Some(trimmed.to_owned())
            }
        },
    }
}

/// What is left of the start of a text is where the white space ends.
pub proof fn lemma_trimmed_start_shape(text: Seq<char>)
    ensures
        exists|k: int|
            0 <= k <= text.len() && is_blank(text.subrange(0, k)) && #[trigger] text.subrange(
                k,
                text.len() as int,
            ) == trimmed_start(text),
        trimmed_start(text).len() > 0 ==> !is_white_space(trimmed_start(text)[0]),
    decreases text.len(),
{
    if text.len() > 0 && is_white_space(text[0]) {
        let rest = text.drop_first();
        lemma_trimmed_start_shape(rest);
        let k = choose|k: int|
            0 <= k <= rest.len() && is_blank(rest.subrange(0, k)) && #[trigger] rest.subrange(
                k,
                rest.len() as int,
            ) == trimmed_start(rest);
        assert(text.subrange(k + 1, text.len() as int) =~= rest.subrange(k, rest.len() as int));
        assert(is_blank(text.subrange(0, k + 1))) by {
            assert forall|i: int| 0 <= i < k + 1 implies is_white_space(
                #[trigger] text.subrange(0, k + 1)[i],
            ) by {
                if i > 0 {
                    assert(rest.subrange(0, k)[i - 1] == text.subrange(0, k + 1)[i]);
                }
            }
        }
    } else {
        assert(text.subrange(0, text.len() as int) =~= text);
        assert(is_blank(text.subrange(0, 0)));
    }
}

/// What is left of the end of a text is where the white space begins.
pub proof fn lemma_trimmed_end_shape(text: Seq<char>)
    ensures
        exists|k: int|
            0 <= k <= text.len() && is_blank(text.subrange(k, text.len() as int))
                && #[trigger] text.subrange(0, k) == trimmed_end(text),
        trimmed_end(text).len() > 0 ==> !is_white_space(trimmed_end(text).last()),
    decreases text.len(),
{
    if text.len() > 0 && is_white_space(text.last()) {
        let rest = text.drop_last();
        lemma_trimmed_end_shape(rest);
        let k = choose|k: int|
            0 <= k <= rest.len() && is_blank(rest.subrange(k, rest.len() as int))
                && #[trigger] rest.subrange(0, k) == trimmed_end(rest);
        assert(text.subrange(0, k) =~= rest.subrange(0, k));
        assert(is_blank(text.subrange(k, text.len() as int))) by {
            assert forall|i: int| 0 <= i < text.len() - k implies is_white_space(
                #[trigger] text.subrange(k, text.len() as int)[i],
            ) by {
                if i < rest.len() - k {
                    assert(rest.subrange(k, rest.len() as int)[i] == text.subrange(
                        k,
                        text.len() as int,
                    )[i]);
                }
            }
        }
    } else {
        assert(text.subrange(0, text.len() as int) =~= text);
        assert(is_blank(text.subrange(text.len() as int, text.len() as int)));
    }
}

/// Trimming leaves nothing exactly of blank text.
pub proof fn lemma_trimmed_empty_iff_blank(text: Seq<char>)
    ensures
        trimmed_text(text).len() == 0 <==> is_blank(text),
{
    lemma_trimmed_start_shape(text);
    let start = trimmed_start(text);
    lemma_trimmed_end_shape(start);
    let a = choose|k: int|
        0 <= k <= text.len() && is_blank(text.subrange(0, k)) && #[trigger] text.subrange(
            k,
            text.len() as int,
        ) == trimmed_start(text);
    let b = choose|k: int|
        0 <= k <= start.len() && is_blank(start.subrange(k, start.len() as int))
            && #[trigger] start.subrange(0, k) == trimmed_end(start);
    if is_blank(text) {
        if start.len() > 0 {
            assert(start[0] == text[a]);
        }
    }
    if trimmed_text(text).len() == 0 {
        assert(b == 0);
        assert(start.subrange(0, start.len() as int) =~= start);
        if start.len() > 0 {
            assert(is_white_space(start.subrange(0, start.len() as int)[0]));
        }
        assert forall|i: int| 0 <= i < text.len() implies is_white_space(#[trigger] text[i]) by {
            assert(text.subrange(0, a)[i] == text[i]);
        }
    }
}

/// The disk tier is switched off exactly by a variable that is set and blank;
/// an unset variable selects the default directory.
pub proof fn lemma_base_path_outcomes(raw: Option<Seq<char>>)
    ensures
        base_path_of(raw) is None <==> raw is Some && is_blank(raw->0),
        raw is None ==> base_path_of(raw) == Some(DEFAULT_TILE_BASE_PATH@),
        raw is Some && !is_blank(raw->0) ==> base_path_of(raw) == Some(trimmed_text(raw->0)),
{
    if raw is Some {
        lemma_trimmed_empty_iff_blank(raw->0);
    }
}

/// Where the disk tier lives, and whether it is in use.
#[derive(Debug)]
pub struct DiskCacheConfig {
    base_path: Option<Vec<u8>>,
    enabled: bool,
}

/// What a `DiskCacheConfig` holds.
pub struct DiskCacheSettings {
    /// The directory of the disk tier, as the bytes of its path.
    pub base_path: Option<Seq<u8>>,
    /// Whether the disk tier is in use.
    pub enabled: bool,
}

impl DiskCacheSettings {
    /// An enabled disk tier has a directory.
    pub open spec fn well_formed(self) -> bool {
        self.enabled ==> self.base_path is Some
    }
}

impl View for DiskCacheConfig {
    type V = DiskCacheSettings;

    closed spec fn view(&self) -> DiskCacheSettings {
        DiskCacheSettings { base_path: optional_bytes(self.base_path), enabled: self.enabled }
    }
}

impl DiskCacheConfig {
    #[verifier::type_invariant]
    spec fn enabled_has_directory(self) -> bool {
        self.enabled ==> self.base_path is Some
    }

    /// The disk tier is in use where a directory is configured and that
    /// directory exists.
    pub fn new(base_path: Option<&str>, directory_exists: bool) -> (config: DiskCacheConfig)
        ensures
            config@.well_formed(),
            config@.enabled == (base_path is Some && directory_exists),
            config@.base_path == match base_path {
                Some(path) => Some(encode_utf8(path@)),
                None => None,
            },
    {
        match base_path {
            Some(path) => DiskCacheConfig {
                base_path: Some(path.as_bytes_vec()),
                enabled: directory_exists,
            },
            None => DiskCacheConfig { base_path: None, enabled: false },
        }
    }

    /// Whether the disk tier is in use.
    pub fn enabled(&self) -> (enabled: bool)
        ensures
            enabled == self@.enabled,
    {
        self.enabled
    }

    /// The configured directory, in use or not.
    pub fn base_path(&self) -> (base: Option<&[u8]>)
        ensures
            self@.well_formed(),
            match base {
                Some(path) => self@.base_path == Some(path@),
                None => self@.base_path is None,
            },
    {
        proof {
            use_type_invariant(self);
        }
        match &self.base_path {
            Some(path) => Some(path.as_slice()),
            None => None,
        }
    }
}

} // verus!
