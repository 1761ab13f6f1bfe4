//! The tile store: what is in memory, what is on its way, and what to do next for a tile.
//!
//! The store itself does no input or output. Its host reads files and makes requests as it says,
//! and reports what came of them.

use crate::config::TileSourceConfig;
use crate::paths::{self, FilePath, PathSpec};
use crate::text::{self, decimal_string, push_decimal};
use std::path::PathBuf;
use vstd::hash_map::StringHashMap;
use vstd::hash_set::StringHashSet;
use vstd::prelude::*;

verus! {

/// The most tiles that are held in memory.
pub const MEM_CACHE_MAX: usize = 256;

// ---------------------------------------------------------------------------
// Names of a tile
// ---------------------------------------------------------------------------

/// The name of a tile in memory.
pub open spec fn cache_name(z: u32, x: u32, y: u32) -> Seq<char> {
    text::decimal(z as nat) + "-"@ + text::decimal(x as nat) + "-"@ + text::decimal(y as nat)
}

/// What is appended to the server's address for a tile.
pub open spec fn url_tail(z: u32, x: u32, y: u32) -> Seq<char> {
    text::decimal(z as nat) + "/"@ + text::decimal(x as nat) + "/"@ + text::decimal(y as nat)
        + ".pbf"@
}

/// The file of a tile within the directory of its zoom level.
pub open spec fn file_name(x: u32, y: u32) -> Seq<char> {
    text::decimal(x as nat) + "-"@ + text::decimal(y as nat) + ".pbf"@
}

/// The file of a tile below a directory.
pub open spec fn tile_file(dir: PathSpec, z: u32, x: u32, y: u32) -> PathSpec {
    dir.entry(text::decimal(z as nat)).entry(file_name(x, y))
}

/// An address that ends in a slash.
pub open spec fn with_slash(url: Seq<char>) -> Seq<char> {
    if url.len() > 0 && url.last() == '/' {
        url
    } else {
        url + "/"@
    }
}

// ---------------------------------------------------------------------------
// The content of a tile
// ---------------------------------------------------------------------------

/// The two bytes that a gzip file starts with.
pub open spec fn gzip_marked(raw: Seq<u8>) -> bool {
    raw.len() >= 2 && raw[0] == 0x1f && raw[1] == 0x8b
}

/// The content of a tile, given what its bytes inflate to.
pub open spec fn tile_content(raw: Seq<u8>, inflated: Option<Seq<u8>>) -> Option<Seq<u8>> {
    if gzip_marked(raw) {
        inflated
    } else {
        Some(raw)
    }
}

/// What `flate2` inflates the first gzip member of these bytes to, where it can.
pub uninterp spec fn gunzipped(raw: Seq<u8>) -> Option<Seq<u8>>;

/// The content of a tile that was received as these bytes.
pub open spec fn decoded(raw: Seq<u8>) -> Option<Seq<u8>> {
    tile_content(raw, gunzipped(raw))
}

/// The content of a tile that was received as these bytes, if any were.
pub open spec fn decoded_if_any(raw: Option<Seq<u8>>) -> Option<Seq<u8>> {
    match raw {
        Some(b) => decoded(b),
        None => None,
    }
}

/// Optional bytes.
pub open spec fn bytes_view(b: Option<Vec<u8>>) -> Option<Seq<u8>> {
    match b {
        Some(v) => Some(v@),
        None => None,
    }
}

/// `std::io::Error`, carried through unread.
#[verifier::external_type_specification]
#[verifier::external_body]
pub struct ExIoError(std::io::Error);

/// `flate2::read::GzDecoder`, read to its end: the content of the first gzip member, or an error
/// where the bytes are no sound gzip member. Which of the two, and the content, depend on the
/// bytes alone; the error is left open.
#[verifier::external_body]
fn gunzip(raw: &Vec<u8>) -> (r: Result<Vec<u8>, std::io::Error>)
    ensures
        match r {
            Ok(v) => gunzipped(raw@) == Some(v@),
            Err(_) => gunzipped(raw@) is None,
        },
{
    let mut decoder = flate2::read::GzDecoder::new(&raw[..]);
    let mut out = Vec::new();
    match std::io::Read::read_to_end(&mut decoder, &mut out) {
        Ok(_) => Ok(out),
        Err(e) => Err(e),
    }
}

/// Why a tile cannot be had.
#[derive(Debug, Clone, Copy, PartialEq, Eq, Structural)]
pub enum TileError {
    /// The bytes start like a gzip file and cannot be inflated.
    Decompress,
}

impl TileError {
    /// The error in words.
    pub fn message(self) -> (r: &'static str)
        ensures
            r@ == "decompress gzip tile"@,
    {
        "decompress gzip tile"
    }
}

/// The content of a tile as a result.
pub open spec fn content_result(r: Result<Vec<u8>, TileError>) -> Option<Seq<u8>> {
    match r {
        Ok(v) => Some(v@),
        Err(_) => None,
    }
}

/// Whether the bytes start like a gzip file.
pub fn is_gzip(raw: &Vec<u8>) -> (r: bool)
    ensures
        r == gzip_marked(raw@),
        r <==> raw@.len() >= 2 && raw@[0] == 0x1f && raw@[1] == 0x8b,
{
    raw.len() >= 2 && raw[0] == 0x1f && raw[1] == 0x8b
}

/// The content of a tile, given what its bytes inflate to.
pub fn content_of(raw: Vec<u8>, inflated: Option<Vec<u8>>) -> (r: Result<Vec<u8>, TileError>)
    ensures
        content_result(r) == tile_content(raw@, bytes_view(inflated)),
{
    if is_gzip(&raw) {
        match inflated {
            Some(v) => Ok(v),
            None => Err(TileError::Decompress),
        }
    } else {
        Ok(raw)
    }
}

/// The content of a tile that was received as these bytes: they are inflated if they start like
/// a gzip file, and taken as they are if not.
pub fn maybe_decompress_gzip(raw: Vec<u8>) -> (r: Result<Vec<u8>, TileError>)
    ensures
        content_result(r) == decoded(raw@),
        !gzip_marked(raw@) ==> content_result(r) == Some(raw@),
        if raw@.len() >= 2 && raw@[0] == 0x1f && raw@[1] == 0x8b {
            match r {
                Ok(v) => gunzipped(raw@) == Some(v@),
                Err(_) => gunzipped(raw@) is None,
            }
        } else {
            r matches Ok(v) && v@ == raw@
        },
{
    let inflated: Option<Vec<u8>> = if is_gzip(&raw) {
        match gunzip(&raw) {
            Ok(v) => Some(v),
            Err(_) => None,
        }
    } else {
        None
    };
    content_of(raw, inflated)
}

fn copy_bytes(v: &Vec<u8>) -> (r: Vec<u8>)
    ensures
        r@ == v@,
{
    let r: Vec<u8> = v.clone();
    assert(r@ =~= v@);
    r
}

// ---------------------------------------------------------------------------
// Model
// ---------------------------------------------------------------------------

/// What the store knows.
#[verifier::ext_equal]
pub struct StoreSpec {
    pub base_url: Seq<char>,
    pub cache_dir: Option<PathSpec>,
    /// The tiles in memory, by name.
    pub tiles: Map<Seq<char>, Seq<u8>>,
    /// Their names, the one longest in memory first.
    pub order: Seq<Seq<char>>,
    /// The names of the tiles that are on their way.
    pub pending: Set<Seq<char>>,
    pub notify: bool,
}

/// What is known of a tile without a request.
pub enum LookupSpec {
    Cached(Seq<u8>),
    OnDisk(PathSpec),
    Absent,
}

/// What a tile that is waited for needs.
pub enum NeedSpec {
    AtHand(Seq<u8>),
    Request(Seq<char>),
}

impl StoreSpec {
    /// The names are those of the tiles, each once, and there are not too many.
    pub open spec fn wf(self) -> bool {
        &&& self.order.no_duplicates()
        &&& forall|k: Seq<char>| self.tiles.contains_key(k) <==> #[trigger] self.order.contains(k)
        &&& self.order.len() <= MEM_CACHE_MAX
    }

    pub open spec fn lookup(self, z: u32, x: u32, y: u32) -> LookupSpec {
        let name = cache_name(z, x, y);
        if self.tiles.contains_key(name) {
            LookupSpec::Cached(self.tiles[name])
        } else {
            match self.cache_dir {
                Some(dir) => LookupSpec::OnDisk(tile_file(dir, z, x, y)),
                None => LookupSpec::Absent,
            }
        }
    }

    /// A full memory forgets the tile that it has held longest.
    pub open spec fn room_made(self) -> StoreSpec {
        if self.order.len() >= MEM_CACHE_MAX {
            StoreSpec {
                tiles: self.tiles.remove(self.order[0]),
                order: self.order.skip(1),
                ..self
            }
        } else {
            self
        }
    }

    /// A tile is put into memory.
    pub open spec fn stored(self, z: u32, x: u32, y: u32, content: Seq<u8>) -> StoreSpec {
        let name = cache_name(z, x, y);
        let s = self.room_made();
        StoreSpec {
            tiles: s.tiles.insert(name, content),
            order: if s.tiles.contains_key(name) {
                s.order
            } else {
                s.order.push(name)
            },
            ..s
        }
    }

    /// The bytes of a tile came in: its content is put into memory, if it can be had.
    pub open spec fn received(self, z: u32, x: u32, y: u32, content: Option<Seq<u8>>) -> StoreSpec {
        match content {
            Some(c) => self.stored(z, x, y, c),
            None => self,
        }
    }

    /// A tile is waited for, and its file was looked at where it is not in memory: the content is
    /// at hand, or the tile has to be requested.
    pub open spec fn waited_for(self, z: u32, x: u32, y: u32, file: Option<Seq<u8>>) -> (
        StoreSpec,
        NeedSpec,
    ) {
        let name = cache_name(z, x, y);
        if self.tiles.contains_key(name) {
            (self, NeedSpec::AtHand(self.tiles[name]))
        } else {
            match decoded_if_any(file) {
                Some(content) => (self.stored(z, x, y, content), NeedSpec::AtHand(content)),
                None => (self, NeedSpec::Request(self.base_url + url_tail(z, x, y))),
            }
        }
    }

    /// A tile is wanted: the address to request, unless it is in memory or on its way.
    pub open spec fn requested(self, z: u32, x: u32, y: u32) -> (StoreSpec, Option<Seq<char>>) {
        let name = cache_name(z, x, y);
        if self.tiles.contains_key(name) || self.pending.contains(name) {
            (self, None)
        } else {
            (
                StoreSpec { pending: self.pending.insert(name), ..self },
                Some(self.base_url + url_tail(z, x, y)),
            )
        }
    }

    /// A request is over.
    pub open spec fn released(self, z: u32, x: u32, y: u32) -> StoreSpec {
        StoreSpec { pending: self.pending.remove(cache_name(z, x, y)), ..self }
    }
}

// ---------------------------------------------------------------------------
// The store
// ---------------------------------------------------------------------------

/// What is known of a tile without a request.
#[derive(Debug, PartialEq, Eq)]
pub enum TileLookup {
    /// The content is in memory.
    Cached(Vec<u8>),
    /// The content is in this file, if the file exists: report it with `tile_read`.
    OnDisk(FilePath),
    /// There is nothing but the server.
    Absent,
}

impl View for TileLookup {
    type V = LookupSpec;

    open spec fn view(&self) -> LookupSpec {
        match self {
            TileLookup::Cached(v) => LookupSpec::Cached(v@),
            TileLookup::OnDisk(p) => LookupSpec::OnDisk(p@),
            TileLookup::Absent => LookupSpec::Absent,
        }
    }
}

/// What a tile that is waited for needs.
#[derive(Debug, PartialEq, Eq)]
pub enum TileNeed {
    /// Nothing: this is its content.
    AtHand(Vec<u8>),
    /// A request at this address: report the reply with `tile_fetched`.
    Request(String),
}

impl View for TileNeed {
    type V = NeedSpec;

    open spec fn view(&self) -> NeedSpec {
        match self {
            TileNeed::AtHand(v) => NeedSpec::AtHand(v@),
            TileNeed::Request(url) => NeedSpec::Request(url@),
        }
    }
}

/// A tile that was downloaded in the background.
#[derive(Debug, PartialEq, Eq)]
pub struct Arrival {
    pub content: Vec<u8>,
    /// The file to keep it in.
    pub file: Option<FilePath>,
    /// The host wants to be woken.
    pub notify: bool,
}

/// The tile store.
pub struct TileSource {
    pub base_url: String,
    pub cache_dir: Option<FilePath>,
    pub mem_cache: StringHashMap<Vec<u8>>,
    pub order: Vec<String>,
    pub pending: StringHashSet,
    pub notify: bool,
}

/// What memory holds.
pub open spec fn tiles_view(m: Map<Seq<char>, Vec<u8>>) -> Map<Seq<char>, Seq<u8>> {
    m.map_values(|v: Vec<u8>| v@)
}

impl View for TileSource {
    type V = StoreSpec;

    open spec fn view(&self) -> StoreSpec {
        StoreSpec {
            base_url: self.base_url@,
            cache_dir: paths::path_view(self.cache_dir),
            tiles: tiles_view(self.mem_cache@),
            order: text::texts(self.order@),
            pending: self.pending@,
            notify: self.notify,
        }
    }
}

/// The name of a tile in memory.
pub fn cache_key(z: u32, x: u32, y: u32) -> (r: String)
    ensures
        r@ == cache_name(z, x, y),
{
    let mut s = String::new();
    push_decimal(&mut s, z as u64);
    s.append("-");
    push_decimal(&mut s, x as u64);
    s.append("-");
    push_decimal(&mut s, y as u64);
    assert(s@ =~= cache_name(z, x, y));
    s
}

/// The store when it is new.
pub open spec fn fresh(base_url: Seq<char>, cache_dir: Option<PathSpec>, notify: bool) -> StoreSpec {
    StoreSpec {
        base_url: with_slash(base_url),
        cache_dir: match cache_dir {
            Some(dir) => Some(dir.entry("tiles"@)),
            None => None,
        },
        tiles: Map::empty(),
        order: Seq::empty(),
        pending: Set::empty(),
        notify,
    }
}

impl TileSource {
    pub open spec fn wf(self) -> bool {
        self@.wf()
    }

    /// An empty store for the configured server. Files are kept below the configured directory,
    /// or else below the user's cache directory, if there is one.
    pub fn new(config: &TileSourceConfig) -> (r: Self)
        ensures
            r.wf(),
            exists|system: Option<PathBuf>|
                r@ == fresh(config.base_url@, config.cache_dir_with(system), false),
            config.cache_dir is Some ==> r@ == fresh(
                config.base_url@,
                config.cache_dir_with(None),
                false,
            ),
    {
        Self::with_notify(config, false)
    }

    /// An empty store for the configured server, as `new` makes it. With `notify` the host is
    /// woken when a background download has completed.
    pub fn with_notify(config: &TileSourceConfig, notify: bool) -> (r: Self)
        ensures
            r.wf(),
            exists|system: Option<PathBuf>|
                r@ == fresh(config.base_url@, config.cache_dir_with(system), notify),
            config.cache_dir is Some ==> r@ == fresh(
                config.base_url@,
                config.cache_dir_with(None),
                notify,
            ),
    {
        let dir: Option<FilePath> = config.resolved_cache_dir();
        let r = Self::with_cache_dir(config, dir, notify);
        proof {
            let system = choose|system: Option<PathBuf>|
                paths::path_view(dir) == config.cache_dir_with(system);
            assert(r@ == fresh(config.base_url@, config.cache_dir_with(system), notify));
        }
        r
    }

    /// An empty store for the configured server, with files below `dir`.
    pub fn with_cache_dir(config: &TileSourceConfig, dir: Option<FilePath>, notify: bool) -> (r: Self)
        ensures
            r.wf(),
            r@ == fresh(config.base_url@, paths::path_view(dir), notify),
    {
        let mut base_url: String = config.base_url.clone();
        if !ends_with_slash(&base_url) {
            base_url.append("/");
        }
        let r = TileSource {
            base_url,
            cache_dir: match dir {
                Some(d) => Some(d.entry("tiles")),
                None => None,
            },
            mem_cache: StringHashMap::new(),
            order: Vec::new(),
            pending: StringHashSet::new(),
            notify,
        };
        assert(r@ =~= fresh(config.base_url@, paths::path_view(dir), notify));
        r
    }

    /// The address of a tile.
    pub fn tile_url2(&self, z: u32, x: u32, y: u32) -> (r: String)
        ensures
            r@ == self@.base_url + url_tail(z, x, y),
    {
        let mut s: String = self.base_url.clone();
        push_decimal(&mut s, z as u64);
        s.append("/");
        push_decimal(&mut s, x as u64);
        s.append("/");
        push_decimal(&mut s, y as u64);
        s.append(".pbf");
        assert(s@ =~= self@.base_url + url_tail(z, x, y));
        s
    }

    /// The file of a tile, if files are kept.
    pub fn cache_path(&self, z: u32, x: u32, y: u32) -> (r: Option<FilePath>)
        ensures
            paths::path_view(r) == match self@.cache_dir {
                Some(dir) => Some(tile_file(dir, z, x, y)),
                None => None,
            },
    {
        match &self.cache_dir {
            Some(dir) => {
                let level: String = decimal_string(z as u64);
                let mut file = String::new();
                push_decimal(&mut file, x as u64);
                file.append("-");
                push_decimal(&mut file, y as u64);
                file.append(".pbf");
                assert(file@ =~= file_name(x, y));
                Some(dir.clone().entry(level.as_str()).entry(file.as_str()))
            },
            None => None,
        }
    }

    /// What is known of a tile without a request: it never waits for the network.
    pub fn try_get_tile_bytes(&self, z: u32, x: u32, y: u32) -> (r: TileLookup)
        ensures
            r@ == self@.lookup(z, x, y),
    {
        let key: String = cache_key(z, x, y);
        match self.mem_cache.get(key.as_str()) {
            Some(v) => TileLookup::Cached(copy_bytes(v)),
            None => match self.cache_path(z, x, y) {
                Some(p) => TileLookup::OnDisk(p),
                None => TileLookup::Absent,
            },
        }
    }

    fn evict_if_needed(&mut self)
        requires
            old(self).wf(),
        ensures
            final(self).wf(),
            final(self)@ == old(self)@.room_made(),
    {
        assert(self@.order.len() == self.order@.len());
        if self.order.len() >= MEM_CACHE_MAX {
            let oldest: String = self.order.remove(0);
            self.mem_cache.remove(oldest.as_str());
            proof {
                let ghost before = old(self)@;
                assert(oldest@ == before.order[0]);
                assert(self@.order =~= before.order.skip(1));
                assert(self@.tiles =~= before.tiles.remove(before.order[0]));
                lemma_room_made_wf(before);
            }
        }
    }

    /// Puts the content of a tile into memory.
    pub fn store_tile(&mut self, z: u32, x: u32, y: u32, content: &Vec<u8>)
        requires
            old(self).wf(),
        ensures
            final(self).wf(),
            final(self)@ == old(self)@.stored(z, x, y, content@),
    {
        proof {
            lemma_stored_wf(self@, z, x, y, content@);
        }
        self.evict_if_needed();
        let ghost made = self@;
        let key: String = cache_key(z, x, y);
        if !self.mem_cache.contains_key(key.as_str()) {
            self.order.push(key.clone());
            assert(self@.order =~= made.order.push(key@));
        }
        self.mem_cache.insert(key, copy_bytes(content));
        assert(self@.tiles =~= made.tiles.insert(cache_name(z, x, y), content@));
        assert(self@ =~= old(self)@.stored(z, x, y, content@));
    }

    /// The file of a tile was read, or could not be. The content is returned if it can be had,
    /// and is then in memory.
    pub fn tile_read(&mut self, z: u32, x: u32, y: u32, raw: Option<Vec<u8>>) -> (r: Option<
        Vec<u8>,
    >)
        requires
            old(self).wf(),
        ensures
            final(self).wf(),
            ({
                let content = decoded_if_any(bytes_view(raw));
                &&& bytes_view(r) == content
                &&& final(self)@ == old(self)@.received(z, x, y, content)
            }),
            match raw {
                Some(b) => if b@.len() >= 2 && b@[0] == 0x1f && b@[1] == 0x8b {
                    match r {
                        Some(v) => gunzipped(b@) == Some(v@),
                        None => gunzipped(b@) is None,
                    }
                } else {
                    r matches Some(v) && v@ == b@
                },
                None => r is None,
            },
            match r {
                Some(v) => final(self)@.tiles.contains_pair(cache_name(z, x, y), v@),
                None => final(self)@ == old(self)@,
            },
    {
        match raw {
            Some(b) => match self.tile_fetched(z, x, y, b) {
                Ok(v) => Some(v),
                Err(_) => None,
            },
            None => None,
        }
    }

    /// A tile is waited for. `file` is what its file holds, where the lookup named a file and it
    /// could be read. A tile in memory or in its file needs no request.
    pub fn get_tile_blocking(&mut self, z: u32, x: u32, y: u32, file: Option<Vec<u8>>) -> (r:
        TileNeed)
        requires
            old(self).wf(),
        ensures
            final(self).wf(),
            (final(self)@, r@) == old(self)@.waited_for(z, x, y, bytes_view(file)),
    {
        let key: String = cache_key(z, x, y);
        if let Some(v) = self.mem_cache.get(key.as_str()) {
            return TileNeed::AtHand(copy_bytes(v));
        }
        match self.tile_read(z, x, y, file) {
            Some(content) => TileNeed::AtHand(content),
            None => TileNeed::Request(self.tile_url2(z, x, y)),
        }
    }

    /// The server sent a tile that the host waited for.
    pub fn tile_fetched(&mut self, z: u32, x: u32, y: u32, body: Vec<u8>) -> (r: Result<
        Vec<u8>,
        TileError,
    >)
        requires
            old(self).wf(),
        ensures
            final(self).wf(),
            content_result(r) == decoded(body@),
            final(self)@ == old(self)@.received(z, x, y, decoded(body@)),
            if body@.len() >= 2 && body@[0] == 0x1f && body@[1] == 0x8b {
                match r {
                    Ok(v) => gunzipped(body@) == Some(v@),
                    Err(_) => gunzipped(body@) is None,
                }
            } else {
                r matches Ok(v) && v@ == body@
            },
            match r {
                Ok(v) => final(self)@.tiles.contains_pair(cache_name(z, x, y), v@),
                Err(_) => final(self)@ == old(self)@,
            },
    {
        match maybe_decompress_gzip(body) {
            Ok(content) => {
                self.store_tile(z, x, y, &content);
                Ok(content)
            },
            Err(e) => Err(e),
        }
    }

    /// A tile is wanted that the lookup has not found. If it is neither in memory nor on its way
    /// it is from now on its way, and the address to request is returned.
    pub fn request_tile(&mut self, z: u32, x: u32, y: u32) -> (r: Option<String>)
        requires
            old(self).wf(),
        ensures
            final(self).wf(),
            (final(self)@, text::text_view(r)) == old(self)@.requested(z, x, y),
    {
        let key: String = cache_key(z, x, y);
        if self.mem_cache.contains_key(key.as_str()) || self.pending.contains(key.as_str()) {
            return None;
        }
        self.pending.insert(key);
        Some(self.tile_url2(z, x, y))
    }

    /// The background download of a tile has ended, with its body unless it failed. The tile is
    /// still on its way until `release_request`.
    pub fn tile_arrived(&mut self, z: u32, x: u32, y: u32, body: Option<Vec<u8>>) -> (r: Option<
        Arrival,
    >)
        requires
            old(self).wf(),
        ensures
            final(self).wf(),
            ({
                let content = decoded_if_any(bytes_view(body));
                &&& final(self)@ == old(self)@.received(z, x, y, content)
                &&& r is Some <==> content is Some
                &&& r matches Some(a) ==> {
                    &&& content == Some(a.content@)
                    &&& a.notify == old(self)@.notify
                    &&& paths::path_view(a.file) == match old(self)@.cache_dir {
                        Some(dir) => Some(tile_file(dir, z, x, y)),
                        None => None,
                    }
                }
            }),
            match body {
                Some(b) => if b@.len() >= 2 && b@[0] == 0x1f && b@[1] == 0x8b {
                    match r {
                        Some(a) => gunzipped(b@) == Some(a.content@),
                        None => gunzipped(b@) is None,
                    }
                } else {
                    r matches Some(a) && a.content@ == b@
                },
                None => r is None,
            },
            match r {
                Some(a) => final(self)@.tiles.contains_pair(cache_name(z, x, y), a.content@),
                None => final(self)@ == old(self)@,
            },
    {
        match self.tile_read(z, x, y, body) {
            Some(content) => Some(
                Arrival { content, file: self.cache_path(z, x, y), notify: self.notify },
            ),
            None => None,
        }
    }

    /// A background download is over, whatever came of it.
    pub fn release_request(&mut self, z: u32, x: u32, y: u32)
        requires
            old(self).wf(),
        ensures
            final(self).wf(),
            final(self)@ == old(self)@.released(z, x, y),
    {
        let key: String = cache_key(z, x, y);
        self.pending.remove(key.as_str());
    }
}

fn ends_with_slash(s: &String) -> (r: bool)
    ensures
        r == (s@.len() > 0 && s@.last() == '/'),
{
    let v: Vec<char> = text::chars_of(s.as_str());
    v.len() > 0 && v[v.len() - 1] == '/'
}

proof fn lemma_room_made_wf(s: StoreSpec)
    requires
        s.wf(),
    ensures
        s.room_made().wf(),
        s.room_made().order.len() < MEM_CACHE_MAX,
{
    if s.order.len() >= MEM_CACHE_MAX {
        let t = s.room_made();
        let first = s.order[0];
        assert forall|k: Seq<char>| t.tiles.contains_key(k) <==> #[trigger] t.order.contains(k) by {
            if t.tiles.contains_key(k) {
                assert(s.order.contains(k));
                let i = choose|i: int| 0 <= i < s.order.len() && s.order[i] == k;
                assert(i != 0);
                assert(t.order[i - 1] == k);
            }
            if t.order.contains(k) {
                let i = choose|i: int| 0 <= i < t.order.len() && t.order[i] == k;
                assert(s.order[i + 1] == k);
                assert(s.order.contains(k));
                assert(k != first);
            }
        }
    }
}

pub proof fn lemma_stored_wf(s: StoreSpec, z: u32, x: u32, y: u32, content: Seq<u8>)
    requires
        s.wf(),
    ensures
        s.stored(z, x, y, content).wf(),
{
    lemma_room_made_wf(s);
    let m = s.room_made();
    let name = cache_name(z, x, y);
    let t = s.stored(z, x, y, content);
    assert(m.tiles.contains_key(name) <==> m.order.contains(name));
    assert forall|k: Seq<char>| t.tiles.contains_key(k) <==> #[trigger] t.order.contains(k) by {
        assert(m.tiles.contains_key(k) <==> m.order.contains(k));
        if !m.tiles.contains_key(name) {
            assert(t.order == m.order.push(name));
            if m.order.contains(k) {
                let i = choose|i: int| 0 <= i < m.order.len() && m.order[i] == k;
                assert(t.order[i] == k);
            }
            if k == name {
                assert(t.order[m.order.len() as int] == k);
            }
            if t.order.contains(k) && k != name {
                let i = choose|i: int| 0 <= i < t.order.len() && t.order[i] == k;
                assert(m.order[i] == k);
            }
        }
    }
}

// ---------------------------------------------------------------------------
// Laws
// ---------------------------------------------------------------------------

proof fn lemma_names(z: u32, x: u32, y: u32)
    ensures
        cache_name(z, x, y) == text::decimal(z as nat).push('-') + (text::decimal(x as nat).push(
            '-',
        ) + text::decimal(y as nat)),
        url_tail(z, x, y) == text::decimal(z as nat).push('/') + (text::decimal(x as nat).push('/')
            + (text::decimal(y as nat).push('.') + "pbf"@)),
        file_name(x, y) == text::decimal(x as nat).push('-') + (text::decimal(y as nat).push('.')
            + "pbf"@),
{
    reveal_strlit("-");
    reveal_strlit("/");
    reveal_strlit(".pbf");
    reveal_strlit("pbf");
    assert(cache_name(z, x, y) =~= text::decimal(z as nat).push('-') + (text::decimal(
        x as nat,
    ).push('-') + text::decimal(y as nat)));
    assert(url_tail(z, x, y) =~= text::decimal(z as nat).push('/') + (text::decimal(x as nat).push(
        '/',
    ) + (text::decimal(y as nat).push('.') + "pbf"@)));
    assert(file_name(x, y) =~= text::decimal(x as nat).push('-') + (text::decimal(y as nat).push(
        '.',
    ) + "pbf"@));
}

/// Two tiles never share a name in memory, an address or a file.
pub proof fn law_tiles_have_their_own_names(
    base_url: Seq<char>,
    dir: PathSpec,
    z1: u32,
    x1: u32,
    y1: u32,
    z2: u32,
    x2: u32,
    y2: u32,
)
    requires
        (z1, x1, y1) != (z2, x2, y2),
    ensures
        cache_name(z1, x1, y1) != cache_name(z2, x2, y2),
        base_url + url_tail(z1, x1, y1) != base_url + url_tail(z2, x2, y2),
        tile_file(dir, z1, x1, y1) != tile_file(dir, z2, x2, y2),
{
    lemma_names(z1, x1, y1);
    lemma_names(z2, x2, y2);
    let (dz1, dx1, dy1) = (
        text::decimal(z1 as nat),
        text::decimal(x1 as nat),
        text::decimal(y1 as nat),
    );
    let (dz2, dx2, dy2) = (
        text::decimal(z2 as nat),
        text::decimal(x2 as nat),
        text::decimal(y2 as nat),
    );
    text::lemma_decimal_digits(z1 as nat);
    text::lemma_decimal_digits(z2 as nat);
    text::lemma_decimal_digits(x1 as nat);
    text::lemma_decimal_digits(x2 as nat);
    text::lemma_decimal_digits(y1 as nat);
    text::lemma_decimal_digits(y2 as nat);
    if cache_name(z1, x1, y1) == cache_name(z2, x2, y2) {
        text::lemma_split_unique(dz1, dz2, dx1.push('-') + dy1, dx2.push('-') + dy2, '-');
        text::lemma_split_unique(dx1, dx2, dy1, dy2, '-');
        lemma_same_numbers(z1, x1, y1, z2, x2, y2);
    }
    let (t1, t2) = (url_tail(z1, x1, y1), url_tail(z2, x2, y2));
    if base_url + t1 == base_url + t2 {
        let n = base_url.len() as int;
        assert(t1 =~= (base_url + t1).skip(n));
        assert(t2 =~= (base_url + t2).skip(n));
        let (e1, e2) = (dy1.push('.') + "pbf"@, dy2.push('.') + "pbf"@);
        text::lemma_split_unique(dz1, dz2, dx1.push('/') + e1, dx2.push('/') + e2, '/');
        text::lemma_split_unique(dx1, dx2, e1, e2, '/');
        text::lemma_split_unique(dy1, dy2, "pbf"@, "pbf"@, '.');
        lemma_same_numbers(z1, x1, y1, z2, x2, y2);
    }
    let (f1, f2) = (tile_file(dir, z1, x1, y1), tile_file(dir, z2, x2, y2));
    if f1 == f2 {
        let n = dir.parts.len() as int;
        assert(f1.parts[n] == dz1 && f2.parts[n] == dz2);
        assert(f1.parts[n + 1] == file_name(x1, y1) && f2.parts[n + 1] == file_name(x2, y2));
        let (e1, e2) = (dy1.push('.') + "pbf"@, dy2.push('.') + "pbf"@);
        text::lemma_split_unique(dx1, dx2, e1, e2, '-');
        text::lemma_split_unique(dy1, dy2, "pbf"@, "pbf"@, '.');
        lemma_same_numbers(z1, x1, y1, z2, x2, y2);
    }
}

proof fn lemma_same_numbers(z1: u32, x1: u32, y1: u32, z2: u32, x2: u32, y2: u32)
    requires
        text::decimal(z1 as nat) == text::decimal(z2 as nat),
        text::decimal(x1 as nat) == text::decimal(x2 as nat),
        text::decimal(y1 as nat) == text::decimal(y2 as nat),
    ensures
        (z1, x1, y1) == (z2, x2, y2),
{
    text::lemma_decimal_injective(z1 as nat, z2 as nat);
    text::lemma_decimal_injective(x1 as nat, x2 as nat);
    text::lemma_decimal_injective(y1 as nat, y2 as nat);
}

/// A tile whose content came in is found in memory, with that content.
pub proof fn law_received_tile_is_found(s: StoreSpec, z: u32, x: u32, y: u32, content: Seq<u8>)
    ensures
        s.received(z, x, y, Some(content)).lookup(z, x, y) == LookupSpec::Cached(content),
{
}

/// A tile that comes in changes what is found of another only if memory was full and the other
/// was the one that it had held longest.
pub proof fn law_other_tiles_stay(
    s: StoreSpec,
    z: u32,
    x: u32,
    y: u32,
    content: Option<Seq<u8>>,
    oz: u32,
    ox: u32,
    oy: u32,
)
    requires
        s.wf(),
        (z, x, y) != (oz, ox, oy),
        s.order.len() < MEM_CACHE_MAX || cache_name(oz, ox, oy) != s.order[0],
    ensures
        s.received(z, x, y, content).lookup(oz, ox, oy) == s.lookup(oz, ox, oy),
{
    law_tiles_have_their_own_names(s.base_url, arbitrary(), z, x, y, oz, ox, oy);
}

/// A tile that was kept in its file is read back as it was, unless its content itself starts like
/// a gzip file.
pub proof fn law_kept_tile_is_read_back(s: StoreSpec, z: u32, x: u32, y: u32, body: Seq<u8>)
    requires
        decoded(body) is Some,
        !gzip_marked(decoded(body)->0),
    ensures
        ({
            let content = decoded(body)->0;
            &&& decoded(content) == Some(content)
            &&& s.received(z, x, y, decoded(content)) == s.received(z, x, y, decoded(body))
        }),
{
}

/// A tile that is waited for: one at hand needs no request, and what is at hand is found by the
/// next lookup. Another is requested at its address, and nothing changes before the reply. A reply
/// with a content that can be had is found by the next lookup, and without one everything is as it
/// was.
pub proof fn law_waiting_for_a_tile(
    s: StoreSpec,
    z: u32,
    x: u32,
    y: u32,
    file: Option<Seq<u8>>,
    reply: Option<Seq<u8>>,
)
    ensures
        ({
            let (t, need) = s.waited_for(z, x, y, file);
            let after = t.received(z, x, y, decoded_if_any(reply));
            &&& s.lookup(z, x, y) matches LookupSpec::Cached(c) ==> t == s && need
                == NeedSpec::AtHand(c)
            &&& match need {
                NeedSpec::AtHand(c) => {
                    &&& t.lookup(z, x, y) == LookupSpec::Cached(c)
                    &&& s.lookup(z, x, y) == LookupSpec::Cached(c) || decoded_if_any(file) == Some(
                        c,
                    )
                },
                NeedSpec::Request(url) => {
                    &&& t == s
                    &&& url == s.base_url + url_tail(z, x, y)
                    &&& !(s.lookup(z, x, y) is Cached)
                    &&& decoded_if_any(file) is None
                    &&& match decoded_if_any(reply) {
                        Some(c) => after.lookup(z, x, y) == LookupSpec::Cached(c),
                        None => after == s,
                    }
                },
            }
        }),
{
}

/// A tile whose file gave its content is not requested: it is in memory from then on.
pub proof fn law_tile_with_a_file_is_not_requested(
    s: StoreSpec,
    z: u32,
    x: u32,
    y: u32,
    file: Seq<u8>,
)
    requires
        decoded(file) is Some,
    ensures
        ({
            let t = s.received(z, x, y, decoded(file));
            t.requested(z, x, y) == (t, None::<Seq<char>>)
        }),
{
}

/// Memory never holds more tiles than it may.
pub proof fn law_memory_is_bounded(s: StoreSpec)
    requires
        s.wf(),
    ensures
        s.tiles.dom().finite(),
        s.tiles.len() <= MEM_CACHE_MAX,
{
    s.order.unique_seq_to_set();
    assert(s.tiles.dom() =~= s.order.to_set());
}

/// A tile is requested at most once at a time: after it was wanted it is not requested again
/// before the request is over, whatever other tiles are wanted or come in meanwhile.
pub proof fn law_requested_once_at_a_time(
    s: StoreSpec,
    z: u32,
    x: u32,
    y: u32,
    oz: u32,
    ox: u32,
    oy: u32,
    content: Option<Seq<u8>>,
)
    requires
        (z, x, y) != (oz, ox, oy),
    ensures
        ({
            let t = s.requested(z, x, y).0;
            &&& t.requested(z, x, y) == (t, None::<Seq<char>>)
            &&& s.pending.contains(cache_name(z, x, y)) ==> {
                &&& s.requested(oz, ox, oy).0.requested(z, x, y).1 is None
                &&& s.received(oz, ox, oy, content).requested(z, x, y).1 is None
                &&& s.released(oz, ox, oy).requested(z, x, y).1 is None
            }
        }),
{
    law_tiles_have_their_own_names(s.base_url, arbitrary(), z, x, y, oz, ox, oy);
}

/// A tile in memory is not requested, and a download that is over leaves the tile in memory, or
/// free to be requested again if it failed.
pub proof fn law_request_ends(s: StoreSpec, z: u32, x: u32, y: u32, content: Option<Seq<u8>>)
    requires
        s.requested(z, x, y).1 is Some,
    ensures
        ({
            let t = s.requested(z, x, y).0.received(z, x, y, content).released(z, x, y);
            match content {
                Some(c) => t.lookup(z, x, y) == LookupSpec::Cached(c) && t.requested(z, x, y) == (
                    t,
                    None::<Seq<char>>,
                ),
                None => t == s && t.requested(z, x, y) == s.requested(z, x, y),
            }
        }),
{
    let name = cache_name(z, x, y);
    assert(s.pending.insert(name).remove(name) =~= s.pending);
}

/// The address of every tile has the server's address before a slash: an address with a slash at
/// its end is taken as it is, and another gets one.
pub proof fn law_slash_is_added_once(url: Seq<char>)
    ensures
        with_slash(url).len() > 0,
        with_slash(url).last() == '/',
        with_slash(with_slash(url)) == with_slash(url),
{
    reveal_strlit("/");
}

} // verus!
