//! What the tile store keeps and gives back, and where files lie.

use crate::config::{TileSourceConfig, DEFAULT_TILE_BASE_URL};
use crate::paths::{self, FilePath, PathSpec};
use crate::settings;
use crate::terminal_restore::{self, RestoreStep};
use crate::text;
use crate::tile_source::{
    self, LookupSpec, NeedSpec, StoreSpec, TileError, TileLookup, TileNeed, TileSource,
};
use std::path::PathBuf;
use vstd::prelude::*;

verus! {

// ---------------------------------------------------------------------------
// The content of a tile
// ---------------------------------------------------------------------------

/// Whatever its length, a body that starts with the two gzip bytes stands for what it inflates to,
/// or for nothing where it does not inflate. Any other body stands for itself.
pub proof fn law_gzip_bodies_are_inflated(raw: Seq<u8>)
    ensures
        raw.len() >= 2 && raw[0] == 0x1f && raw[1] == 0x8b ==> tile_source::decoded(raw)
            == tile_source::gunzipped(raw),
        raw.len() < 2 || raw[0] != 0x1f || raw[1] != 0x8b ==> tile_source::decoded(raw) == Some(raw),
        tile_source::decoded_if_any(Some(raw)) == tile_source::decoded(raw),
        tile_source::decoded_if_any(None) is None,
{
}

/// Given what its bytes inflate to, the content of a tile depends on its first two bytes alone.
pub proof fn law_first_two_bytes_decide(a: Seq<u8>, b: Seq<u8>, inflated: Option<Seq<u8>>)
    requires
        a.len() >= 2,
        b.len() >= 2,
        a[0] == b[0],
        a[1] == b[1],
    ensures
        a[0] == 0x1f && a[1] == 0x8b ==> tile_source::tile_content(a, inflated) == inflated
            && tile_source::tile_content(b, inflated) == inflated,
        !(a[0] == 0x1f && a[1] == 0x8b) ==> tile_source::tile_content(a, inflated) == Some(a)
            && tile_source::tile_content(b, inflated) == Some(b),
{
}

/// A gzip body that came in is kept as what it inflates to and found so under the tile's name; one
/// that does not inflate changes nothing. Any other body is kept as it is.
pub proof fn law_received_bodies_are_kept(s: StoreSpec, z: u32, x: u32, y: u32, raw: Seq<u8>)
    ensures
        ({
            let t = s.received(z, x, y, tile_source::decoded(raw));
            let marked = raw.len() >= 2 && raw[0] == 0x1f && raw[1] == 0x8b;
            &&& marked && tile_source::gunzipped(raw) is None ==> t == s
            &&& marked && tile_source::gunzipped(raw) is Some ==> t.lookup(z, x, y)
                == LookupSpec::Cached(tile_source::gunzipped(raw)->0)
            &&& !marked ==> t.lookup(z, x, y) == LookupSpec::Cached(raw)
        }),
{
}

/// Results and optional bytes are what they hold.
pub proof fn law_contents_are_what_they_hold(v: Vec<u8>, e: TileError)
    ensures
        tile_source::content_result(Ok(v)) == Some(v@),
        tile_source::content_result(Err(e)) is None,
        tile_source::bytes_view(Some(v)) == Some(v@),
        tile_source::bytes_view(None) is None,
{
}

// ---------------------------------------------------------------------------
// Names
// ---------------------------------------------------------------------------

/// The three names of a tile spell out its zoom level, its column and its row: in memory with
/// hyphens, at the server with slashes, and on disk in a directory for its zoom level.
pub proof fn law_names_spell_out_the_tile(s: StoreSpec, dir: PathSpec, z: u32, x: u32, y: u32)
    ensures
        ({
            let (zt, xt, yt) = (
                text::decimal(z as nat),
                text::decimal(x as nat),
                text::decimal(y as nat),
            );
            let file = tile_source::tile_file(dir, z, x, y);
            &&& tile_source::cache_name(z, x, y) == zt + "-"@ + xt + "-"@ + yt
            &&& tile_source::url_tail(z, x, y) == zt + "/"@ + xt + "/"@ + yt + ".pbf"@
            &&& tile_source::file_name(x, y) == xt + "-"@ + yt + ".pbf"@
            &&& file.root == dir.root
            &&& file.parts.len() == dir.parts.len() + 2
            &&& file.parts.take(dir.parts.len() as int) == dir.parts
            &&& file.parts[dir.parts.len() as int] == zt
            &&& file.parts.last() == xt + "-"@ + yt + ".pbf"@
        }),
{
    let file = tile_source::tile_file(dir, z, x, y);
    assert(file.parts.take(dir.parts.len() as int) =~= dir.parts);
}

/// An address keeps all that it says, and gets a slash at its end only where it has none.
pub proof fn law_addresses_end_in_a_slash(url: Seq<char>)
    ensures
        tile_source::with_slash(url).last() == '/',
        url.is_prefix_of(tile_source::with_slash(url)),
        url.len() > 0 && url.last() == '/' ==> tile_source::with_slash(url) == url,
        url.len() == 0 || url.last() != '/' ==> tile_source::with_slash(url) == url.push('/'),
{
    reveal_strlit("/");
    assert(url + "/"@ =~= url.push('/'));
}

// ---------------------------------------------------------------------------
// The store
// ---------------------------------------------------------------------------

/// A new store holds nothing and waits for nothing; its files go to `tiles` below its directory.
pub proof fn law_new_stores_are_empty(url: Seq<char>, dir: Option<PathSpec>, notify: bool)
    ensures
        ({
            let s = tile_source::fresh(url, dir, notify);
            &&& s.wf()
            &&& s.base_url == tile_source::with_slash(url)
            &&& forall|k: Seq<char>| !s.tiles.contains_key(k) && !s.pending.contains(k)
            &&& s.order.len() == 0
            &&& s.notify == notify
            &&& dir is None ==> s.cache_dir is None
            &&& dir matches Some(d) ==> s.cache_dir matches Some(c) && c.root == d.root && c.parts
                == d.parts.push("tiles"@)
        }),
{
}

/// What a lookup says of a tile: its content where memory has it, else the file to look at where
/// files are kept, else nothing.
pub proof fn law_lookups(s: StoreSpec, z: u32, x: u32, y: u32)
    ensures
        ({
            let name = tile_source::cache_name(z, x, y);
            &&& s.tiles.contains_key(name) ==> s.lookup(z, x, y) == LookupSpec::Cached(s.tiles[name])
            &&& !s.tiles.contains_key(name) && s.cache_dir is None ==> s.lookup(z, x, y)
                == LookupSpec::Absent
            &&& !s.tiles.contains_key(name) && s.cache_dir is Some ==> s.lookup(z, x, y)
                == LookupSpec::OnDisk(tile_source::tile_file(s.cache_dir->0, z, x, y))
        }),
{
}

/// Putting a tile into memory changes that tile, and forgets the tile that was there longest
/// where memory was full; all other tiles, what is on its way and the configuration stay. A tile
/// that was there already keeps its turn, and another goes to the end.
pub proof fn law_storing_changes_little(
    s: StoreSpec,
    z: u32,
    x: u32,
    y: u32,
    content: Seq<u8>,
    other: Seq<char>,
)
    requires
        s.wf(),
    ensures
        ({
            let name = tile_source::cache_name(z, x, y);
            let t = s.stored(z, x, y, content);
            let full = s.order.len() == 256;
            &&& t.wf()
            &&& t.tiles.contains_pair(name, content)
            &&& other != name && !(full && other == s.order[0]) ==> (t.tiles.contains_key(other)
                <==> s.tiles.contains_key(other)) && (s.tiles.contains_key(other) ==> t.tiles[other]
                == s.tiles[other])
            &&& full && other == s.order[0] && other != name ==> !t.tiles.contains_key(other)
            &&& !full && s.tiles.contains_key(name) ==> t.order == s.order
            &&& !full && !s.tiles.contains_key(name) ==> t.order == s.order.push(name)
            &&& full && (!s.tiles.contains_key(name) || name == s.order[0]) ==> t.order
                == s.order.subrange(1, 256).push(name)
            &&& full && s.tiles.contains_key(name) && name != s.order[0] ==> t.order
                == s.order.subrange(1, 256)
            &&& s.order.len() <= 256
            &&& t.pending == s.pending
            &&& t.base_url == s.base_url
            &&& t.cache_dir == s.cache_dir
            &&& t.notify == s.notify
        }),
{
    tile_source::lemma_stored_wf(s, z, x, y, content);
    if s.order.len() == 256 {
        assert(s.order.skip(1) =~= s.order.subrange(1, 256));
        assert(s.order.contains(s.order[0]));
    }
}

/// Waiting for a tile: memory answers first, then its file, inflated where it is gzipped and put
/// into memory; else its address is requested and nothing changes.
pub proof fn law_waiting_step_by_step(
    s: StoreSpec,
    z: u32,
    x: u32,
    y: u32,
    file: Option<Seq<u8>>,
)
    ensures
        ({
            let name = tile_source::cache_name(z, x, y);
            let (t, need) = s.waited_for(z, x, y, file);
            let request = NeedSpec::Request(s.base_url + tile_source::url_tail(z, x, y));
            &&& s.tiles.contains_key(name) ==> t == s && need == NeedSpec::AtHand(s.tiles[name])
            &&& !s.tiles.contains_key(name) && file is None ==> t == s && need == request
            &&& !s.tiles.contains_key(name) && file is Some ==> {
                let raw = file->0;
                if raw.len() >= 2 && raw[0] == 0x1f && raw[1] == 0x8b {
                    match tile_source::gunzipped(raw) {
                        Some(c) => t == s.stored(z, x, y, c) && need == NeedSpec::AtHand(c),
                        None => t == s && need == request,
                    }
                } else {
                    t == s.stored(z, x, y, raw) && need == NeedSpec::AtHand(raw)
                }
            }
        }),
{
}

/// A tile is requested exactly where it is neither in memory nor on its way, from its own address,
/// and is on its way from then on until the request is over. Nothing else changes.
pub proof fn law_requests_and_releases(s: StoreSpec, z: u32, x: u32, y: u32, other: Seq<char>)
    ensures
        ({
            let name = tile_source::cache_name(z, x, y);
            let (t, url) = s.requested(z, x, y);
            let free = !s.tiles.contains_key(name) && !s.pending.contains(name);
            let r = s.released(z, x, y);
            &&& free <==> url is Some
            &&& free ==> url == Some(s.base_url + tile_source::url_tail(z, x, y))
            &&& free ==> t.pending.contains(name)
            &&& !free ==> t == s
            &&& other != name ==> (t.pending.contains(other) <==> s.pending.contains(other))
            &&& t.tiles == s.tiles && t.order == s.order && t.base_url == s.base_url && t.cache_dir
                == s.cache_dir && t.notify == s.notify
            &&& !r.pending.contains(name)
            &&& other != name ==> (r.pending.contains(other) <==> s.pending.contains(other))
            &&& r.tiles == s.tiles && r.order == s.order && r.base_url == s.base_url && r.cache_dir
                == s.cache_dir && r.notify == s.notify
        }),
{
}

/// The store is what its fields say.
pub proof fn law_store_view(s: TileSource, i: int, name: Seq<char>)
    ensures
        s@.base_url == s.base_url@,
        s@.cache_dir is Some <==> s.cache_dir is Some,
        s.cache_dir matches Some(d) ==> s@.cache_dir == Some(d@),
        s@.order.len() == s.order@.len(),
        0 <= i < s.order@.len() ==> s@.order[i] == s.order@[i]@,
        s@.tiles.contains_key(name) <==> s.mem_cache@.contains_key(name),
        s.mem_cache@.contains_key(name) ==> s@.tiles[name] == s.mem_cache@[name]@,
        s@.pending == s.pending@,
        s@.notify == s.notify,
        s.wf() <==> s@.wf(),
{
}

/// The invariant of the store: the names are those of the tiles in memory, each once, and there
/// are at most as many as memory has room for.
pub proof fn law_store_invariant(s: StoreSpec)
    ensures
        s.wf() <==> {
            &&& s.order.len() <= 256
            &&& forall|i: int, j: int| 0 <= i < j < s.order.len() ==> s.order[i] != s.order[j]
            &&& forall|k: Seq<char>| s.tiles.contains_key(k) <==> #[trigger] s.order.contains(k)
        },
{
}

/// The answers of the store are what they hold.
pub proof fn law_answers_are_what_they_hold(v: Vec<u8>, p: FilePath, url: String)
    ensures
        TileLookup::Cached(v)@ == LookupSpec::Cached(v@),
        TileLookup::OnDisk(p)@ == LookupSpec::OnDisk(p@),
        TileLookup::Absent@ == LookupSpec::Absent,
        TileNeed::AtHand(v)@ == NeedSpec::AtHand(v@),
        TileNeed::Request(url)@ == NeedSpec::Request(url@),
{
}

// ---------------------------------------------------------------------------
// Places
// ---------------------------------------------------------------------------

/// A path is its root and its names, and an entry below it has one name more.
pub proof fn law_paths(p: FilePath, root: PathBuf, name: Seq<char>, i: int)
    ensures
        paths::dir(root).root == root,
        paths::dir(root).parts.len() == 0,
        p@.root == p.root,
        p@.parts.len() == p.parts@.len(),
        0 <= i < p.parts@.len() ==> p@.parts[i] == p.parts@[i]@,
        p@.entry(name).root == p.root,
        p@.entry(name).parts.len() == p@.parts.len() + 1,
        p@.entry(name).parts.drop_last() == p@.parts,
        p@.entry(name).parts.last() == name,
        paths::path_view(Some(p)) == Some(p@),
        paths::path_view(None) is None,
{
    assert(p@.entry(name).parts.drop_last() =~= p@.parts);
}

/// Tiles are kept in the configured directory itself, or else in `openrustmap` below the user's
/// cache directory, or else nowhere.
pub proof fn law_where_tiles_are_kept(c: TileSourceConfig, d: PathBuf, system: Option<PathBuf>)
    ensures
        c.cache_dir == Some(d) ==> c.cache_dir_with(system) == Some(
            (PathSpec { root: d, parts: Seq::empty() }),
        ),
        c.cache_dir is None && system == Some(d) ==> c.cache_dir_with(system) == Some(
            (PathSpec { root: d, parts: seq!["openrustmap"@] }),
        ),
        c.cache_dir is None && system is None ==> c.cache_dir_with(system) is None,
        DEFAULT_TILE_BASE_URL@ == "https://mapscii.me/"@,
{
    assert(Seq::<Seq<char>>::empty().push("openrustmap"@) =~= seq!["openrustmap"@]);
}

/// The application's own files lie in `openrustmap` below the user's configuration directory, each
/// under its own name.
pub proof fn law_where_settings_are_kept(d: PathBuf, p: PathSpec, name: Seq<char>)
    ensures
        settings::config_dir_below(Some(d)) == Some(
            (PathSpec { root: d, parts: seq!["openrustmap"@] }),
        ),
        settings::config_dir_below(None) is None,
        settings::entry_below(Some(p), name) == Some(
            (PathSpec { root: p.root, parts: p.parts.push(name) }),
        ),
        settings::entry_below(None, name) is None,
{
    assert(Seq::<Seq<char>>::empty().push("openrustmap"@) =~= seq!["openrustmap"@]);
}

/// The terminal is restored in five steps: the input first, the screen next, and what was written
/// is flushed last.
pub proof fn law_terminal_is_restored_in_order()
    ensures
        ({
            let s = terminal_restore::restore_steps();
            &&& s.len() == 5
            &&& s[0] == RestoreStep::DisableRawMode
            &&& s[1] == RestoreStep::DisableMouseCapture
            &&& s[2] == RestoreStep::LeaveAlternateScreen
            &&& s[3] == RestoreStep::ShowCursor
            &&& s[4] == RestoreStep::Flush
        }),
{
}

} // verus!
