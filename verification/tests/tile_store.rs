use flate2::write::GzEncoder;
use flate2::Compression;
use openrustmap::config::{TileSourceConfig, DEFAULT_TILE_BASE_URL};
use openrustmap::paths::FilePath;
use openrustmap::tile_source::{
    cache_key, content_of, is_gzip, maybe_decompress_gzip, Arrival, TileError, TileLookup,
    TileNeed, TileSource, MEM_CACHE_MAX,
};
use std::io::Write;
use std::path::PathBuf;

fn config(base_url: &str, dir: Option<&str>) -> TileSourceConfig {
    TileSourceConfig { base_url: base_url.to_string(), cache_dir: dir.map(PathBuf::from) }
}

fn store(dir: Option<&str>) -> TileSource {
    let cfg = config("https://tiles.example/", dir);
    let dir = cfg.cache_dir_or(None);
    TileSource::with_cache_dir(&cfg, dir, true)
}

fn path(root: &str, parts: &[&str]) -> FilePath {
    FilePath {
        root: PathBuf::from(root),
        parts: parts.iter().map(|p| p.to_string()).collect(),
    }
}

fn gzip(bytes: &[u8]) -> Vec<u8> {
    let mut e = GzEncoder::new(Vec::new(), Compression::default());
    e.write_all(bytes).unwrap();
    e.finish().unwrap()
}

#[test]
fn default_config_names_the_default_server() {
    let cfg = TileSourceConfig::default();
    assert_eq!(cfg.base_url, "https://mapscii.me/");
    assert_eq!(DEFAULT_TILE_BASE_URL, "https://mapscii.me/");
    assert!(cfg.cache_dir.is_none());
}

#[test]
fn configured_directory_comes_first() {
    let cfg = config("u", Some("/tmp/tiles"));
    assert_eq!(cfg.resolved_cache_dir(), Some(path("/tmp/tiles", &[])));
    assert_eq!(cfg.cache_dir_or(Some(PathBuf::from("/c"))), Some(path("/tmp/tiles", &[])));
    let cfg = config("u", None);
    assert_eq!(
        cfg.cache_dir_or(Some(PathBuf::from("/c"))),
        Some(path("/c", &["openrustmap"]))
    );
    assert_eq!(cfg.cache_dir_or(None), None);
}

#[test]
fn system_cache_directory_is_asked_for() {
    let cfg = config("u", None);
    let expected = directories::BaseDirs::new()
        .map(|d| FilePath::new(d.cache_dir().to_path_buf()).entry("openrustmap"));
    assert_eq!(cfg.resolved_cache_dir(), expected);
}

#[test]
fn parents_are_one_step_up() {
    let p = path("/c", &["tiles", "4", "8-5.pbf"]);
    assert_eq!(p.parent(), Some(path("/c", &["tiles", "4"])));
    assert_eq!(path("/c", &[]).parent(), None);
}

#[test]
fn base_url_ends_in_one_slash() {
    let with = TileSource::new(&config("https://a/", Some("/t")));
    let without = TileSource::new(&config("https://a", Some("/t")));
    assert_eq!(with.tile_url2(4, 8, 5), "https://a/4/8/5.pbf");
    assert_eq!(without.tile_url2(4, 8, 5), "https://a/4/8/5.pbf");
    let empty = TileSource::with_notify(&config("", Some("/t")), true);
    assert_eq!(empty.tile_url2(0, 0, 4294967295), "/0/0/4294967295.pbf");
    assert!(empty.notify);
    assert!(!with.notify);
}

#[test]
fn tiles_have_names_and_files() {
    assert_eq!(cache_key(4, 8, 5), "4-8-5");
    assert_ne!(cache_key(1, 11, 1), cache_key(11, 1, 1));
    let s = store(Some("/c"));
    assert_eq!(s.cache_path(4, 8, 5), Some(path("/c", &["tiles", "4", "8-5.pbf"])));
    assert_eq!(store(None).cache_path(4, 8, 5), None);
}

#[test]
fn gzip_is_inflated_and_the_rest_passes_through() {
    let plain = b"layers".to_vec();
    let packed = gzip(&plain);
    assert!(is_gzip(&packed));
    assert_eq!(maybe_decompress_gzip(packed), Ok(plain.clone()));
    assert!(!is_gzip(&plain));
    assert_eq!(maybe_decompress_gzip(plain.clone()), Ok(plain));
    assert_eq!(maybe_decompress_gzip(vec![0x1f]), Ok(vec![0x1f]));
    assert_eq!(maybe_decompress_gzip(Vec::new()), Ok(Vec::new()));
}

#[test]
fn truncated_gzip_is_an_error() {
    let mut packed = gzip(b"some longer tile content");
    packed.truncate(packed.len() - 9);
    assert_eq!(maybe_decompress_gzip(packed), Err(TileError::Decompress));
    assert_eq!(maybe_decompress_gzip(vec![0x1f, 0x8b]), Err(TileError::Decompress));
    assert_eq!(TileError::Decompress.message(), "decompress gzip tile");
}

#[test]
fn content_depends_on_the_mark() {
    let marked = vec![0x1f, 0x8b, 1];
    assert_eq!(content_of(marked.clone(), Some(vec![7])), Ok(vec![7]));
    assert_eq!(content_of(marked, None), Err(TileError::Decompress));
    assert_eq!(content_of(vec![1, 2], None), Ok(vec![1, 2]));
    assert_eq!(content_of(vec![1, 2], Some(vec![7])), Ok(vec![1, 2]));
}

#[test]
fn stored_tiles_are_found() {
    let mut s = store(Some("/c"));
    assert_eq!(
        s.try_get_tile_bytes(4, 8, 5),
        TileLookup::OnDisk(path("/c", &["tiles", "4", "8-5.pbf"]))
    );
    assert_eq!(store(None).try_get_tile_bytes(4, 8, 5), TileLookup::Absent);
    s.store_tile(4, 8, 5, &vec![1, 2, 3]);
    assert_eq!(s.try_get_tile_bytes(4, 8, 5), TileLookup::Cached(vec![1, 2, 3]));
    s.store_tile(4, 8, 5, &vec![4]);
    assert_eq!(s.try_get_tile_bytes(4, 8, 5), TileLookup::Cached(vec![4]));
    assert_eq!(
        s.try_get_tile_bytes(4, 8, 6),
        TileLookup::OnDisk(path("/c", &["tiles", "4", "8-6.pbf"]))
    );
}

#[test]
fn files_are_read_into_memory() {
    let mut s = store(None);
    assert_eq!(s.tile_read(1, 0, 0, None), None);
    assert_eq!(s.tile_read(1, 0, 0, Some(vec![0x1f, 0x8b, 0])), None);
    assert_eq!(s.try_get_tile_bytes(1, 0, 0), TileLookup::Absent);
    assert_eq!(s.tile_read(1, 0, 0, Some(gzip(b"abc"))), Some(b"abc".to_vec()));
    assert_eq!(s.try_get_tile_bytes(1, 0, 0), TileLookup::Cached(b"abc".to_vec()));
}

#[test]
fn fetched_tiles_are_kept_unless_broken() {
    let mut s = store(None);
    assert_eq!(s.tile_fetched(1, 0, 1, vec![5]), Ok(vec![5]));
    assert_eq!(s.try_get_tile_bytes(1, 0, 1), TileLookup::Cached(vec![5]));
    assert_eq!(s.tile_fetched(1, 1, 1, vec![0x1f, 0x8b]), Err(TileError::Decompress));
    assert_eq!(s.try_get_tile_bytes(1, 1, 1), TileLookup::Absent);
}

#[test]
fn kept_tiles_are_read_back() {
    let mut s = store(Some("/c"));
    let kept = s.tile_arrived(2, 1, 1, Some(gzip(b"layers"))).unwrap().content;
    let mut later = store(Some("/c"));
    assert_eq!(later.tile_read(2, 1, 1, Some(kept.clone())), Some(kept));
    let twice = s.tile_arrived(2, 1, 2, Some(gzip(&gzip(b"layers")))).unwrap().content;
    assert_eq!(twice, gzip(b"layers"));
    assert_eq!(later.tile_read(2, 1, 2, Some(twice)), Some(b"layers".to_vec()));
}

#[test]
fn waiting_for_a_tile() {
    let mut s = store(Some("/c"));
    let url = TileNeed::Request("https://tiles.example/3/1/2.pbf".to_string());
    assert_eq!(s.get_tile_blocking(3, 1, 2, None), url);
    assert_eq!(s.get_tile_blocking(3, 1, 2, Some(vec![0x1f, 0x8b])), url);
    assert_eq!(s.tile_fetched(3, 1, 2, vec![0x1f, 0x8b]), Err(TileError::Decompress));
    assert_eq!(s.mem_cache.len(), 0);
    assert_eq!(s.tile_fetched(3, 1, 2, gzip(b"net")), Ok(b"net".to_vec()));
    let at_hand = TileNeed::AtHand(b"net".to_vec());
    assert_eq!(s.get_tile_blocking(3, 1, 2, Some(vec![7])), at_hand);
    assert_eq!(s.get_tile_blocking(3, 1, 3, Some(vec![7])), TileNeed::AtHand(vec![7]));
    assert_eq!(s.try_get_tile_bytes(3, 1, 3), TileLookup::Cached(vec![7]));
}

#[test]
fn tiles_with_a_file_are_not_requested() {
    let mut s = store(Some("/c"));
    assert_eq!(s.tile_read(3, 1, 2, Some(vec![7])), Some(vec![7]));
    assert_eq!(s.request_tile(3, 1, 2), None);
    assert_eq!(s.tile_read(3, 1, 3, Some(vec![0x1f, 0x8b])), None);
    assert!(s.request_tile(3, 1, 3).is_some());
}

#[test]
fn memory_forgets_one_tile_when_full() {
    let mut s = store(None);
    for x in 0..(MEM_CACHE_MAX as u32) {
        s.store_tile(9, x, 0, &vec![1]);
    }
    assert_eq!(s.mem_cache.len(), 256);
    s.store_tile(9, 300, 0, &vec![2]);
    assert_eq!(s.mem_cache.len(), 256);
    assert_eq!(s.try_get_tile_bytes(9, 300, 0), TileLookup::Cached(vec![2]));
    assert_eq!(s.try_get_tile_bytes(9, 0, 0), TileLookup::Absent);
    for x in 1..256 {
        assert_eq!(s.try_get_tile_bytes(9, x, 0), TileLookup::Cached(vec![1]));
    }
}

#[test]
fn tiles_are_requested_once_at_a_time() {
    let mut s = store(Some("/c"));
    let url = Some("https://tiles.example/4/8/5.pbf".to_string());
    assert_eq!(s.request_tile(4, 8, 5), url);
    assert_eq!(s.request_tile(4, 8, 5), None);
    assert!(s.request_tile(4, 8, 6).is_some());
    assert_eq!(s.tile_arrived(4, 8, 5, None), None);
    assert_eq!(s.request_tile(4, 8, 5), None);
    s.release_request(4, 8, 5);
    assert_eq!(s.request_tile(4, 8, 5), url);
    assert_eq!(
        s.tile_arrived(4, 8, 5, Some(gzip(b"xyz"))),
        Some(Arrival {
            content: b"xyz".to_vec(),
            file: Some(path("/c", &["tiles", "4", "8-5.pbf"])),
            notify: true,
        })
    );
    s.release_request(4, 8, 5);
    assert_eq!(s.request_tile(4, 8, 5), None);
    assert_eq!(s.try_get_tile_bytes(4, 8, 5), TileLookup::Cached(b"xyz".to_vec()));
}
