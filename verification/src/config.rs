//! Where tiles come from and where they are kept.

use crate::paths::{self, system_cache_dir, FilePath};
use crate::text::owned;
use std::path::PathBuf;
use vstd::prelude::*;

verus! {

/// The tile server that is used unless the configuration names another.
pub const DEFAULT_TILE_BASE_URL: &'static str = "https://mapscii.me/";

/// The tile server, and where its tiles are kept.
#[derive(Debug)]
pub struct TileSourceConfig {
    /// Vector tile base URL, to which `{z}/{x}/{y}.pbf` is appended.
    pub base_url: String,
    /// Local directory for downloaded tiles, in place of the user's cache directory.
    pub cache_dir: Option<PathBuf>,
}

impl Clone for TileSourceConfig {
    fn clone(&self) -> (r: Self)
        ensures
            r == *self,
    {
        TileSourceConfig {
            base_url: self.base_url.clone(),
            cache_dir: match &self.cache_dir {
                Some(d) => Some(d.clone()),
                None => None,
            },
        }
    }
}

impl Default for TileSourceConfig {
    fn default() -> (r: Self)
        ensures
            r.base_url@ == DEFAULT_TILE_BASE_URL@,
            r.cache_dir is None,
    {
        TileSourceConfig { base_url: owned(DEFAULT_TILE_BASE_URL), cache_dir: None }
    }
}

impl TileSourceConfig {
    /// The configured directory, or else `openrustmap` below the user's cache directory.
    pub open spec fn cache_dir_with(self, system: Option<PathBuf>) -> Option<paths::PathSpec> {
        match (self.cache_dir, system) {
            (Some(d), _) => Some(paths::dir(d)),
            (None, Some(d)) => Some(paths::dir(d).entry("openrustmap"@)),
            (None, None) => None,
        }
    }

    /// The configured directory, or else `openrustmap` below `system`.
    pub fn cache_dir_or(&self, system: Option<PathBuf>) -> (r: Option<FilePath>)
        ensures
            paths::path_view(r) == self.cache_dir_with(system),
    {
        match &self.cache_dir {
            Some(d) => Some(FilePath::new(d.clone())),
            None => match system {
                Some(d) => Some(FilePath::new(d).entry("openrustmap")),
                None => None,
            },
        }
    }

    /// The directory for downloaded tiles, if there is one: the configured directory, or else
    /// `openrustmap` below the user's cache directory.
    pub fn resolved_cache_dir(&self) -> (r: Option<FilePath>)
        ensures
            exists|system: Option<PathBuf>| paths::path_view(r) == self.cache_dir_with(system),
            self.cache_dir matches Some(d) ==> paths::path_view(r) == Some(paths::dir(d)),
    {
        self.cache_dir_or(system_cache_dir())
    }
}

} // verus!
