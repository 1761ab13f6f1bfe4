//! The user's settings.

use crate::paths::{self, system_config_dir, FilePath};
use std::path::PathBuf;
use vstd::prelude::*;

verus! {

/// What the user has chosen.
#[derive(Debug, Clone, Copy, PartialEq, Eq, Structural)]
pub struct AppSettings {
    pub radio_map_enabled: bool,
    /// When the radio popup is opened, it starts in external-player mode.
    pub radio_prefer_external_player: bool,
}

impl Default for AppSettings {
    fn default() -> (r: Self)
        ensures
            r == (AppSettings { radio_map_enabled: true, radio_prefer_external_player: false }),
    {
        AppSettings { radio_map_enabled: true, radio_prefer_external_player: false }
    }
}

/// The directory of the application's own files below the user's configuration directory.
pub open spec fn config_dir_below(system: Option<PathBuf>) -> Option<paths::PathSpec> {
    match system {
        Some(d) => Some(paths::dir(d).entry("openrustmap"@)),
        None => None,
    }
}

/// An entry below an optional directory.
pub open spec fn entry_below(dir: Option<paths::PathSpec>, name: Seq<char>) -> Option<
    paths::PathSpec,
> {
    match dir {
        Some(d) => Some(d.entry(name)),
        None => None,
    }
}

/// The directory of the application's own files below `system`.
pub fn app_config_dir_in(system: Option<PathBuf>) -> (r: Option<FilePath>)
    ensures
        paths::path_view(r) == config_dir_below(system),
{
    match system {
        Some(d) => Some(FilePath::new(d).entry("openrustmap")),
        None => None,
    }
}

/// The directory of the application's own files, if the user has a configuration directory.
pub fn app_config_dir() -> (r: Option<FilePath>)
    ensures
        exists|system: Option<PathBuf>| paths::path_view(r) == config_dir_below(system),
{
    app_config_dir_in(system_config_dir())
}

/// The settings file below a directory.
pub fn settings_path_in(dir: Option<FilePath>) -> (r: Option<FilePath>)
    ensures
        paths::path_view(r) == entry_below(paths::path_view(dir), "settings.toml"@),
{
    match dir {
        Some(d) => Some(d.entry("settings.toml")),
        None => None,
    }
}

/// The settings file, if the user has a configuration directory.
pub fn app_settings_path() -> (r: Option<FilePath>)
    ensures
        exists|system: Option<PathBuf>|
            paths::path_view(r) == entry_below(
                #[trigger] config_dir_below(system),
                "settings.toml"@,
            ),
{
    let dir: Option<FilePath> = app_config_dir();
    let ghost system = choose|system: Option<PathBuf>|
        paths::path_view(dir) == config_dir_below(system);
    let r = settings_path_in(dir);
    assert(paths::path_view(r) == entry_below(config_dir_below(system), "settings.toml"@));
    r
}

/// The plugin directory below a directory.
pub fn plugins_dir_in(dir: Option<FilePath>) -> (r: Option<FilePath>)
    ensures
        paths::path_view(r) == entry_below(paths::path_view(dir), "plugins"@),
{
    match dir {
        Some(d) => Some(d.entry("plugins")),
        None => None,
    }
}

/// The directory that is reserved for plugins, if the user has a configuration directory.
pub fn plugins_dir() -> (r: Option<FilePath>)
    ensures
        exists|system: Option<PathBuf>|
            paths::path_view(r) == entry_below(#[trigger] config_dir_below(system), "plugins"@),
{
    let dir: Option<FilePath> = app_config_dir();
    let ghost system = choose|system: Option<PathBuf>|
        paths::path_view(dir) == config_dir_below(system);
    let r = plugins_dir_in(dir);
    assert(paths::path_view(r) == entry_below(config_dir_below(system), "plugins"@));
    r
}

/// Whether the radio plugin is there: it is compiled in.
pub fn radio_plugin_installed() -> (r: bool)
    ensures
        r,
{
    true
}

/// The settings to start with, given those that were read from the settings file, if any could
/// be: the stored ones, or else the radio menu if its plugin is there. Without the plugin there
/// is no menu, whatever was stored.
pub fn load_settings(radio_installed: bool, stored: Option<AppSettings>) -> (r: AppSettings)
    ensures
        r == (AppSettings {
            radio_map_enabled: radio_installed && match stored {
                Some(s) => s.radio_map_enabled,
                None => true,
            },
            radio_prefer_external_player: match stored {
                Some(s) => s.radio_prefer_external_player,
                None => false,
            },
        }),
{
    let mut s = AppSettings {
        radio_map_enabled: radio_installed,
        radio_prefer_external_player: false,
    };
    if let Some(parsed) = stored {
        s = parsed;
    }
    if !radio_installed {
        s.radio_map_enabled = false;
    }
    s
}

} // verus!
