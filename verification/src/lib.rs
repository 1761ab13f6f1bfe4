//! A terminal world map with a radio popup: its drawing, its tile store, its layouts and its
//! state machines.
//!
//! Everything here computes on plain values. Reading files, making requests, playing sound and
//! talking to the terminal are left to the host, which does what it is asked to do and reports
//! what came of it.

pub mod text;
pub mod geometry;
pub mod input;
pub mod draw;
pub mod braille;
pub mod line;
pub mod tiles;
pub mod frame;
pub mod paths;
pub mod config;
pub mod tile_source;
pub mod plugin;
pub mod popup_model;
pub mod popup;
pub mod stream;
pub mod player;
pub mod ring;
pub mod settings;
pub mod layout;
pub mod app_model;
pub mod application;
pub mod terminal_restore;
pub mod text_laws;
pub mod map_laws;
pub mod store_laws;
pub mod radio_laws;
pub mod app_laws;
pub mod sound_laws;
