//! Verified core of the termusic terminal user interface: the state of its
//! views, and the decisions they take on key presses and on what the server
//! and the library report.
use vstd::prelude::*;

pub mod config_data;
pub mod config_editor;
pub mod config_ids;
pub mod config_layout;
pub mod database;
pub mod field_keys;
pub mod focus;
pub mod global_keys;
pub mod ids;
pub mod input_states;
pub mod key_config;
pub mod key_editor;
pub mod library;
pub mod library_roots;
pub mod library_tree;
pub mod lyric;
pub mod model;
pub mod playlist;
pub mod playlist_table;
pub mod search;
pub mod select_states;
pub mod startup;
pub mod theme_keys;
pub mod theme_style;

verus! {

} // verus!
