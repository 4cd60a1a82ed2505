//! Core logic of a terminal music player: lyrics parsing and lookup,
//! play queue and shuffle order, server adapters, configuration state and
//! the browsing/navigation model of the user interface.

pub mod text;
pub mod lyrics;
pub mod i18n;
pub mod server;
pub mod player;
pub mod ui;
pub mod store;
pub mod input;
pub mod playback;
pub mod dispatch;
pub mod download;
pub mod panel;
