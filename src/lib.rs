//! Core of a terminal database explorer: focus routing between panes, the
//! store that applies the outcomes of background queries, and a scrolling
//! viewport over result sets larger than the screen.
pub mod application;
pub mod components;
pub mod config;
pub mod events;
pub mod log;
pub mod sql;
pub mod utils;
