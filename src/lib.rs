//! Synchronized lyrics tracking: the state that follows a remote player,
//! the event fold that feeds the display, and the small pure pieces around it.
pub mod lyrics;
pub mod event;
pub mod tracker;
pub mod dispatcher;
pub mod identity;
pub mod config;
pub mod info;
pub mod callback;
pub mod romanize;
pub mod view;
