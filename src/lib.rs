//! Resolves the focused window of an X11 desktop to a display label through a
//! user-configured rule table, and drives the watch loop that reports it.

pub mod capitalize;
pub mod filter;
pub mod identifier;
pub mod resolver;
pub mod config;
pub mod watch;
