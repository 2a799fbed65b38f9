//! Terminal dashboard core for a fleet of managed web sites.
//!
//! The crate holds the application state, the key-driven transition engine,
//! the rule that turns terminal input into events, and the text that each
//! screen shows. All of it is plain data in and plain data out: the loop that
//! owns the terminal and talks to the control plane lives outside and drives
//! the engine one step at a time.

pub mod api;
pub mod app;
pub mod config;
pub mod events;
pub mod keys;
pub mod model;
pub mod render;
pub mod screen;
pub mod text;
pub mod theorems;
pub mod time;
