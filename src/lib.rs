//! The verified core of a safe plugin library for the HexChat IRC client.
//!
//! It keeps the registry of a plugin's live hooks, drives the life of the one plugin instance
//! of the process (loading, unloading, and the deferred release of lazily created values),
//! decides what the callback trampolines hand back to the host, and parses the host's word
//! arrays into typed server events, numeric replies and user strings. The calls into the host
//! itself are made by the bindings around it.
use vstd::prelude::*;

pub mod chan;
pub mod dispatch;
pub mod hook;
pub mod lists;
pub mod mask;
pub mod msg;
pub mod other;
pub mod plugin;
pub mod prefs;
pub mod registry;
pub mod reply;
pub mod server_event;
pub mod text;
pub mod time;

verus! {

} // verus!
