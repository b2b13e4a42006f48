//! A mail-delivery plugin library: it bridges a host mail-transfer engine's
//! per-message delivery callback to an external delivery service reached over
//! a remote-procedure-call channel.
//!
//! The library holds the verified logic: the startup-configuration parser,
//! the runtime-supervisor sizing and write-once initialization guard, and the
//! delivery pipeline, a state machine that sequences the per-attempt reads,
//! the dial, the remote call, and the exactly-once outcome report.

use vstd::prelude::*;

pub mod config;
pub mod lifecycle;
pub mod outcome;
pub mod pipeline;

verus! {

/// The plugin protocol version this library implements for the host.
pub const PLUGIN_VERSION: u32 = 5;

/// The host's version entry point: a fixed protocol version constant, with
/// no side effects and no failure mode.
pub fn plugin_version() -> (v: u32)
    ensures
        v == PLUGIN_VERSION,
{
    PLUGIN_VERSION
}

} // verus!
