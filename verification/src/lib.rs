//! Launcher-side implementation of the shared-memory mailbox protocol that
//! hands configuration values to an external game process.
//!
//! The mailbox is a single-slot shared memory region; every outbound message
//! is framed as a little-endian field id, optionally followed by a payload,
//! and each write is followed by a two-semaphore rendezvous so the slot is
//! never overwritten before the peer has consumed it.

pub mod codec;
pub mod config;
pub mod handshake;
pub mod launch;
pub mod listener;
pub mod message;
pub mod paths;
pub mod prefs;
pub mod protocol;
pub mod utf16;
pub mod variant;

use crate::config::Config;
use crate::variant::GameType;
use vstd::prelude::*;

verus! {

/// Everything the launcher decides once at startup and then hands to each
/// step of the message sequence.
#[derive(Debug)]
pub struct Context {
    pub game_to_launch: GameType,
    pub game_lang: String,
    pub use_ffnx: bool,
    pub config: Config,
}

/// Errors surfaced by the launcher's decision logic.
#[derive(Clone, Copy, Debug, PartialEq, Eq, Structural)]
pub enum LauncherError {
    /// No candidate game executable was found.
    NoProcessFound,
    /// More than one candidate game executable was found.
    MultipleProcessesFound,
    /// The configuration file could not be parsed.
    InvalidConfig,
}

/// The process-wide state of the crash handler: a single flag that a first
/// crash trips, so that a crash inside the handler itself is recognized and
/// handled without recursing.
pub struct CrashGuard {
    pub had_exception: bool,
}

impl CrashGuard {
    /// A fresh guard: no crash seen yet.
    pub fn new() -> (g: CrashGuard)
        ensures
            !g.had_exception,
    {
        CrashGuard { had_exception: false }
    }

    /// One handler entry: reports whether this entry is re-entrant (a crash
    /// happened while the handler was already running) and trips the flag
    /// either way.
    pub fn on_exception(&mut self) -> (reentrant: bool)
        ensures
            reentrant == old(self).had_exception,
            final(self).had_exception,
    {
        let r = self.had_exception;
        self.had_exception = true;
        r
    }
}

} // verus!
