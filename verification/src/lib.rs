//! Core of a session-tracking UDP echo/heartbeat service.
//!
//! The service binds one UDP socket, echoes every received datagram back to
//! its sender, and once per interval sends a fixed heartbeat datagram to the
//! most recently seen peer. This crate holds the verified core: the peer
//! session tracker and the decision logic of the echo/heartbeat loop. The
//! socket itself, and the clock, live with the caller, which feeds events and
//! timestamps in and carries the returned datagrams out.

use vstd::prelude::*;

pub mod endpoint;
pub mod laws;
pub mod service;
pub mod session;

verus! {

/// Top-level mode of the game client that consumes this service: either in
/// play or in the menu.
#[derive(Clone, Copy, PartialEq, Eq, Structural, Debug, Hash)]
pub enum GameState {
    Game,
    Menu,
}

impl Default for GameState {
    /// The client starts in play.
    fn default() -> (s: Self)
        ensures
            s == GameState::Game,
    {
        GameState::Game
    }
}

} // verus!
