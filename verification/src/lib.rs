//! Decision engine for automated drafting in a team-based multiplayer game.
//!
//! The library interprets draft-session snapshots delivered by a game client,
//! resolves them against configured ban/pick preference lists, and decides
//! which single submission (ban, pick, or tentative pre-pick) to make next.
//! All transport, process discovery and configuration parsing live outside the
//! library; everything here is pure logic over plain values, verified by Verus.

pub mod engine;
pub mod facts;
pub mod laws;
pub mod prefs;
pub mod resolve;
pub mod snapshot;
pub mod state;
pub mod table;
