//! Core of a four-lane rhythm game: notes fall down fixed lanes toward a
//! target line, and a press on a lane's bound key is classified into a
//! judgment tier by how far the lane's note sits from that line.
//!
//! The crate holds the game rules only: lane configuration, the live-note
//! store, per-step motion, press-edge detection, the judgment classifier,
//! the score/combo ledger, and note lifecycle (spawn, judge, despawn).
//! Rendering and window plumbing live outside it.

pub mod despawn;
pub mod input;
pub mod judge;
pub mod judgment;
pub mod lane;
pub mod note;
pub mod score;
pub mod sim;
pub mod spawn;
