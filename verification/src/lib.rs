//! Authoritative session manager for two-player chess games.
//!
//! A [`registry::State`] owns every game. Seats are claimed with one-time
//! secrets of which only the SHA-256 digest is kept, moves are checked by the
//! rules engine before anything is committed, and every operation either
//! completes or leaves the game as it was.

pub mod engine;
pub mod error;
pub mod history;
pub mod pgn;
pub mod registry;
pub mod resolve;
pub mod session;
pub mod status;
pub mod text;
pub mod token;
