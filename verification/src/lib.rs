//! Session-driven upload throttling for a torrent client.
//!
//! The library watches a media server's count of active playback sessions
//! and derives the upload limit a torrent client should run under: any
//! active session caps the upload at a fixed ceiling, no session lifts the
//! cap. Its heart is the control loop in [`control`]: an authenticated,
//! self-healing polling cycle that logs in, samples, applies the derived
//! limit, and classifies every failure into retry, re-authenticate, or
//! fatal. The loop is a state machine from results to actions; a thin
//! driver owns the network and the clock, performs each action, and feeds
//! the outcome back.

pub mod config;
pub mod control;
pub mod errors;
pub mod loglevel;
pub mod numerals;
pub mod requests;
pub mod sampler;
pub mod session;
pub mod throttle;
