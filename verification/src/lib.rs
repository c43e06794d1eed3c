//! The decision logic of a small QUIC trading game server: framing of
//! messages, password checks, the per-request conversation with the
//! database, and the per-address connection limit.

pub mod connections;
pub mod constants;
pub mod db;
pub mod laws;
pub mod clock;
pub mod messages;
pub mod server;
pub mod util;
