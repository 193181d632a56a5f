//! Connection lifecycle core of a live-stream chat client: room id parsing,
//! the connection state machine with generation-tagged events, the channel
//! that carries those events, and the credentials a fetch produces.

pub mod room;
pub mod fetch;
pub mod state;
pub mod channel;
pub mod config;
pub mod ui;
pub mod laws;
