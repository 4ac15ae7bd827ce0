//! A terminal chat client and its relay server, with the decisions of both
//! (input editing, history, connection handling, message framing and relay)
//! written as verified functions.

pub mod text;
pub mod network;
pub mod app;
pub mod server;
