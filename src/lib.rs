//! Client core for a long-lived JSON-RPC subprocess: message codec, request
//! correlation, approval handshakes and notification routing, with the
//! decisions proved and the I/O left to the caller.
pub mod approval;
pub mod chat;
pub mod client;
pub mod config;
pub mod json;
pub mod keyed;
pub mod laws;
pub mod message;
pub mod session;
pub mod stream;
pub mod typed;
pub mod types;
