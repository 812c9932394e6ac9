//! A verified core for a small HTTP fan-out server.
//!
//! The library holds everything the server decides and computes: building the
//! upstream URLs, decoding the two upstream JSON payloads, stepping the
//! two-fetch `double` handler, and routing inbound requests to a response
//! plan. The surrounding binary performs the network calls and hands the
//! results back as plain values.

pub mod config;
pub mod decode;
pub mod handlers;
mod json;
pub mod laws;
pub mod router;
pub mod session;
pub mod urls;
