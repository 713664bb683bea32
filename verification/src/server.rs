//! The server side: the WebTransport multiplexer, the WebSocket echo, the
//! accounts and the configuration.

pub mod auth;
pub mod config;
pub mod echo;
pub mod sso;
pub mod webtransport;
