//! Realtime transport negotiation and multiplexing.
//!
//! The browser side opens a low-latency channel over WebTransport and falls
//! back to WebSocket when that fails; the server side services each
//! WebTransport session by acknowledging every stream and datagram it
//! receives, and echoes WebSocket messages. Every decision these components
//! take is a verified function from the current state and the outcome of the
//! last I/O operation to the next state and the next operation; the I/O
//! itself is left to the caller.

pub mod frame;
pub mod frontend;
pub mod server;
