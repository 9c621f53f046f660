//! Protocol engine for a STOMP-like market-data streaming client.
//!
//! The crate covers the pure, verifiable core of such a client: the frame
//! codec that builds and parses text frames, the subscription registry that
//! maps feed identifiers to wire-level numeric IDs, and the connection state
//! machine that sequences the handshake and the steady-state subscribe and
//! unsubscribe operations. Transport I/O (the WebSocket itself, the HTTP
//! bootstrap that acquires credentials) lives outside this crate; the engine
//! exchanges plain strings and frames with that outer layer.

pub mod codec;
pub mod errors;
pub mod parse;
pub mod registry;
pub mod stomper;
pub mod machine;
