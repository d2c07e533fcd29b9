//! Connection-handling core of an event-driven HTTP server: an incremental
//! request parser that survives arbitrary fragmentation of its input, the
//! per-connection state machine that feeds it, the table of connections, and
//! single-assignment promises.
//!
//! The library owns no socket. Its caller performs each read and hands over
//! what the read reported; the library answers with what is to be done.
//!
//! - [`machine`]: the parser as a state machine over bytes, and what holds of
//!   it however its input is cut into fragments.
//! - [`request`]: the parser itself, on slices and on buffers.
//! - [`connection`]: one connection, and where an event goes.
//! - [`table`]: the slots in which the connections stand.
//! - [`headers`], [`method`], [`error`], [`text`]: the parts of a request.
//! - [`buffer`]: what is relied on of the buffers of the `bytes` crate.
//! - [`promises`]: values that arrive later.

pub mod buffer;
pub mod connection;
pub mod error;
pub mod headers;
pub mod machine;
pub mod method;
pub mod promises;
pub mod request;
pub mod table;
pub mod text;
