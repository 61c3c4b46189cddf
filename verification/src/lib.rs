//! A verified model of a bounded pool of costly remote-execution connections
//! and of the fixed-size worker pool that runs blocking jobs against it.
//!
//! The library holds the decision logic of the system: how captured command
//! output is classified, how the idle set of connections is popped, validated
//! and refilled, how a streamed command's reads become a finite sequence of
//! chunks, and how accepted submissions are matched one-to-one with callback
//! invocations. The remote session itself (dialing, authentication, channel
//! I/O) lives outside the library and hands it plain values.

pub mod command;
pub mod connection;
pub mod error;
pub mod executor;
pub mod orchestrator;
pub mod ownership;
pub mod pool;
pub mod stream;
