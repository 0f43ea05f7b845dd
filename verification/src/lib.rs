//! An adapter that bridges a completion-based (rent-style) byte transport to a
//! synchronous TLS engine.
//!
//! The transport side hands buffers over for the duration of each I/O call and
//! returns them with the result; the engine side expects synchronous reads and
//! writes that either succeed immediately, would block, or fail.  A fixed-size
//! staging buffer per direction reconciles the two models: the engine's
//! synchronous calls are served from (or into) the staging buffer, and a
//! `WouldBlock` result tells the outer loop that a real transport round-trip
//! is needed.  The outer loop performs the transport I/O and reports each
//! completion back, so every decision the adapter makes is a function of plain
//! values and is verified here.

use vstd::prelude::*;

pub mod buffer;
pub mod client;
pub mod error;
pub mod handshake;
pub mod io_buffer;
pub mod safe_io;
pub mod server;
pub mod session;
pub mod std_adapter;
pub mod stream;
pub mod unsafe_io;

pub use client::TlsConnector;
pub use error::{IoError, IoErrorKind, TlsError};
pub use server::TlsAcceptor;
pub use stream::Stream;

verus! {

/// One-shot process-wide initialisation hook.  The default build has no
/// crypto-accelerator engine to register, so this does nothing.
pub fn init() {
}

} // verus!
