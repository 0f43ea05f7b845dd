//! The server-side builder: wraps an engine server configuration and opens
//! fresh streams for accepted connections.  The handshake itself is then
//! driven through the stream's step functions and the handshake pump.

use vstd::prelude::*;

use crate::error::TlsError;
use crate::safe_io::DEFAULT_BUFFER_SIZE;
use crate::session;
use crate::stream::Stream;
use std::sync::Arc;

verus! {

/// A wrapper around an engine server configuration, from which server
/// streams are opened.
#[derive(Clone)]
pub struct TlsAcceptor {
    /// The engine's server configuration; opaque to the proofs.
    pub config: Arc<rustls::ServerConfig>,
    /// The read staging capacity for new streams, or the default.
    pub read_buffer: Option<usize>,
    /// The write staging capacity for new streams, or the default.
    pub write_buffer: Option<usize>,
}

impl TlsAcceptor {
    /// Wrap a server configuration with default staging capacities.
    pub fn new(config: Arc<rustls::ServerConfig>) -> (a: TlsAcceptor)
        ensures
            a.read_buffer is None,
            a.write_buffer is None,
    {
        TlsAcceptor { config, read_buffer: None, write_buffer: None }
    }

    /// Choose the read staging capacity for streams opened from here.
    pub fn read_buffer(self, size: Option<usize>) -> (a: TlsAcceptor)
        ensures
            a.read_buffer == size,
            a.write_buffer == self.write_buffer,
    {
        TlsAcceptor { read_buffer: size, ..self }
    }

    /// Choose the write staging capacity for streams opened from here.
    pub fn write_buffer(self, size: Option<usize>) -> (a: TlsAcceptor)
        ensures
            a.write_buffer == size,
            a.read_buffer == self.read_buffer,
    {
        TlsAcceptor { write_buffer: size, ..self }
    }

    /// Open a fresh server stream for an accepted connection: a new engine
    /// session wrapped with this acceptor's staging capacities, its
    /// handshake not yet driven.  The engine decides whether the
    /// configuration is acceptable; its refusal surfaces as the TLS-kind
    /// error with the engine's diagnostic.
    pub fn start_accept(&self) -> (r: Result<Stream, TlsError>)
        ensures
            r matches Ok(s) ==> {
                &&& s.wf()
                &&& !s.spec_close_sent()
                &&& s.r_buffer.spec_content().len() == 0
                &&& s.r_buffer.spec_status() is Ready
                &&& s.w_buffer.spec_content().len() == 0
                &&& s.w_buffer.spec_status() is Ready
                &&& s.r_buffer.spec_capacity() == match self.read_buffer {
                    Some(n) => n as int,
                    None => DEFAULT_BUFFER_SIZE as int,
                }
                &&& s.w_buffer.spec_capacity() == match self.write_buffer {
                    Some(n) => n as int,
                    None => DEFAULT_BUFFER_SIZE as int,
                }
            },
            r matches Err(e) ==> e is Tls,
    {
        match session::new_server_session(&self.config) {
            Ok(conn) => Ok(Stream::new_with_buffer_size(conn, self.read_buffer, self.write_buffer)),
            Err(diag) => Err(TlsError::Tls(diag)),
        }
    }
}

} // verus!
