//! The client-side builder: wraps an engine client configuration and opens
//! fresh streams toward a named server.  The handshake itself is then driven
//! through the stream's step functions and the handshake pump.

use vstd::prelude::*;

use crate::error::TlsError;
use crate::safe_io::DEFAULT_BUFFER_SIZE;
use crate::session;
use crate::stream::Stream;
use std::sync::Arc;

verus! {

/// A wrapper around an engine client configuration, from which client
/// streams are opened.
#[derive(Clone)]
pub struct TlsConnector {
    /// The engine's client configuration; opaque to the proofs.
    pub config: Arc<rustls::ClientConfig>,
    /// The read staging capacity for new streams, or the default.
    pub read_buffer: Option<usize>,
    /// The write staging capacity for new streams, or the default.
    pub write_buffer: Option<usize>,
}

impl TlsConnector {
    /// Wrap a client configuration with default staging capacities.
    pub fn new(config: Arc<rustls::ClientConfig>) -> (c: TlsConnector)
        ensures
            c.read_buffer is None,
            c.write_buffer is None,
    {
        TlsConnector { config, read_buffer: None, write_buffer: None }
    }

    /// Choose the read staging capacity for streams opened from here.
    pub fn read_buffer(self, size: Option<usize>) -> (c: TlsConnector)
        ensures
            c.read_buffer == size,
            c.write_buffer == self.write_buffer,
    {
        TlsConnector { read_buffer: size, ..self }
    }

    /// Choose the write staging capacity for streams opened from here.
    pub fn write_buffer(self, size: Option<usize>) -> (c: TlsConnector)
        ensures
            c.write_buffer == size,
            c.read_buffer == self.read_buffer,
    {
        TlsConnector { write_buffer: size, ..self }
    }

    /// Open a fresh client stream toward the named server: a new engine
    /// session wrapped with this connector's staging capacities, its
    /// handshake not yet driven.  The engine decides whether the name and
    /// configuration are acceptable; its refusal surfaces as the TLS-kind
    /// error with the engine's diagnostic.
    pub fn start_connect(&self, domain: &str) -> (r: Result<Stream, TlsError>)
        ensures
            r matches Ok(s) ==> {
                &&& s.wf()
                &&& !s.spec_close_sent()
                &&& s.r_buffer.spec_content().len() == 0
                &&& s.r_buffer.spec_status() is Ready
                &&& s.w_buffer.spec_content().len() == 0
                &&& s.w_buffer.spec_status() is Ready
                &&& s.r_buffer.spec_capacity() == match self.read_buffer {
                    Some(n) => n as int,
                    None => DEFAULT_BUFFER_SIZE as int,
                }
                &&& s.w_buffer.spec_capacity() == match self.write_buffer {
                    Some(n) => n as int,
                    None => DEFAULT_BUFFER_SIZE as int,
                }
            },
            r matches Err(e) ==> e is Tls,
    {
        match session::new_client_session(&self.config, domain) {
            Ok(conn) => Ok(Stream::new_with_buffer_size(conn, self.read_buffer, self.write_buffer)),
            Err(diag) => Err(TlsError::Tls(diag)),
        }
    }
}

} // verus!
