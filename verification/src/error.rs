//! The adapter's error taxonomy: transport-style I/O errors carrying a kind
//! and a message, and a two-variant TLS error that separates transport
//! failures from engine (protocol) failures.

use vstd::prelude::*;

verus! {

/// The kinds of I/O error the adapter distinguishes.  Transport errors keep
/// their kind when they pass through; the adapter itself only ever produces
/// `WouldBlock`, `UnexpectedEof` and `InvalidData`.
#[derive(Clone, Copy, PartialEq, Eq, Structural, Debug)]
pub enum IoErrorKind {
    WouldBlock,
    UnexpectedEof,
    InvalidData,
    BrokenPipe,
    ConnectionReset,
    ConnectionAborted,
    NotConnected,
    TimedOut,
    Interrupted,
    WriteZero,
    PermissionDenied,
    OtherError,
}

/// An I/O error: a kind plus a human-readable message.  The message is empty
/// for errors that are re-surfaced by kind only.
#[derive(Debug)]
pub struct IoError {
    pub kind: IoErrorKind,
    pub msg: String,
}

impl IoError {
    /// An error of the given kind with no message.
    pub fn of_kind(kind: IoErrorKind) -> (e: IoError)
        ensures
            e.kind == kind,
            e.msg@ == Seq::<char>::empty(),
    {
        IoError { kind, msg: String::new() }
    }

    /// The `WouldBlock` signal: the synchronous side must yield so the outer
    /// loop can perform a real transport round-trip.
    pub fn would_block() -> (e: IoError)
        ensures
            e.kind == IoErrorKind::WouldBlock,
            e.msg@ == Seq::<char>::empty(),
    {
        IoError::of_kind(IoErrorKind::WouldBlock)
    }

    /// The error reported when the transport reaches end of stream while the
    /// handshake still needs records.
    pub fn handshake_eof() -> (e: IoError)
        ensures
            e.kind == IoErrorKind::UnexpectedEof,
            e.msg@ == "tls handshake eof"@,
    {
        IoError { kind: IoErrorKind::UnexpectedEof, msg: String::from_str("tls handshake eof") }
    }

    /// The error reported when the peer closes during the handshake with an
    /// alert instead of finishing it.
    pub fn handshake_alert() -> (e: IoError)
        ensures
            e.kind == IoErrorKind::UnexpectedEof,
            e.msg@ == "tls handshake alert"@,
    {
        IoError { kind: IoErrorKind::UnexpectedEof, msg: String::from_str("tls handshake alert") }
    }

    /// The error reported when the transport reaches end of stream in the
    /// middle of application data.
    pub fn raw_stream_eof() -> (e: IoError)
        ensures
            e.kind == IoErrorKind::UnexpectedEof,
            e.msg@ == "tls raw stream eof"@,
    {
        IoError { kind: IoErrorKind::UnexpectedEof, msg: String::from_str("tls raw stream eof") }
    }

    /// The error that wraps a TLS engine failure: the engine's diagnostic
    /// under the invalid-data kind.
    pub fn invalid_data(diag: String) -> (e: IoError)
        ensures
            e.kind == IoErrorKind::InvalidData,
            e.msg@ == diag@,
    {
        IoError { kind: IoErrorKind::InvalidData, msg: diag }
    }

    /// A copy of this error that keeps the kind only, as when a stored error
    /// is reported now by kind and surfaces in full later.
    pub fn kind_only(&self) -> (e: IoError)
        ensures
            e.kind == self.kind,
            e.msg@ == Seq::<char>::empty(),
    {
        IoError::of_kind(self.kind)
    }

    /// An equal copy of this error, for a sticky error that is surfaced on
    /// every subsequent operation while staying stored.
    pub fn duplicate(&self) -> (e: IoError)
        ensures
            e == *self,
    {
        IoError { kind: self.kind, msg: self.msg.clone() }
    }
}

/// The adapter's two-kind error: a transport I/O failure, or a TLS engine
/// failure carried as the engine's diagnostic text.
#[derive(Debug)]
pub enum TlsError {
    Io(IoError),
    Tls(String),
}

impl TlsError {
    /// Collapse into a single I/O error: transport errors pass through
    /// unchanged, engine errors surface with their diagnostic under a
    /// catch-all kind.
    pub fn into_io(self) -> (e: IoError)
        ensures
            self matches TlsError::Io(inner) ==> e.kind == inner.kind && e.msg@ == inner.msg@,
            self matches TlsError::Tls(diag) ==> e.kind == IoErrorKind::OtherError && e.msg@
                == diag@,
    {
        match self {
            TlsError::Io(inner) => inner,
            TlsError::Tls(diag) => IoError { kind: IoErrorKind::OtherError, msg: diag },
        }
    }
}

} // verus!
