//! The trusted boundary to the TLS engine.  Each function here wraps exactly
//! one engine operation and restates, over plain values, what the engine's
//! source promises about it; everything else the adapter proves is built on
//! these contracts.  The engine's connection object is opaque to the proofs:
//! where nothing can be promised about an outcome, the callers are verified
//! for every possible outcome.

use vstd::prelude::*;

use crate::error::{IoError, IoErrorKind};
use std::io::{Read, Write};
use std::sync::Arc;

verus! {

#[verifier::external_type_specification]
#[verifier::external_body]
pub struct ExConnection(rustls::Connection);

#[verifier::external_type_specification]
#[verifier::external_body]
pub struct ExClientConfig(rustls::ClientConfig);

#[verifier::external_type_specification]
#[verifier::external_body]
pub struct ExServerConfig(rustls::ServerConfig);

#[verifier::external_type_specification]
#[verifier::external_body]
pub struct ExIoError(std::io::Error);

/// Relies on `std::io::Error::kind`: maps the error onto the adapter's own
/// kinds, keeping the ones the adapter distinguishes, and keeps the error's
/// text.  Nothing is promised about the outcome.
#[verifier::external_body]
fn convert_io_error(e: std::io::Error) -> IoError {
    let kind = match e.kind() {
        std::io::ErrorKind::WouldBlock => IoErrorKind::WouldBlock,
        std::io::ErrorKind::UnexpectedEof => IoErrorKind::UnexpectedEof,
        std::io::ErrorKind::InvalidData => IoErrorKind::InvalidData,
        std::io::ErrorKind::BrokenPipe => IoErrorKind::BrokenPipe,
        std::io::ErrorKind::ConnectionReset => IoErrorKind::ConnectionReset,
        std::io::ErrorKind::ConnectionAborted => IoErrorKind::ConnectionAborted,
        std::io::ErrorKind::NotConnected => IoErrorKind::NotConnected,
        std::io::ErrorKind::TimedOut => IoErrorKind::TimedOut,
        std::io::ErrorKind::Interrupted => IoErrorKind::Interrupted,
        std::io::ErrorKind::WriteZero => IoErrorKind::WriteZero,
        std::io::ErrorKind::PermissionDenied => IoErrorKind::PermissionDenied,
        _ => IoErrorKind::OtherError,
    };
    IoError { kind, msg: e.to_string() }
}

/// Relies on `rustls::ClientConnection::new` and
/// `rustls::pki_types::ServerName::try_from`: builds a fresh client session
/// for the given server name, or reports the engine's diagnostic.
#[verifier::external_body]
pub(crate) fn new_client_session(config: &Arc<rustls::ClientConfig>, domain: &str) -> (r: Result<
    rustls::Connection,
    String,
>) {
    let name = match rustls::pki_types::ServerName::try_from(domain.to_string()) {
        Ok(n) => n,
        Err(e) => {
            return Err(e.to_string());
        },
    };
    match rustls::ClientConnection::new(config.clone(), name) {
        Ok(conn) => Ok(rustls::Connection::Client(conn)),
        Err(e) => Err(e.to_string()),
    }
}

/// Relies on `rustls::ServerConnection::new`: builds a fresh server session,
/// or reports the engine's diagnostic.
#[verifier::external_body]
pub(crate) fn new_server_session(config: &Arc<rustls::ServerConfig>) -> (r: Result<
    rustls::Connection,
    String,
>) {
    match rustls::ServerConnection::new(config.clone()) {
        Ok(conn) => Ok(rustls::Connection::Server(conn)),
        Err(e) => Err(e.to_string()),
    }
}

/// Relies on `rustls::Connection::wants_read` (via the connection's common
/// state): whether the engine wants more record bytes.
#[verifier::external_body]
pub(crate) fn session_wants_read(conn: &rustls::Connection) -> bool {
    conn.wants_read()
}

/// Relies on `rustls::Connection::wants_write`: whether the engine has
/// record bytes queued for the transport.
#[verifier::external_body]
pub(crate) fn session_wants_write(conn: &rustls::Connection) -> bool {
    conn.wants_write()
}

/// Relies on `rustls::Connection::is_handshaking`.
#[verifier::external_body]
pub(crate) fn session_is_handshaking(conn: &rustls::Connection) -> bool {
    conn.is_handshaking()
}

/// Relies on `rustls::Connection::read_tls` with an in-memory reader over
/// `src`: the engine consumes a prefix of the staged record bytes, so the
/// consumed count never exceeds what was offered (rustls reads once from the
/// reader, and a byte-slice reader yields at most its length).
#[verifier::external_body]
pub(crate) fn session_read_tls(conn: &mut rustls::Connection, src: &[u8]) -> (r: Result<
    usize,
    IoError,
>)
    ensures
        r matches Ok(n) ==> n <= src@.len(),
{
    let mut rd: &[u8] = src;
    match conn.read_tls(&mut rd) {
        Ok(n) => Ok(n),
        Err(e) => Err(convert_io_error(e)),
    }
}

/// Relies on `rustls::Connection::write_tls` with a bounded in-memory sink:
/// the engine writes at most `limit` queued record bytes and reports exactly
/// how many (rustls consumes from its queue exactly the count the sink
/// accepted), so the returned bytes never exceed the staging room offered.
#[verifier::external_body]
pub(crate) fn session_write_tls(conn: &mut rustls::Connection, limit: usize) -> (r: Result<
    Vec<u8>,
    IoError,
>)
    ensures
        r matches Ok(v) ==> v@.len() <= limit,
{
    let mut buf = vec![0u8; limit];
    let mut sink = std::io::Cursor::new(&mut buf[..]);
    match conn.write_tls(&mut sink) {
        Ok(n) => {
            buf.truncate(n);
            Ok(buf)
        },
        Err(e) => Err(convert_io_error(e)),
    }
}

/// Relies on `rustls::Connection::process_new_packets` and
/// `rustls::IoState::peer_has_closed`: runs the engine's state machine over
/// the record bytes it has consumed; success reports whether the peer has
/// sent its closing alert, failure reports the engine's diagnostic.
#[verifier::external_body]
pub(crate) fn session_process_new_packets(conn: &mut rustls::Connection) -> (r: Result<
    bool,
    String,
>) {
    match conn.process_new_packets() {
        Ok(state) => Ok(state.peer_has_closed()),
        Err(e) => Err(e.to_string()),
    }
}

/// Relies on `rustls::Connection::reader` and its `std::io::Read`
/// implementation: plaintext is copied into the front of the rented
/// destination, whose length is unchanged; the count never exceeds that
/// length, the bytes beyond it are left as they were, and a failing read
/// writes nothing (the reader copies chunk by chunk into the prefix and its
/// error paths run only when no byte was copied).  No data answers
/// `WouldBlock`, a clean close answers zero, and an unclean close answers
/// `UnexpectedEof`.
#[verifier::external_body]
pub(crate) fn session_reader_read(conn: &mut rustls::Connection, dst: Vec<u8>) -> (r: (
    Result<usize, IoError>,
    Vec<u8>,
))
    ensures
        r.1@.len() == dst@.len(),
        r.0 matches Ok(n) ==> n <= dst@.len() && r.1@.skip(n as int) == dst@.skip(n as int),
        r.0 is Err ==> r.1@ == dst@,
{
    let mut buf = dst;
    let res = match conn.reader().read(&mut buf[..]) {
        Ok(n) => Ok(n),
        Err(e) => Err(convert_io_error(e)),
    };
    (res, buf)
}

/// Relies on `rustls::Connection::writer` and its `std::io::Write`
/// implementation: the engine accepts a prefix of the plaintext (buffering
/// and encrypting it), so the accepted count never exceeds what was offered;
/// and the engine's plaintext sink never fails (its `write` returns the
/// buffered count unconditionally), so neither does this call.
#[verifier::external_body]
pub(crate) fn session_writer_write(conn: &mut rustls::Connection, src: &[u8]) -> (r: Result<
    usize,
    IoError,
>)
    ensures
        r is Ok,
        r matches Ok(n) ==> n <= src@.len(),
{
    match conn.writer().write(src) {
        Ok(n) => Ok(n),
        Err(e) => Err(convert_io_error(e)),
    }
}

/// Relies on `rustls::Connection::writer`'s `flush`: the engine's plaintext
/// sink flushes unconditionally with success (its `flush` body is a plain
/// `Ok(())`), so this never fails.
#[verifier::external_body]
pub(crate) fn session_writer_flush(conn: &mut rustls::Connection) -> (r: Result<(), IoError>)
    ensures
        r is Ok,
{
    match conn.writer().flush() {
        Ok(()) => Ok(()),
        Err(e) => Err(convert_io_error(e)),
    }
}

/// Relies on `rustls::CommonState::send_close_notify`: queues the closing
/// alert for the next record write.
#[verifier::external_body]
pub(crate) fn session_send_close_notify(conn: &mut rustls::Connection) {
    conn.send_close_notify()
}

/// Relies on `rustls::CommonState::alpn_protocol`: the protocol agreed via
/// ALPN, copied out, or nothing if none was agreed.
#[verifier::external_body]
pub(crate) fn session_alpn_protocol(conn: &rustls::Connection) -> Option<Vec<u8>> {
    match conn.alpn_protocol() {
        Some(p) => Some(p.to_vec()),
        None => None,
    }
}

} // verus!
