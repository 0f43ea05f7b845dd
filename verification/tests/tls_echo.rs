//! End-to-end tests: two real engine sessions (one client, one server)
//! joined by in-memory byte queues that play the rent-style transport.  The
//! tests drive both streams exactly as a runtime would: call a step
//! function, perform the requested pump against the queue, report the
//! completion, and step again.

use rent_tls::error::{IoError, IoErrorKind, TlsError};
use rent_tls::handshake::{handshake_decide, HandshakeState, HsNext};
use rent_tls::stream::{ReadIoStep, ReadPlainStep, Stream, WriteIoStep};
use rent_tls::{TlsAcceptor, TlsConnector};
use std::sync::Arc;

/// A test CA plus a server certificate chain and key for the given name.
fn test_identity(server_name: &str) -> (rustls::ClientConfig, rustls::ServerConfig) {
    let ca_key = rcgen::KeyPair::generate().unwrap();
    let mut ca_params = rcgen::CertificateParams::new(Vec::<String>::new()).unwrap();
    ca_params.is_ca = rcgen::IsCa::Ca(rcgen::BasicConstraints::Unconstrained);
    let ca_cert = ca_params.self_signed(&ca_key).unwrap();

    let server_key = rcgen::KeyPair::generate().unwrap();
    let server_params = rcgen::CertificateParams::new(vec![server_name.to_string()]).unwrap();
    let server_cert = server_params.signed_by(&server_key, &ca_cert, &ca_key).unwrap();

    let mut roots = rustls::RootCertStore::empty();
    roots.add(ca_cert.der().clone()).unwrap();
    let client_config = rustls::ClientConfig::builder()
        .with_root_certificates(roots)
        .with_no_client_auth();

    let key = rustls::pki_types::PrivateKeyDer::Pkcs8(rustls::pki_types::PrivatePkcs8KeyDer::from(
        server_key.serialize_der(),
    ));
    let server_config = rustls::ServerConfig::builder()
        .with_no_client_auth()
        .with_single_cert(vec![server_cert.der().clone(), ca_cert.der().clone()], key)
        .unwrap();
    (client_config, server_config)
}

/// Pump the write staging buffer onto the outgoing queue (the transport
/// write always takes everything, as a rent-style write-all does).
fn pump_write(stream: &mut Stream, outgoing: &mut Vec<u8>) -> Result<usize, IoError> {
    match stream.w_buffer.pump_data() {
        None => Ok(0),
        Some(data) => {
            outgoing.extend_from_slice(&data);
            stream.w_buffer.pump_complete(Ok(data.len()))
        }
    }
}

/// Run record output to completion against the outgoing queue.
fn run_write_io(stream: &mut Stream, outgoing: &mut Vec<u8>) -> Result<usize, IoError> {
    loop {
        match stream.write_io_step() {
            WriteIoStep::NeedPump => {
                pump_write(stream, outgoing)?;
            }
            WriteIoStep::Emitted(n) => {
                pump_write(stream, outgoing)?;
                return Ok(n);
            }
            WriteIoStep::Fail(e) => return Err(e),
        }
    }
}

/// Run record intake against the incoming queue.  `Ok(None)` means the queue
/// is empty and does not signal end of stream yet, so the other side must
/// run first.  `wire_eof` makes an empty queue mean end of stream.
fn run_read_io(
    stream: &mut Stream,
    incoming: &mut Vec<u8>,
    wire_eof: bool,
    splitted: bool,
    outgoing: &mut Vec<u8>,
) -> Result<Option<usize>, IoError> {
    loop {
        match stream.read_io_step(splitted) {
            ReadIoStep::NeedPump => {
                if incoming.is_empty() && !wire_eof {
                    return Ok(None);
                }
                let cap = stream.r_buffer.pump_capacity();
                let take = cap.min(incoming.len());
                let chunk: Vec<u8> = incoming.drain(..take).collect();
                stream.r_buffer.pump_complete(Ok(chunk))?;
            }
            ReadIoStep::Done(n) => return Ok(Some(n)),
            ReadIoStep::Fail(e) => return Err(e),
            ReadIoStep::FailAfterFlush(e) => {
                // best-effort alert write before surfacing the engine error
                let _ = run_write_io(stream, outgoing);
                return Err(e);
            }
        }
    }
}

/// One handshake-pump move for one side.  Returns `Ok(true)` when finished,
/// `Ok(false)` when it progressed or must wait for the peer.
fn hs_move(
    stream: &mut Stream,
    hs: &mut HandshakeState,
    incoming: &mut Vec<u8>,
    outgoing: &mut Vec<u8>,
    wire_eof: bool,
) -> Result<bool, IoError> {
    match hs.next_move(stream) {
        HsNext::WriteRecords => {
            let n = run_write_io(stream, outgoing)?;
            hs.note_write(n);
            Ok(false)
        }
        HsNext::ReadRecords => match run_read_io(stream, incoming, wire_eof, false, outgoing)? {
            Some(n) => {
                hs.note_read(n);
                Ok(false)
            }
            None => Ok(false),
        },
        HsNext::FailEof => Err(hs.eof_error()),
        HsNext::Stalled => panic!("the engine stalled: it handshakes but wants neither direction"),
        HsNext::Finished => {
            while stream.wants_write() {
                let n = run_write_io(stream, outgoing)?;
                hs.note_write(n);
                if n == 0 {
                    break;
                }
            }
            Ok(true)
        }
    }
}

/// Drive both handshakes to completion over the two queues.
fn drive_handshakes(
    client: &mut Stream,
    server: &mut Stream,
    c2s: &mut Vec<u8>,
    s2c: &mut Vec<u8>,
) -> Result<(), IoError> {
    let mut hs_c = HandshakeState::new();
    let mut hs_s = HandshakeState::new();
    let mut done_c = false;
    let mut done_s = false;
    let mut rounds = 0;
    while !(done_c && done_s) {
        rounds += 1;
        assert!(rounds < 1000, "handshake did not settle");
        if !done_c {
            done_c = hs_move(client, &mut hs_c, s2c, c2s, false)?;
        }
        if !done_s {
            done_s = hs_move(server, &mut hs_s, c2s, s2c, false)?;
        }
    }
    assert!(!client.is_handshaking());
    assert!(!server.is_handshaking());
    assert!(!client.wants_write());
    assert!(!server.wants_write());
    Ok(())
}

/// An application read on one side: hand plaintext out, running record
/// intake as needed; the peer's queue feeds it.
fn read_app(
    stream: &mut Stream,
    incoming: &mut Vec<u8>,
    outgoing: &mut Vec<u8>,
    wire_eof: bool,
    splitted: bool,
    len: usize,
) -> (Result<usize, IoError>, Vec<u8>) {
    let mut buf = vec![0u8; len];
    loop {
        let (step, b) = stream.read_plain_step(buf);
        buf = b;
        match step {
            ReadPlainStep::Done(n) => return (Ok(n), buf),
            ReadPlainStep::Fail(e) => return (Err(e), buf),
            ReadPlainStep::NeedRecords => {
                match run_read_io(stream, incoming, wire_eof, splitted, outgoing) {
                    Ok(Some(n)) => match Stream::read_io_outcome(n) {
                        Ok(_) => {}
                        Err(e) => return (Err(e), buf),
                    },
                    Ok(None) => panic!("application read starved: peer sent nothing"),
                    Err(e) => return (Err(e), buf),
                }
            }
        }
    }
}

/// An application write on one side: flush pending records so the engine has
/// room, hand it the plaintext, then drain its output.
fn write_app(stream: &mut Stream, outgoing: &mut Vec<u8>, src: &[u8]) -> Result<usize, IoError> {
    if stream.wants_write() {
        run_write_io(stream, outgoing)?;
    }
    let n = stream.write_plain(src)?;
    while stream.wants_write() {
        match run_write_io(stream, outgoing)? {
            0 => break,
            _ => {}
        }
    }
    Ok(n)
}

/// Write all of `src`, looping at the application layer over partial
/// acceptance.
fn write_all_app(stream: &mut Stream, outgoing: &mut Vec<u8>, src: &[u8]) -> Result<(), IoError> {
    let mut off = 0;
    while off < src.len() {
        let n = write_app(stream, outgoing, &src[off..])?;
        assert!(n > 0, "engine accepted nothing");
        off += n;
    }
    Ok(())
}

/// A graceful shutdown: queue the closing alert once, drain records.
fn shutdown_app(stream: &mut Stream, outgoing: &mut Vec<u8>) -> Result<(), IoError> {
    stream.shutdown_begin();
    while stream.wants_write() {
        match run_write_io(stream, outgoing)? {
            0 => break,
            _ => {}
        }
    }
    Ok(())
}

fn connect_pair(
    server_name: &str,
    client_domain: &str,
    read_buffer: Option<usize>,
) -> (Result<(Stream, Stream), TlsError>, Vec<u8>, Vec<u8>) {
    let (cc, sc) = test_identity(server_name);
    let connector = TlsConnector::new(Arc::new(cc)).read_buffer(read_buffer);
    let acceptor = TlsAcceptor::new(Arc::new(sc)).read_buffer(read_buffer);
    let mut client = connector.start_connect(client_domain).unwrap();
    let mut server = acceptor.start_accept().unwrap();
    let mut c2s = Vec::new();
    let mut s2c = Vec::new();
    match drive_handshakes(&mut client, &mut server, &mut c2s, &mut s2c) {
        Ok(()) => (Ok((client, server)), c2s, s2c),
        Err(e) => (Err(TlsError::Io(e)), c2s, s2c),
    }
}

#[test]
fn echo_handshake_and_data_client() {
    let (pair, mut c2s, mut s2c) = connect_pair("monoio.rs", "monoio.rs", None);
    let (mut client, mut server) = pair.unwrap();

    // client sends exactly "hello world" (11 bytes)
    write_all_app(&mut client, &mut c2s, b"hello world").unwrap();

    // server echoes what it reads
    let (n, buf) = read_app(&mut server, &mut c2s, &mut s2c, false, false, 64);
    let n = n.unwrap();
    assert_eq!(n, 11);
    write_all_app(&mut server, &mut s2c, &buf[..n]).unwrap();

    // client reads exactly 11 bytes and they equal the sent bytes
    let (n, buf) = read_app(&mut client, &mut s2c, &mut c2s, false, false, 11);
    assert_eq!(n.unwrap(), 11);
    assert_eq!(&buf[..], b"hello world");

    // graceful shutdown succeeds
    assert!(shutdown_app(&mut client, &mut c2s).is_ok());
}

#[test]
fn echo_server_one_mebibyte_in_chunks() {
    let (pair, mut c2s, mut s2c) = connect_pair("monoio.rs", "monoio.rs", None);
    let (mut client, mut server) = pair.unwrap();

    // 1 MiB of pseudo-random data, sent in 4 KiB chunks and echoed back
    let total = 1024 * 1024;
    let mut data = vec![0u8; total];
    let mut x: u32 = 0x2545_f491;
    for b in data.iter_mut() {
        x ^= x << 13;
        x ^= x >> 17;
        x ^= x << 5;
        *b = (x >> 24) as u8;
    }

    let mut echoed = Vec::with_capacity(total);
    for chunk in data.chunks(4096) {
        write_all_app(&mut client, &mut c2s, chunk).unwrap();
        // the server's read-write-all loop for this chunk
        let mut got = 0;
        while got < chunk.len() {
            let (n, buf) = read_app(&mut server, &mut c2s, &mut s2c, false, false, 4096);
            let n = n.unwrap();
            assert!(n > 0);
            write_all_app(&mut server, &mut s2c, &buf[..n]).unwrap();
            got += n;
        }
        // the client drains the echo
        let mut back = 0;
        while back < chunk.len() {
            let (n, buf) = read_app(&mut client, &mut s2c, &mut c2s, false, false, 4096);
            let n = n.unwrap();
            assert!(n > 0);
            echoed.extend_from_slice(&buf[..n]);
            back += n;
        }
    }
    assert_eq!(echoed.len(), total);
    assert_eq!(echoed, data);

    // client closes cleanly; the server's next read reports a clean end
    shutdown_app(&mut client, &mut c2s).unwrap();
    let (n, _) = read_app(&mut server, &mut c2s, &mut s2c, true, false, 16);
    assert_eq!(n.unwrap(), 0);
}

#[test]
fn handshake_failure_on_invalid_sni() {
    // the server's certificate names a different host
    let (cc, sc) = test_identity("other.example");
    let connector = TlsConnector::new(Arc::new(cc));
    let acceptor = TlsAcceptor::new(Arc::new(sc));
    let mut client = connector.start_connect("monoio.rs").unwrap();
    let mut server = acceptor.start_accept().unwrap();
    let mut c2s = Vec::new();
    let mut s2c = Vec::new();
    let mut hs_c = HandshakeState::new();
    let mut hs_s = HandshakeState::new();
    let mut failed = None;
    // within a bounded number of round-trips one side must fail
    for _ in 0..100 {
        match hs_move(&mut client, &mut hs_c, &mut s2c, &mut c2s, false) {
            Ok(_) => {}
            Err(e) => {
                failed = Some(e);
                break;
            }
        }
        match hs_move(&mut server, &mut hs_s, &mut c2s, &mut s2c, false) {
            Ok(_) => {}
            Err(e) => {
                failed = Some(e);
                break;
            }
        }
    }
    let e = failed.expect("handshake against a wrong name must fail");
    // the certificate rejection is a TLS protocol failure, not a transport one
    assert_eq!(e.kind, IoErrorKind::InvalidData);
    assert!(!e.msg.is_empty());
}

#[test]
fn peer_closes_mid_handshake() {
    // a fake transport that returns 0 bytes after the client's first flight
    let (cc, _) = test_identity("monoio.rs");
    let connector = TlsConnector::new(Arc::new(cc));
    let mut client = connector.start_connect("monoio.rs").unwrap();
    let mut c2s = Vec::new();
    let mut empty_wire = Vec::new();
    let mut hs = HandshakeState::new();
    let err = loop {
        match hs_move(&mut client, &mut hs, &mut empty_wire, &mut c2s, true) {
            Ok(done) => assert!(!done, "handshake cannot finish against silence"),
            Err(e) => break e,
        }
    };
    assert_eq!(err.kind, IoErrorKind::UnexpectedEof);
    assert!(err.msg == "tls handshake eof" || err.msg == "tls handshake alert");
}

#[test]
fn split_concurrent_echo() {
    let (pair, mut c2s, mut s2c) = connect_pair("monoio.rs", "monoio.rs", None);
    let (mut client, mut server) = pair.unwrap();

    // split-style use: the client's read path and write path interleave, the
    // read path flying the split flag so it never writes the other half's
    // records
    let total = 64 * 1024;
    let mut data = vec![0u8; total];
    for (i, b) in data.iter_mut().enumerate() {
        *b = (i * 31 % 251) as u8;
    }

    let mut sent = 0;
    let mut received = Vec::with_capacity(total);
    let mut served = 0;
    while received.len() < total {
        // writer task: push the next chunk
        if sent < total {
            let end = (sent + 4096).min(total);
            let n = write_app(&mut client, &mut c2s, &data[sent..end]).unwrap();
            assert!(n > 0);
            sent += n;
        }
        // server echoes whatever has arrived
        while served < sent {
            let (n, buf) = read_app(&mut server, &mut c2s, &mut s2c, false, false, 8192);
            let n = n.unwrap();
            assert!(n > 0);
            write_all_app(&mut server, &mut s2c, &buf[..n]).unwrap();
            served += n;
        }
        // reader task: drain what the server echoed, as the split read half
        while received.len() < served {
            let (n, buf) = read_app(&mut client, &mut s2c, &mut c2s, false, true, 8192);
            let n = n.unwrap();
            assert!(n > 0);
            received.extend_from_slice(&buf[..n]);
        }
    }
    assert_eq!(received, data);
}

#[test]
fn short_staging_buffer_small_pumps() {
    // a 512-byte read staging buffer forces many pump cycles for 16 KiB
    let (pair, mut c2s, mut s2c) = connect_pair("monoio.rs", "monoio.rs", Some(512));
    let (mut client, mut server) = pair.unwrap();

    let total = 16 * 1024;
    let data = vec![0xa5u8; total];
    write_all_app(&mut client, &mut c2s, &data).unwrap();

    let mut got = 0;
    let mut cycles = 0;
    while got < total {
        cycles += 1;
        // the record intake can take at most 512 transport bytes per pump, so
        // the whole transfer stays within a bounded number of cycles
        assert!(cycles <= total / 512 + 64, "too many pump cycles");
        let (n, buf) = read_app(&mut server, &mut c2s, &mut s2c, false, false, 4096);
        let n = n.unwrap();
        write_all_app(&mut server, &mut s2c, &buf[..n]).unwrap();
        got += n;
    }

    let mut echoed = Vec::with_capacity(total);
    while echoed.len() < total {
        let (n, buf) = read_app(&mut client, &mut s2c, &mut c2s, false, false, 4096);
        let n = n.unwrap();
        assert!(n > 0);
        echoed.extend_from_slice(&buf[..n]);
    }
    assert_eq!(echoed, data);
}

#[test]
fn transport_eof_during_application_read() {
    let (pair, mut c2s, mut s2c) = connect_pair("monoio.rs", "monoio.rs", None);
    let (mut client, _server) = pair.unwrap();

    // the wire dies without a closing alert: the read reports the raw-stream
    // end-of-file error
    let (res, _) = read_app(&mut client, &mut s2c, &mut c2s, true, false, 16);
    let e = res.unwrap_err();
    assert_eq!(e.kind, IoErrorKind::UnexpectedEof);
    assert_eq!(e.msg, "tls raw stream eof");
}

#[test]
fn garbage_records_are_invalid_data() {
    let (pair, mut c2s, mut s2c) = connect_pair("monoio.rs", "monoio.rs", None);
    let (mut client, _server) = pair.unwrap();

    // feed bytes that are not TLS records
    let mut garbage: Vec<u8> = vec![0xff; 600];
    garbage[0] = 0x17;
    let wire_before = c2s.len();
    match run_read_io(&mut client, &mut garbage.clone(), false, false, &mut c2s) {
        Err(e) => assert_eq!(e.kind, IoErrorKind::InvalidData),
        Ok(v) => panic!("garbage records must be rejected, got {v:?}"),
    }
    // in non-split mode the engine's alert went out with one best-effort write
    assert!(c2s.len() > wire_before, "the alert write was attempted");
    let _ = s2c;
}

#[test]
fn garbage_records_split_mode_suppresses_alert_write() {
    let (pair, _c2s, s2c) = connect_pair("monoio.rs", "monoio.rs", None);
    let (mut client, _server) = pair.unwrap();

    let mut garbage: Vec<u8> = vec![0xffu8; 600];
    garbage[0] = 0x17;
    let mut alert_sink: Vec<u8> = Vec::new();
    // split mode: the step itself must fail directly, never asking for the
    // best-effort alert flush that would race the write half
    let res = loop {
        match client.read_io_step(true) {
            ReadIoStep::NeedPump => {
                let cap = client.r_buffer.pump_capacity();
                let take = cap.min(garbage.len());
                let chunk: Vec<u8> = garbage.drain(..take).collect();
                client.r_buffer.pump_complete(Ok(chunk)).unwrap();
            }
            ReadIoStep::Done(_) => continue,
            ReadIoStep::Fail(e) => break e,
            ReadIoStep::FailAfterFlush(_) => {
                panic!("split mode must not ask for an alert flush")
            }
        }
    };
    assert_eq!(res.kind, IoErrorKind::InvalidData);
    assert!(alert_sink.is_empty());
    alert_sink.clear();
    let _ = s2c;
}

#[test]
fn shutdown_twice_is_idempotent() {
    let (pair, mut c2s, _s2c) = connect_pair("monoio.rs", "monoio.rs", None);
    let (mut client, _server) = pair.unwrap();

    assert!(!client.close_sent);
    let first = client.shutdown_begin();
    assert!(first, "the first shutdown queues the closing alert");
    shutdown_app(&mut client, &mut c2s).unwrap();
    let after_first = c2s.len();
    assert!(after_first > 0, "the closing alert went on the wire");

    // the second shutdown is a no-op: nothing new reaches the wire
    let second = client.shutdown_begin();
    assert!(!second, "the second shutdown must not queue another alert");
    shutdown_app(&mut client, &mut c2s).unwrap();
    assert_eq!(c2s.len(), after_first);
}

#[test]
fn alpn_and_into_parts() {
    let (pair, _c2s, _s2c) = connect_pair("monoio.rs", "monoio.rs", None);
    let (client, server) = pair.unwrap();
    // no ALPN was offered, so none was agreed
    assert_eq!(client.alpn_protocol(), None);
    let conn = server.into_parts();
    assert!(!conn.is_handshaking());
    rent_tls::init();
}

#[test]
fn tls_error_collapses_to_io_error() {
    let io = TlsError::Io(IoError {
        kind: IoErrorKind::BrokenPipe,
        msg: String::from("pipe"),
    });
    let e = io.into_io();
    assert_eq!(e.kind, IoErrorKind::BrokenPipe);
    assert_eq!(e.msg, "pipe");
    let tls = TlsError::Tls(String::from("bad record mac"));
    let e = tls.into_io();
    assert_eq!(e.kind, IoErrorKind::OtherError);
    assert_eq!(e.msg, "bad record mac");
}

#[test]
fn connector_rejects_invalid_domain() {
    let (cc, _) = test_identity("monoio.rs");
    let connector = TlsConnector::new(Arc::new(cc));
    match connector.start_connect("not a dns name!") {
        Err(TlsError::Tls(diag)) => assert!(!diag.is_empty()),
        other => panic!("an invalid name must be refused, got {:?}", other.is_ok()),
    }
}

#[test]
fn handshake_policy_concrete_cases() {
    // queued output goes first while handshaking
    assert_eq!(handshake_decide(false, true, true, true), HsNext::WriteRecords);
    // then intake, while the engine wants it and the transport is alive
    assert_eq!(handshake_decide(false, false, true, true), HsNext::ReadRecords);
    // a dead transport with an unfinished handshake fails
    assert_eq!(handshake_decide(true, false, true, true), HsNext::FailEof);
    assert_eq!(handshake_decide(true, false, false, true), HsNext::FailEof);
    // an engine that wants neither direction leaves the pump stalled; it is
    // never read behind its back
    assert_eq!(handshake_decide(false, false, false, true), HsNext::Stalled);
    // a finished handshake moves to the drain phase, whatever else holds
    assert_eq!(handshake_decide(true, true, true, false), HsNext::Finished);
    assert_eq!(handshake_decide(false, false, false, false), HsNext::Finished);
}

#[test]
fn builder_sizes_and_defaults() {
    let (cc, _) = test_identity("monoio.rs");
    let connector = TlsConnector::new(Arc::new(cc))
        .read_buffer(Some(1024))
        .write_buffer(Some(2048));
    assert_eq!(connector.read_buffer, Some(1024));
    assert_eq!(connector.write_buffer, Some(2048));
    let s = connector.start_connect("monoio.rs").unwrap();
    assert_eq!(s.r_buffer.pump_capacity(), 1024);
    assert_eq!(s.w_buffer.staged_available(), 2048);

    // a stream wrapped without chosen sizes uses the default capacity
    let session = s.into_parts();
    let s2 = Stream::new(session);
    assert_eq!(s2.r_buffer.pump_capacity(), 16 * 1024);
    assert_eq!(s2.w_buffer.staged_available(), 16 * 1024);
    assert!(!s2.close_sent);
}

#[test]
fn peer_alert_mid_handshake() {
    let (cc, sc) = test_identity("monoio.rs");
    let connector = TlsConnector::new(Arc::new(cc));
    let acceptor = TlsAcceptor::new(Arc::new(sc));
    let mut client = connector.start_connect("monoio.rs").unwrap();
    let mut server = acceptor.start_accept().unwrap();
    let mut c2s = Vec::new();
    let mut s2c = Vec::new();

    // the client sends its first flight, then gives up and queues the
    // closing alert instead of finishing the handshake
    while client.wants_write() {
        if run_write_io(&mut client, &mut c2s).unwrap() == 0 {
            break;
        }
    }
    assert!(client.shutdown_begin());
    while client.wants_write() {
        if run_write_io(&mut client, &mut c2s).unwrap() == 0 {
            break;
        }
    }

    // the server ingests the flight and the alert: a peer that closes while
    // still handshaking is an unexpected end of stream
    let err = loop {
        match run_read_io(&mut server, &mut c2s, true, false, &mut s2c) {
            Ok(Some(_)) => continue,
            Ok(None) => panic!("the alert must terminate the handshake"),
            Err(e) => break e,
        }
    };
    // the engine may reject the premature alert outright (invalid data) or
    // report the peer's close as an unexpected end of stream; either way the
    // handshake terminates with an error instead of hanging or panicking
    assert!(
        err.kind == IoErrorKind::InvalidData
            || (err.kind == IoErrorKind::UnexpectedEof
                && (err.msg == "tls handshake alert" || err.msg == "tls handshake eof")),
        "unexpected failure shape: {:?} {:?}",
        err.kind,
        err.msg
    );
}
