//! The TLS stream: the engine session plus one staging buffer per
//! direction.  Every operation that needs the transport is split at the
//! transport boundary: a step function makes all the decisions and either
//! finishes or asks the caller to run one pump (a single transport
//! round-trip against the matching staging buffer) and call the step again.
//! The decisions are verified; the transport work itself is whatever the
//! surrounding runtime provides.

use vstd::prelude::*;

use crate::error::{IoError, IoErrorKind};
use crate::safe_io::{ReadStatus, SafeRead, SafeWrite, WriteStatus, DEFAULT_BUFFER_SIZE};
use crate::session;

verus! {

/// One step of record intake (`read_io`): feed staged record bytes to the
/// engine and run its state machine.
pub enum ReadIoStep {
    /// The staging buffer is drained and nothing terminal is stored: run one
    /// read pump, then step again.
    NeedPump,
    /// Record intake finished; the engine consumed this many staged bytes.
    /// Zero means the transport had reported end of stream.
    Done(usize),
    /// Record intake failed; report this error.
    Fail(IoError),
    /// The engine rejected the records.  Drain outgoing records once with
    /// best effort (the engine queues an alert) and then report this error.
    /// Never produced for a split read half, whose alert write would race
    /// the write half.
    FailAfterFlush(IoError),
}

/// One step of record output (`write_io`): pull queued record bytes from the
/// engine into the staging buffer.
pub enum WriteIoStep {
    /// The staging buffer is full: run one write pump, then step again.
    NeedPump,
    /// The engine emitted this many record bytes into the staging buffer:
    /// run one write pump to pass them on, then finish with this count.
    Emitted(usize),
    /// Record output failed; report this error.
    Fail(IoError),
}

/// One attempt to hand decrypted plaintext to the caller.
pub enum ReadPlainStep {
    /// This many plaintext bytes were copied into the front of the rented
    /// buffer.  Zero means the peer closed cleanly.
    Done(usize),
    /// No plaintext is buffered: run record intake (`read_io`) and try
    /// again.
    NeedRecords,
    /// The read failed; report this error.
    Fail(IoError),
}

/// Whether a shutdown in the given closing state queues the closing alert:
/// only when none was queued before.
pub open spec fn spec_shutdown_issues(close_sent: bool) -> bool {
    !close_sent
}

/// The closing state after a shutdown: the alert has been queued (now or
/// earlier).
pub open spec fn spec_shutdown_post(close_sent: bool) -> bool {
    true
}

/// Shutting down twice sends the closing alert exactly once: the first
/// shutdown leaves the stream in the closed state, and a shutdown of a
/// closed stream issues nothing.
pub proof fn lemma_shutdown_idempotent(pre: bool)
    ensures
        !spec_shutdown_issues(spec_shutdown_post(pre)),
        !pre ==> spec_shutdown_issues(pre),
{
}

/// A TLS stream over some rent-style transport: the engine session, a read
/// staging buffer and a write staging buffer, and whether the closing alert
/// has been queued.
pub struct Stream {
    /// The engine session; opaque to the proofs, reached only through the
    /// trusted session boundary.
    pub session: rustls::Connection,
    /// The read-direction staging state; the holder of the transport pumps
    /// it when a step asks for that.
    pub r_buffer: SafeRead,
    /// The write-direction staging state.
    pub w_buffer: SafeWrite,
    /// Whether the closing alert has been queued (set once by
    /// `shutdown_begin`).
    pub close_sent: bool,
}

impl Stream {
    /// Both staging buffers are well-formed.
    pub open spec fn wf(&self) -> bool {
        &&& self.r_buffer.wf()
        &&& self.w_buffer.wf()
    }

    /// Whether the closing alert has already been queued.
    pub open spec fn spec_close_sent(&self) -> bool {
        self.close_sent
    }

    /// Wrap a fresh session with default-size staging buffers.
    pub fn new(session: rustls::Connection) -> (s: Stream)
        ensures
            s.wf(),
            s.r_buffer.spec_content().len() == 0,
            s.r_buffer.spec_status() is Ready,
            s.r_buffer.spec_capacity() == DEFAULT_BUFFER_SIZE as int,
            s.w_buffer.spec_content().len() == 0,
            s.w_buffer.spec_status() is Ready,
            s.w_buffer.spec_capacity() == DEFAULT_BUFFER_SIZE as int,
            !s.spec_close_sent(),
    {
        Stream {
            session,
            r_buffer: SafeRead::new(DEFAULT_BUFFER_SIZE),
            w_buffer: SafeWrite::new(DEFAULT_BUFFER_SIZE),
            close_sent: false,
        }
    }

    /// Wrap a fresh session, choosing each staging capacity or falling back
    /// to the default.
    pub fn new_with_buffer_size(
        session: rustls::Connection,
        read_size: Option<usize>,
        write_size: Option<usize>,
    ) -> (s: Stream)
        ensures
            s.wf(),
            s.r_buffer.spec_content().len() == 0,
            s.r_buffer.spec_status() is Ready,
            s.r_buffer.spec_capacity() == match read_size {
                Some(n) => n as int,
                None => DEFAULT_BUFFER_SIZE as int,
            },
            s.w_buffer.spec_content().len() == 0,
            s.w_buffer.spec_status() is Ready,
            s.w_buffer.spec_capacity() == match write_size {
                Some(n) => n as int,
                None => DEFAULT_BUFFER_SIZE as int,
            },
            !s.spec_close_sent(),
    {
        let r = match read_size {
            Some(n) => n,
            None => DEFAULT_BUFFER_SIZE,
        };
        let w = match write_size {
            Some(n) => n,
            None => DEFAULT_BUFFER_SIZE,
        };
        Stream {
            session,
            r_buffer: SafeRead::new(r),
            w_buffer: SafeWrite::new(w),
            close_sent: false,
        }
    }

    /// Give the session back, dropping the staging buffers.
    pub fn into_parts(self) -> rustls::Connection {
        self.session
    }

    /// The protocol agreed via ALPN, if the engine negotiated one.
    pub fn alpn_protocol(&self) -> Option<Vec<u8>> {
        session::session_alpn_protocol(&self.session)
    }

    /// Whether the engine wants more record bytes from the transport.
    pub fn wants_read(&self) -> bool {
        session::session_wants_read(&self.session)
    }

    /// Whether the engine has record bytes queued for the transport.
    pub fn wants_write(&self) -> bool {
        session::session_wants_write(&self.session)
    }

    /// Whether the engine is still handshaking.
    pub fn is_handshaking(&self) -> bool {
        session::session_is_handshaking(&self.session)
    }

    /// One step of record intake.  An empty staging buffer reports what the
    /// last pump learned — a pump is needed, the stream ended, or the stored
    /// transport error — and otherwise the engine consumes staged bytes and
    /// its state machine runs.  A peer that closes while still handshaking
    /// is an unexpected end of stream; records the engine rejects surface as
    /// invalid data, after a best-effort alert flush unless this is the
    /// split read half.
    pub fn read_io_step(&mut self, splitted: bool) -> (r: ReadIoStep)
        requires
            old(self).wf(),
        ensures
            final(self).wf(),
            final(self).r_buffer.spec_capacity() == old(self).r_buffer.spec_capacity(),
            final(self).w_buffer == old(self).w_buffer,
            final(self).spec_close_sent() == old(self).spec_close_sent(),
            r is NeedPump <==> old(self).r_buffer.spec_content().len() == 0 && old(
                self,
            ).r_buffer.spec_status() is Ready,
            r is NeedPump ==> *final(self) == *old(self),
            r is Done && old(self).r_buffer.spec_content().len() == 0 ==> old(
                self,
            ).r_buffer.spec_status() is Eof,
            old(self).r_buffer.spec_content().len() == 0 ==> (old(
                self,
            ).r_buffer.spec_status() matches ReadStatus::Failed(e) ==> r == ReadIoStep::Fail(e)
                && final(self).r_buffer.spec_status() is Ready),
            r matches ReadIoStep::Done(n) ==> {
                &&& n <= old(self).r_buffer.spec_content().len()
                &&& final(self).r_buffer.spec_content() == old(self).r_buffer.spec_content().skip(
                    n as int,
                )
            },
            r matches ReadIoStep::FailAfterFlush(e) ==> !splitted && e.kind
                == IoErrorKind::InvalidData,
            splitted ==> !(r is FailAfterFlush),
    {
        let n: usize;
        if self.r_buffer.staged_is_empty() {
            match self.r_buffer.consume_status() {
                ReadStatus::Eof => {
                    n = 0;
                },
                ReadStatus::Failed(e) => {
                    return ReadIoStep::Fail(e);
                },
                ReadStatus::Ready => {
                    return ReadIoStep::NeedPump;
                },
            }
        } else {
            match session::session_read_tls(&mut self.session, self.r_buffer.staged_content()) {
                Ok(k) => {
                    self.r_buffer.advance_staged(k);
                    n = k;
                },
                Err(e) => {
                    return ReadIoStep::Fail(e);
                },
            }
        }
        match session::session_process_new_packets(&mut self.session) {
            Ok(peer_closed) => {
                if peer_closed && session::session_is_handshaking(&self.session) {
                    ReadIoStep::Fail(IoError::handshake_alert())
                } else {
                    ReadIoStep::Done(n)
                }
            },
            Err(diag) => {
                let e = IoError::invalid_data(diag);
                if splitted {
                    ReadIoStep::Fail(e)
                } else {
                    ReadIoStep::FailAfterFlush(e)
                }
            },
        }
    }

    /// One step of record output.  A stored transport error surfaces first
    /// (and stays stored, so the write path keeps failing); a full staging
    /// buffer asks for a pump; otherwise the engine emits as many queued
    /// record bytes as the staging buffer has room for, and the caller
    /// passes them on with one pump.
    pub fn write_io_step(&mut self) -> (r: WriteIoStep)
        requires
            old(self).wf(),
        ensures
            final(self).wf(),
            final(self).w_buffer.spec_capacity() == old(self).w_buffer.spec_capacity(),
            final(self).r_buffer == old(self).r_buffer,
            final(self).spec_close_sent() == old(self).spec_close_sent(),
            old(self).w_buffer.spec_status() matches WriteStatus::Failed(e) ==> r
                == WriteIoStep::Fail(e) && *final(self) == *old(self),
            r is NeedPump <==> old(self).w_buffer.spec_status() is Ready && old(
                self,
            ).w_buffer.spec_available() == 0,
            r is NeedPump ==> *final(self) == *old(self),
            r matches WriteIoStep::Emitted(n) ==> {
                &&& n <= old(self).w_buffer.spec_available()
                &&& final(self).w_buffer.spec_content().len() == old(
                    self,
                ).w_buffer.spec_content().len() + n
                &&& final(self).w_buffer.spec_content().take(
                    old(self).w_buffer.spec_content().len() as int,
                ) == old(self).w_buffer.spec_content()
                &&& final(self).w_buffer.spec_status() is Ready
            },
            r is NeedPump ==> final(self).w_buffer.spec_content() == old(
                self,
            ).w_buffer.spec_content(),
    {
        match self.w_buffer.stored_error() {
            Some(e) => {
                return WriteIoStep::Fail(e);
            },
            None => {},
        }
        if self.w_buffer.staged_is_full() {
            return WriteIoStep::NeedPump;
        }
        let limit = self.w_buffer.staged_available();
        match session::session_write_tls(&mut self.session, limit) {
            Err(e) => WriteIoStep::Fail(e),
            Ok(bytes) => {
                match self.w_buffer.write(bytes.as_slice()) {
                    Ok(n) => {
                        proof {
                            assert(old(self).w_buffer.spec_content() + bytes@.take(
                                bytes@.len() as int,
                            ) =~= old(self).w_buffer.spec_content() + bytes@);
                            assert((old(self).w_buffer.spec_content() + bytes@).take(
                                old(self).w_buffer.spec_content().len() as int,
                            ) =~= old(self).w_buffer.spec_content());
                        }
                        WriteIoStep::Emitted(n)
                    },
                    Err(e) => {
                        proof {
                            assert(false);
                        }
                        WriteIoStep::Fail(e)
                    },
                }
            },
        }
    }

    /// One attempt to hand plaintext to the caller over a rented buffer.
    /// Buffered plaintext (or a clean close) finishes immediately; an empty
    /// plaintext buffer asks the caller to run record intake first; any
    /// other failure is reported.  Only a successful read touches the rented
    /// buffer, and only its first `n` bytes.
    pub fn read_plain_step(&mut self, dst: Vec<u8>) -> (r: (ReadPlainStep, Vec<u8>))
        requires
            old(self).wf(),
        ensures
            final(self).wf(),
            final(self).r_buffer == old(self).r_buffer,
            final(self).w_buffer == old(self).w_buffer,
            final(self).spec_close_sent() == old(self).spec_close_sent(),
            r.1@.len() == dst@.len(),
            r.0 matches ReadPlainStep::Done(n) ==> n <= dst@.len() && r.1@.skip(n as int)
                == dst@.skip(n as int),
            r.0 is NeedRecords ==> r.1@ == dst@,
            r.0 matches ReadPlainStep::Fail(e) ==> e.kind != IoErrorKind::WouldBlock && r.1@
                == dst@,
    {
        let (res, buf) = session::session_reader_read(&mut self.session, dst);
        match res {
            Ok(n) => (ReadPlainStep::Done(n), buf),
            Err(e) => {
                if e.kind == IoErrorKind::WouldBlock {
                    (ReadPlainStep::NeedRecords, buf)
                } else {
                    (ReadPlainStep::Fail(e), buf)
                }
            },
        }
    }

    /// Hand plaintext to the engine, which buffers and encrypts it.  The
    /// engine's plaintext sink never fails; the accepted count never exceeds
    /// what was offered; the caller then drains record output while the
    /// engine wants to write.
    pub fn write_plain(&mut self, src: &[u8]) -> (r: Result<usize, IoError>)
        requires
            old(self).wf(),
        ensures
            final(self).wf(),
            final(self).r_buffer == old(self).r_buffer,
            final(self).w_buffer == old(self).w_buffer,
            final(self).spec_close_sent() == old(self).spec_close_sent(),
            r is Ok,
            r matches Ok(n) ==> n <= src@.len(),
    {
        session::session_writer_write(&mut self.session, src)
    }

    /// Flush the engine's plaintext side; the engine's sink flushes
    /// unconditionally with success.
    pub fn flush_plain(&mut self) -> (r: Result<(), IoError>)
        requires
            old(self).wf(),
        ensures
            final(self).wf(),
            final(self).r_buffer == old(self).r_buffer,
            final(self).w_buffer == old(self).w_buffer,
            final(self).spec_close_sent() == old(self).spec_close_sent(),
            r is Ok,
    {
        session::session_writer_flush(&mut self.session)
    }

    /// Queue the closing alert if this stream has not done so yet, and say
    /// whether it was queued now.  A second call is a no-op: the alert is
    /// never queued twice.  The caller then drains record output and shuts
    /// the transport's write side.
    pub fn shutdown_begin(&mut self) -> (issued: bool)
        requires
            old(self).wf(),
        ensures
            final(self).wf(),
            final(self).spec_close_sent() == spec_shutdown_post(old(self).spec_close_sent()),
            issued == spec_shutdown_issues(old(self).spec_close_sent()),
            final(self).r_buffer == old(self).r_buffer,
            final(self).w_buffer == old(self).w_buffer,
    {
        if !self.close_sent {
            session::session_send_close_notify(&mut self.session);
            self.close_sent = true;
            true
        } else {
            false
        }
    }

    /// The outcome of record intake during application reads: consuming zero
    /// record bytes means the transport ended mid-stream, which TLS treats
    /// as an unexpected end of the raw stream.
    pub fn read_io_outcome(n: usize) -> (r: Result<usize, IoError>)
        ensures
            n == 0 ==> (r matches Err(e) && e.kind == IoErrorKind::UnexpectedEof && e.msg@
                == "tls raw stream eof"@),
            n > 0 ==> r == Ok::<usize, IoError>(n),
    {
        if n == 0 {
            Err(IoError::raw_stream_eof())
        } else {
            Ok(n)
        }
    }
}

} // verus!
