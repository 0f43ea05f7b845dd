//! The safe staging pair.  `SafeRead` marshals bytes from the transport to
//! the engine's synchronous reads; `SafeWrite` marshals bytes from the
//! engine's synchronous writes to the transport.  Each carries a terminal
//! status beside its buffer.  On the read side the status is one-shot: the
//! next synchronous read of an empty buffer consumes it.  On the write side
//! a stored error is sticky: every subsequent operation surfaces it.

use vstd::prelude::*;

use crate::buffer::Buffer;
use crate::error::{IoError, IoErrorKind};

verus! {

/// The staging capacity used when none is chosen: 16 KiB.
pub const DEFAULT_BUFFER_SIZE: usize = 16 * 1024;

/// What the read side learned from the transport, reported to the engine's
/// next synchronous read of an empty buffer, then reset.
#[derive(Debug)]
pub enum ReadStatus {
    /// The transport reported end of stream.
    Eof,
    /// The transport failed; the stored error is surfaced once.
    Failed(IoError),
    /// Nothing terminal: an empty buffer means a pump is needed.
    Ready,
}

/// The read-direction staging state: a buffer of record bytes read from the
/// transport, plus the one-shot terminal status.
#[derive(Debug)]
pub struct SafeRead {
    buffer: Buffer,
    status: ReadStatus,
}

impl SafeRead {
    /// Well-formedness of the staging buffer.
    pub closed spec fn wf(&self) -> bool {
        self.buffer.wf()
    }

    /// The staged, not yet consumed record bytes.
    pub closed spec fn spec_content(&self) -> Seq<u8> {
        self.buffer@
    }

    /// The current terminal status.
    pub closed spec fn spec_status(&self) -> ReadStatus {
        self.status
    }

    /// The staging capacity.
    pub closed spec fn spec_capacity(&self) -> int {
        self.buffer.spec_capacity()
    }

    /// A fresh read-staging state with the given buffer capacity.
    pub fn new(buffer_size: usize) -> (r: SafeRead)
        ensures
            r.wf(),
            r.spec_content() == Seq::<u8>::empty(),
            r.spec_status() is Ready,
            r.spec_capacity() == buffer_size,
    {
        SafeRead { buffer: Buffer::new(buffer_size), status: ReadStatus::Ready }
    }

    /// Whether any staged bytes remain unconsumed.
    pub fn staged_is_empty(&self) -> (r: bool)
        requires
            self.wf(),
        ensures
            r == (self.spec_content().len() == 0),
    {
        self.buffer.is_empty()
    }

    /// Borrow the staged record bytes, to hand them to the engine.
    pub fn staged_content<'a>(&'a self) -> (s: &'a [u8])
        requires
            self.wf(),
        ensures
            s@ == self.spec_content(),
    {
        self.buffer.content()
    }

    /// Drop the first `n` staged bytes after the engine consumed them.
    pub fn advance_staged(&mut self, n: usize)
        requires
            old(self).wf(),
            n <= old(self).spec_content().len(),
        ensures
            final(self).wf(),
            final(self).spec_content() == old(self).spec_content().skip(n as int),
            final(self).spec_status() == old(self).spec_status(),
            final(self).spec_capacity() == old(self).spec_capacity(),
    {
        self.buffer.advance(n);
    }

    /// Take the terminal status, leaving `Ready` in its place.  This is the
    /// one-shot consumption of what the last pump learned.
    pub fn consume_status(&mut self) -> (st: ReadStatus)
        requires
            old(self).wf(),
        ensures
            final(self).wf(),
            st == old(self).spec_status(),
            final(self).spec_status() is Ready,
            final(self).spec_content() == old(self).spec_content(),
            final(self).spec_capacity() == old(self).spec_capacity(),
            old(self).spec_status() is Ready ==> *final(self) == *old(self),
    {
        let mut st = ReadStatus::Ready;
        core::mem::swap(&mut st, &mut self.status);
        st
    }

    /// The engine's synchronous read.  Copies staged bytes into the front of
    /// the rented destination; on an empty buffer it reports the terminal
    /// status instead: end of stream as zero bytes, a stored error once, and
    /// otherwise `WouldBlock` so the outer loop pumps the transport.
    pub fn read(&mut self, dst: Vec<u8>) -> (r: (Result<usize, IoError>, Vec<u8>))
        requires
            old(self).wf(),
        ensures
            final(self).wf(),
            final(self).spec_capacity() == old(self).spec_capacity(),
            r.1@.len() == dst@.len(),
            old(self).spec_content().len() == 0 ==> {
                &&& final(self).spec_status() is Ready
                &&& final(self).spec_content().len() == 0
                &&& r.1@ == dst@
                &&& (old(self).spec_status() is Eof ==> r.0 == Ok::<usize, IoError>(0))
                &&& (old(self).spec_status() matches ReadStatus::Failed(e) ==> r.0 == Err::<
                    usize,
                    IoError,
                >(e))
                &&& (old(self).spec_status() is Ready ==> (r.0 matches Err(e) && e.kind
                    == IoErrorKind::WouldBlock))
            },
            old(self).spec_content().len() > 0 ==> {
                let n = if old(self).spec_content().len() <= dst@.len() {
                    old(self).spec_content().len() as int
                } else {
                    dst@.len() as int
                };
                &&& r.0 == Ok::<usize, IoError>(n as usize)
                &&& r.1@ == old(self).spec_content().take(n) + dst@.skip(n)
                &&& final(self).spec_content() == old(self).spec_content().skip(n)
                &&& final(self).spec_status() == old(self).spec_status()
            },
    {
        if self.buffer.is_empty() {
            let mut st = ReadStatus::Ready;
            core::mem::swap(&mut st, &mut self.status);
            match st {
                ReadStatus::Eof => (Ok(0), dst),
                ReadStatus::Failed(e) => (Err(e), dst),
                ReadStatus::Ready => (Err(IoError::would_block()), dst),
            }
        } else {
            let (n, out) = self.buffer.copy_prefix(dst);
            self.buffer.advance(n);
            (Ok(n), out)
        }
    }

    /// Whether a pump can be answered without touching the transport: if
    /// staged bytes remain, their count is the pump's immediate result.
    pub fn pump_ready(&self) -> (r: Option<usize>)
        requires
            self.wf(),
        ensures
            self.spec_content().len() > 0 ==> r == Some(self.spec_content().len() as usize),
            self.spec_content().len() == 0 ==> r is None,
    {
        if self.buffer.is_empty() {
            None
        } else {
            Some(self.buffer.len())
        }
    }

    /// How many bytes the transport may deliver into the staging buffer.
    pub fn pump_capacity(&self) -> (n: usize)
        requires
            self.wf(),
            self.spec_content().len() == 0,
        ensures
            n == self.spec_capacity(),
    {
        proof {
            crate::buffer::lemma_buffer_invariant(self.buffer);
        }
        self.buffer.available()
    }

    /// Record the completion of a transport read performed on behalf of an
    /// empty staging buffer.  Delivered bytes become the staged content; zero
    /// bytes records end of stream; an error is stored and reported now by
    /// kind alone (the stored error surfaces once, on the next synchronous
    /// read).
    pub fn pump_complete(&mut self, res: Result<Vec<u8>, IoError>) -> (r: Result<usize, IoError>)
        requires
            old(self).wf(),
            old(self).spec_content().len() == 0,
            res matches Ok(b) ==> b@.len() <= old(self).spec_capacity(),
        ensures
            final(self).wf(),
            final(self).spec_capacity() == old(self).spec_capacity(),
            res matches Ok(b) ==> (b@.len() > 0 ==> {
                &&& r == Ok::<usize, IoError>(b.len())
                &&& final(self).spec_content() == b@
                &&& final(self).spec_status() is Ready
            }),
            res matches Ok(b) ==> (b@.len() == 0 ==> {
                &&& r == Ok::<usize, IoError>(0usize)
                &&& final(self).spec_content().len() == 0
                &&& final(self).spec_status() is Eof
            }),
            res matches Err(e) ==> {
                &&& r matches Err(k) && k.kind == e.kind && k.msg@ == Seq::<char>::empty()
                &&& final(self).spec_content().len() == 0
                &&& final(self).spec_status() matches ReadStatus::Failed(f) && f == e
            },
    {
        match res {
            Ok(bytes) => {
                if bytes.len() == 0 {
                    self.status = ReadStatus::Eof;
                    Ok(0)
                } else {
                    let n = bytes.len();
                    proof {
                        crate::buffer::lemma_buffer_invariant(self.buffer);
                    }
                    self.buffer.fill(bytes.as_slice(), n);
                    self.status = ReadStatus::Ready;
                    proof {
                        assert(self.spec_content() =~= bytes@);
                    }
                    Ok(n)
                }
            },
            Err(e) => {
                let k = e.kind_only();
                self.status = ReadStatus::Failed(e);
                Err(k)
            },
        }
    }
}

impl Default for SafeRead {
    /// A read-staging state with the default 16 KiB capacity.
    fn default() -> (r: SafeRead)
        ensures
            r.wf(),
            r.spec_content() == Seq::<u8>::empty(),
            r.spec_status() is Ready,
            r.spec_capacity() == DEFAULT_BUFFER_SIZE as int,
    {
        SafeRead::new(DEFAULT_BUFFER_SIZE)
    }
}

/// What the write side learned from the transport: an error is sticky and
/// surfaces on every subsequent operation.
#[derive(Debug)]
pub enum WriteStatus {
    /// The transport failed; the stored error stays and is surfaced by each
    /// later operation.
    Failed(IoError),
    /// Nothing terminal.
    Ready,
}

/// The write-direction staging state: a buffer of record bytes emitted by
/// the engine, waiting to be written to the transport, plus the one-shot
/// terminal status.
#[derive(Debug)]
pub struct SafeWrite {
    buffer: Buffer,
    status: WriteStatus,
}

impl SafeWrite {
    /// Well-formedness of the staging buffer.
    pub closed spec fn wf(&self) -> bool {
        self.buffer.wf()
    }

    /// The staged, not yet transported record bytes.
    pub closed spec fn spec_content(&self) -> Seq<u8> {
        self.buffer@
    }

    /// The current terminal status.
    pub closed spec fn spec_status(&self) -> WriteStatus {
        self.status
    }

    /// The staging capacity.
    pub closed spec fn spec_capacity(&self) -> int {
        self.buffer.spec_capacity()
    }

    /// How much room the staging buffer has left.
    pub closed spec fn spec_available(&self) -> int {
        self.buffer.spec_capacity() - self.buffer.spec_write_pos()
    }

    /// A fresh write-staging state with the given buffer capacity.
    pub fn new(buffer_size: usize) -> (r: SafeWrite)
        ensures
            r.wf(),
            r.spec_content() == Seq::<u8>::empty(),
            r.spec_status() is Ready,
            r.spec_capacity() == buffer_size,
            r.spec_available() == buffer_size,
    {
        SafeWrite { buffer: Buffer::new(buffer_size), status: WriteStatus::Ready }
    }

    /// Whether any staged bytes await the transport.
    pub fn staged_is_empty(&self) -> (r: bool)
        requires
            self.wf(),
        ensures
            r == (self.spec_content().len() == 0),
    {
        self.buffer.is_empty()
    }

    /// Whether the staging buffer can take no more bytes.
    pub fn staged_is_full(&self) -> (r: bool)
        requires
            self.wf(),
        ensures
            r == (self.spec_available() == 0),
    {
        self.buffer.is_full()
    }

    /// How many bytes the staging buffer can still take.
    pub fn staged_available(&self) -> (n: usize)
        requires
            self.wf(),
        ensures
            n == self.spec_available(),
    {
        self.buffer.available()
    }

    /// Report the stored transport error without clearing it: the write
    /// side's terminal status is sticky, so every later operation surfaces
    /// it again.
    pub fn stored_error(&self) -> (r: Option<IoError>)
        requires
            self.wf(),
        ensures
            self.spec_status() matches WriteStatus::Failed(e) ==> r == Some(e),
            self.spec_status() is Ready ==> r is None,
    {
        match &self.status {
            WriteStatus::Failed(e) => Some(e.duplicate()),
            WriteStatus::Ready => None,
        }
    }

    /// The engine's synchronous write.  A stored transport error surfaces
    /// first — and stays stored, so every later operation surfaces it too; a
    /// full buffer answers `WouldBlock` so the outer loop pumps the
    /// transport; otherwise as much of `src` as fits is staged.
    pub fn write(&mut self, src: &[u8]) -> (r: Result<usize, IoError>)
        requires
            old(self).wf(),
        ensures
            final(self).wf(),
            final(self).spec_capacity() == old(self).spec_capacity(),
            final(self).spec_status() == old(self).spec_status(),
            old(self).spec_status() matches WriteStatus::Failed(e) ==> {
                &&& r == Err::<usize, IoError>(e)
                &&& *final(self) == *old(self)
            },
            old(self).spec_status() is Ready && old(self).spec_available() == 0 ==> {
                &&& r matches Err(e) && e.kind == IoErrorKind::WouldBlock
                &&& *final(self) == *old(self)
            },
            old(self).spec_status() is Ready && old(self).spec_available() > 0 ==> {
                let n = if src@.len() <= old(self).spec_available() {
                    src@.len() as int
                } else {
                    old(self).spec_available()
                };
                &&& r == Ok::<usize, IoError>(n as usize)
                &&& final(self).spec_content() == old(self).spec_content() + src@.take(n)
                &&& final(self).spec_available() == old(self).spec_available() - n
            },
    {
        match &self.status {
            WriteStatus::Failed(e) => {
                return Err(e.duplicate());
            },
            WriteStatus::Ready => {},
        }
        if self.buffer.is_full() {
            return Err(IoError::would_block());
        }
        let avail = self.buffer.available();
        let n = if src.len() <= avail {
            src.len()
        } else {
            avail
        };
        self.buffer.fill(src, n);
        Ok(n)
    }

    /// The engine's synchronous flush.  A stored transport error surfaces
    /// first — and stays stored; staged bytes answer `WouldBlock` so the
    /// outer loop pumps the transport; an empty buffer reports success.
    pub fn flush(&mut self) -> (r: Result<(), IoError>)
        requires
            old(self).wf(),
        ensures
            final(self).wf(),
            *final(self) == *old(self),
            old(self).spec_status() matches WriteStatus::Failed(e) ==> r == Err::<(), IoError>(e),
            old(self).spec_status() is Ready && old(self).spec_content().len() > 0 ==> (r matches
                Err(e) && e.kind == IoErrorKind::WouldBlock),
            old(self).spec_status() is Ready && old(self).spec_content().len() == 0 ==> r == Ok::<
                (),
                IoError,
            >(()),
    {
        match &self.status {
            WriteStatus::Failed(e) => Err(e.duplicate()),
            WriteStatus::Ready => {
                if self.buffer.is_empty() {
                    Ok(())
                } else {
                    Err(IoError::would_block())
                }
            },
        }
    }

    /// The staged bytes the transport should be asked to write in full, or
    /// nothing if the buffer is empty and the pump can answer immediately.
    pub fn pump_data(&self) -> (r: Option<Vec<u8>>)
        requires
            self.wf(),
        ensures
            self.spec_content().len() == 0 ==> r is None,
            self.spec_content().len() > 0 ==> (r matches Some(v) && v@ == self.spec_content()),
    {
        if self.buffer.is_empty() {
            None
        } else {
            let len = self.buffer.len();
            let (n, out) = self.buffer.copy_prefix(vec![0u8; len]);
            proof {
                assert(out@ =~= self.spec_content());
            }
            Some(out)
        }
    }

    /// Record the completion of a transport write of the staged bytes.  On
    /// success the written prefix is dropped from the buffer (a full drain
    /// restores the whole capacity); an error is stored and reported now by
    /// kind alone.
    pub fn pump_complete(&mut self, res: Result<usize, IoError>) -> (r: Result<usize, IoError>)
        requires
            old(self).wf(),
            res matches Ok(n) ==> n <= old(self).spec_content().len(),
        ensures
            final(self).wf(),
            final(self).spec_capacity() == old(self).spec_capacity(),
            res matches Ok(n) ==> {
                &&& r == Ok::<usize, IoError>(n)
                &&& final(self).spec_content() == old(self).spec_content().skip(n as int)
                &&& final(self).spec_status() == old(self).spec_status()
                &&& (n == old(self).spec_content().len() ==> final(self).spec_available()
                    == final(self).spec_capacity())
            },
            res matches Err(e) ==> {
                &&& r matches Err(k) && k.kind == e.kind && k.msg@ == Seq::<char>::empty()
                &&& final(self).spec_content() == old(self).spec_content()
                &&& final(self).spec_status() matches WriteStatus::Failed(f) && f == e
            },
    {
        match res {
            Ok(n) => {
                self.buffer.advance(n);
                Ok(n)
            },
            Err(e) => {
                let k = e.kind_only();
                self.status = WriteStatus::Failed(e);
                Err(k)
            },
        }
    }
}

impl Default for SafeWrite {
    /// A write-staging state with the default 16 KiB capacity.
    fn default() -> (r: SafeWrite)
        ensures
            r.wf(),
            r.spec_content() == Seq::<u8>::empty(),
            r.spec_status() is Ready,
            r.spec_capacity() == DEFAULT_BUFFER_SIZE as int,
            r.spec_available() == DEFAULT_BUFFER_SIZE as int,
    {
        SafeWrite::new(DEFAULT_BUFFER_SIZE)
    }
}

} // verus!
