//! A synchronous façade over a rent-style transport, for engines that drive
//! their own record I/O through a blocking read/write interface.  Reads are
//! served from the read staging buffer.  Writes run a three-state protocol
//! per burst: the first synchronous write stages the bytes, answers
//! `WouldBlock`, and remembers the burst's size; the outer loop then pumps
//! the staging buffer to the transport until the burst is out; the retried
//! synchronous write finally reports the staged count.

use vstd::prelude::*;

use crate::error::{IoError, IoErrorKind};
use crate::safe_io::{ReadStatus, SafeRead, SafeWrite, WriteStatus, DEFAULT_BUFFER_SIZE};

verus! {

/// Where the write side's burst protocol stands.
#[derive(Clone, Copy, PartialEq, Eq, Structural, Debug)]
pub enum ProcessState {
    /// No burst in flight: the next synchronous write starts one.
    Unknown,
    /// A burst of the first count is staged and the second count of it has
    /// reached the transport.
    Pending(usize, usize),
    /// The burst is out; the retried synchronous write reports this count.
    Proceed(usize),
}

/// What the outer loop should do for the write side.
#[derive(Clone, Copy, PartialEq, Eq, Structural, Debug)]
pub enum WriteAdvance {
    /// No burst in flight: report zero progress.
    Idle,
    /// The burst is fully on the transport: the retried synchronous write
    /// will report this count.
    Complete(usize),
    /// Burst bytes remain: pump the write staging buffer once and record the
    /// count with `note_pumped`.
    NeedPump,
}

/// The synchronous façade: the transport handle, one staging buffer per
/// direction, and the write side's burst state.
#[derive(Debug)]
pub struct StdAdapter<S> {
    /// The rent-style transport handle; the outer loop performs all real I/O
    /// on it.
    pub inner: S,
    /// The read-direction staging state.
    pub r_buffer: SafeRead,
    /// The write-direction staging state.
    pub w_buffer: SafeWrite,
    /// The write side's burst state.
    pub w_state: ProcessState,
}

impl<S> StdAdapter<S> {
    /// Both staging buffers are well-formed.
    pub open spec fn wf(&self) -> bool {
        &&& self.r_buffer.wf()
        &&& self.w_buffer.wf()
    }

    /// Wrap a transport handle with default-size staging buffers and no
    /// burst in flight.
    pub fn new(inner: S) -> (a: StdAdapter<S>)
        ensures
            a.wf(),
            a.w_state == ProcessState::Unknown,
            a.r_buffer.spec_content().len() == 0,
            a.r_buffer.spec_status() is Ready,
            a.r_buffer.spec_capacity() == DEFAULT_BUFFER_SIZE as int,
            a.w_buffer.spec_content().len() == 0,
            a.w_buffer.spec_status() is Ready,
            a.w_buffer.spec_capacity() == DEFAULT_BUFFER_SIZE as int,
    {
        StdAdapter {
            inner,
            r_buffer: SafeRead::new(DEFAULT_BUFFER_SIZE),
            w_buffer: SafeWrite::new(DEFAULT_BUFFER_SIZE),
            w_state: ProcessState::Unknown,
        }
    }

    /// Take the façade apart: the transport handle and the two staging
    /// states.
    pub fn into_parts(self) -> (r: (S, SafeRead, SafeWrite))
        ensures
            r.0 == self.inner,
            r.1 == self.r_buffer,
            r.2 == self.w_buffer,
    {
        let StdAdapter { inner, r_buffer, w_buffer, w_state } = self;
        (inner, r_buffer, w_buffer)
    }

    /// The engine's synchronous read: served from the read staging buffer,
    /// with the same terminal-status behavior as [`SafeRead::read`].
    pub fn read(&mut self, dst: Vec<u8>) -> (r: (Result<usize, IoError>, Vec<u8>))
        requires
            old(self).wf(),
        ensures
            final(self).wf(),
            final(self).w_buffer == old(self).w_buffer,
            final(self).w_state == old(self).w_state,
            r.1@.len() == dst@.len(),
            old(self).r_buffer.spec_content().len() == 0 && old(self).r_buffer.spec_status()
                is Ready ==> (r.0 matches Err(e) && e.kind == IoErrorKind::WouldBlock),
            old(self).r_buffer.spec_content().len() == 0 && old(self).r_buffer.spec_status() is Eof
                ==> r.0 == Ok::<usize, IoError>(0),
            old(self).r_buffer.spec_content().len() == 0 ==> (old(
                self,
            ).r_buffer.spec_status() matches ReadStatus::Failed(e) ==> r.0 == Err::<usize, IoError>(
                e,
            ) && final(self).r_buffer.spec_status() is Ready),
            old(self).r_buffer.spec_content().len() > 0 ==> (r.0 matches Ok(n) && n <= dst@.len()
                && r.1@.take(n as int) == old(self).r_buffer.spec_content().take(n as int)),
    {
        self.r_buffer.read(dst)
    }

    /// The engine's synchronous write.  With no burst in flight, the bytes
    /// are staged, the burst is recorded, and `WouldBlock` tells the engine
    /// to retry after the outer loop has pumped; while the burst is being
    /// pumped the answer stays `WouldBlock`; once it is out, the retried
    /// write reports the staged count.  A transport error stored by an
    /// earlier pump is sticky: it surfaces instead of starting a burst and
    /// stays stored.
    pub fn write(&mut self, src: &[u8]) -> (r: Result<usize, IoError>)
        requires
            old(self).wf(),
        ensures
            final(self).wf(),
            final(self).r_buffer == old(self).r_buffer,
            old(self).w_state == ProcessState::Unknown ==> {
                &&& (old(self).w_buffer.spec_status() matches WriteStatus::Failed(f) ==> r
                    == Err::<usize, IoError>(f) && *final(self) == *old(self))
                &&& (old(self).w_buffer.spec_status() is Ready
                    && old(self).w_buffer.spec_available() > 0 ==> {
                    let n = if src@.len() <= old(self).w_buffer.spec_available() {
                        src@.len() as int
                    } else {
                        old(self).w_buffer.spec_available()
                    };
                    &&& (r matches Err(e) && e.kind == IoErrorKind::WouldBlock)
                    &&& final(self).w_state == ProcessState::Pending(n as usize, 0usize)
                    &&& final(self).w_buffer.spec_content() == old(self).w_buffer.spec_content()
                        + src@.take(n)
                    &&& final(self).w_buffer.spec_status() is Ready
                    &&& final(self).w_buffer.spec_capacity() == old(self).w_buffer.spec_capacity()
                })
                &&& (old(self).w_buffer.spec_status() is Ready
                    && old(self).w_buffer.spec_available() == 0 ==> (r matches Err(e) && e.kind
                    == IoErrorKind::WouldBlock) && final(self).w_state == ProcessState::Unknown
                    && final(self).w_buffer == old(self).w_buffer)
            },
            old(self).w_state matches ProcessState::Pending(t, c) ==> (r matches Err(e) && e.kind
                == IoErrorKind::WouldBlock) && *final(self) == *old(self),
            old(self).w_state matches ProcessState::Proceed(n) ==> r == Ok::<usize, IoError>(n)
                && final(self).w_state == ProcessState::Unknown
                && final(self).w_buffer == old(self).w_buffer,
    {
        match self.w_state {
            ProcessState::Unknown => {
                match self.w_buffer.write(src) {
                    Ok(n) => {
                        self.w_state = ProcessState::Pending(n, 0);
                        Err(IoError::would_block())
                    },
                    Err(e) => Err(e),
                }
            },
            ProcessState::Pending(_, _) => Err(IoError::would_block()),
            ProcessState::Proceed(n) => {
                self.w_state = ProcessState::Unknown;
                Ok(n)
            },
        }
    }

    /// The engine's synchronous flush: the write staging buffer's flush.  A
    /// stored transport error surfaces and stays stored.
    pub fn flush(&mut self) -> (r: Result<(), IoError>)
        requires
            old(self).wf(),
        ensures
            final(self).wf(),
            *final(self) == *old(self),
            old(self).w_buffer.spec_status() matches WriteStatus::Failed(f) ==> r == Err::<
                (),
                IoError,
            >(f),
            old(self).w_buffer.spec_status() is Ready && old(self).w_buffer.spec_content().len()
                == 0 ==> r == Ok::<(), IoError>(()),
            old(self).w_buffer.spec_status() is Ready && old(self).w_buffer.spec_content().len()
                > 0 ==> (r matches Err(e) && e.kind == IoErrorKind::WouldBlock),
    {
        self.w_buffer.flush()
    }

    /// The outer loop's write-side decision: with no burst in flight there
    /// is nothing to do; a burst fully on the transport completes (the state
    /// moves so the retried synchronous write reports it); otherwise the
    /// staging buffer must be pumped once.
    pub fn write_advance(&mut self) -> (r: WriteAdvance)
        requires
            old(self).wf(),
        ensures
            final(self).wf(),
            final(self).r_buffer == old(self).r_buffer,
            final(self).w_buffer == old(self).w_buffer,
            old(self).w_state == ProcessState::Unknown ==> r == WriteAdvance::Idle
                && final(self).w_state == old(self).w_state,
            old(self).w_state matches ProcessState::Pending(t, c) ==> {
                &&& (c >= t ==> r == WriteAdvance::Complete(c) && final(self).w_state
                    == ProcessState::Proceed(c))
                &&& (c < t ==> r == WriteAdvance::NeedPump
                    && final(self).w_state == old(self).w_state)
            },
            old(self).w_state matches ProcessState::Proceed(n) ==> r == WriteAdvance::Idle
                && final(self).w_state == old(self).w_state,
    {
        match self.w_state {
            ProcessState::Unknown => WriteAdvance::Idle,
            ProcessState::Pending(t, c) => {
                if c >= t {
                    self.w_state = ProcessState::Proceed(c);
                    WriteAdvance::Complete(c)
                } else {
                    WriteAdvance::NeedPump
                }
            },
            ProcessState::Proceed(_) => WriteAdvance::Idle,
        }
    }

    /// Record how many burst bytes one pump moved to the transport
    /// (saturating at the tally's maximum).
    pub fn note_pumped(&mut self, n: usize)
        requires
            old(self).wf(),
            old(self).w_state is Pending,
        ensures
            final(self).wf(),
            final(self).r_buffer == old(self).r_buffer,
            final(self).w_buffer == old(self).w_buffer,
            old(self).w_state matches ProcessState::Pending(t, c) ==> final(self).w_state
                == ProcessState::Pending(
                t,
                if c + n <= usize::MAX {
                    (c + n) as usize
                } else {
                    usize::MAX
                },
            ),
    {
        match self.w_state {
            ProcessState::Pending(t, c) => {
                let c2 = if n <= usize::MAX - c {
                    c + n
                } else {
                    usize::MAX
                };
                self.w_state = ProcessState::Pending(t, c2);
            },
            _ => {},
        }
    }
}

} // verus!
