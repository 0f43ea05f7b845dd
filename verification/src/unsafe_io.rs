//! The zero-copy staging pair.  Instead of copying through an intermediate
//! region, the synchronous side records the length of the caller's buffer on
//! its first call and answers `WouldBlock`; the outer loop then performs one
//! real transport operation directly against the caller's memory and reports
//! the completion; the next synchronous call reports that result.  The raw
//! pointer itself stays with the code that performs the transport operation —
//! this module tracks the state machine over plain values.

use vstd::prelude::*;

use crate::error::{IoError, IoErrorKind};

verus! {

/// Where a zero-copy direction stands.  Used by both the read and the write
/// side.
#[derive(Debug)]
pub enum Status {
    /// No real transport operation has run; if a length was captured, the
    /// next pump must run one against the caller's buffer.
    WaitFill(Option<usize>),
    /// A real transport operation has run; its result waits to be reported
    /// by the next synchronous call.
    Filled(Result<usize, IoError>),
}

/// The status after a synchronous call with a destination of length `len`:
/// any waiting state captures the new length; a filled state is consumed.
pub open spec fn sync_step_status(pre: Status, len: usize) -> Status {
    match pre {
        Status::WaitFill(_) => Status::WaitFill(Some(len)),
        Status::Filled(_) => Status::WaitFill(None),
    }
}

/// The status after the outer loop reports the completion of the one real
/// transport operation run for a captured buffer.
pub open spec fn pump_step_status(res: Result<usize, IoError>) -> Status {
    Status::Filled(res)
}

/// Whether this status demands a real transport operation from the pump.
pub open spec fn wants_transport_io(s: Status) -> bool {
    s matches Status::WaitFill(Some(_))
}

/// The zero-copy read side: a state machine that alternates between
/// capturing the caller's buffer length and reporting the result of the one
/// transport read run against it.
#[derive(Debug)]
pub struct UnsafeRead {
    status: Status,
}

/// The zero-copy write side; the same machine as [`UnsafeRead`], driven by
/// transport writes instead of reads.
#[derive(Debug)]
pub struct UnsafeWrite {
    status: Status,
}

impl UnsafeRead {
    /// The current state.
    pub closed spec fn spec_status(&self) -> Status {
        self.status
    }

    /// A fresh state with nothing captured.
    pub fn new() -> (r: UnsafeRead)
        ensures
            r.spec_status() == Status::WaitFill(None::<usize>),
    {
        UnsafeRead { status: Status::WaitFill(None) }
    }

    /// Clear the state, dropping any captured length or unreported result.
    pub fn reset(&mut self)
        ensures
            final(self).spec_status() == Status::WaitFill(None::<usize>),
    {
        self.status = Status::WaitFill(None);
    }

    /// The synchronous read over a destination of length `len`.  While
    /// waiting it (re-)captures the length and answers `WouldBlock`; once
    /// filled it reports the transport's stored result intact and returns to
    /// the waiting state, so no result is ever reported twice.
    pub fn read(&mut self, len: usize) -> (r: Result<usize, IoError>)
        ensures
            final(self).spec_status() == sync_step_status(old(self).spec_status(), len),
            old(self).spec_status() matches Status::WaitFill(_) ==> (r matches Err(e) && e.kind
                == IoErrorKind::WouldBlock),
            old(self).spec_status() matches Status::Filled(stored) ==> r == stored,
    {
        let mut st = Status::WaitFill(None);
        core::mem::swap(&mut st, &mut self.status);
        match st {
            Status::WaitFill(_) => {
                self.status = Status::WaitFill(Some(len));
                Err(IoError::would_block())
            },
            Status::Filled(ret) => ret,
        }
    }

    /// What the pump must do: `Some(len)` demands one real transport read of
    /// up to `len` bytes into the captured buffer; `None` means no buffer was
    /// captured or a result already waits, and no transport operation may
    /// run.
    pub fn pump_query(&self) -> (r: Option<usize>)
        ensures
            self.spec_status() matches Status::WaitFill(Some(l)) ==> r == Some(l),
            !wants_transport_io(self.spec_status()) ==> r is None,
    {
        match &self.status {
            Status::WaitFill(Some(l)) => Some(*l),
            Status::WaitFill(None) => None,
            Status::Filled(_) => None,
        }
    }

    /// The pump's answer when no transport operation was run: a waiting
    /// state without a capture yields `WouldBlock`; a filled state re-reports
    /// the stored result without consuming it.
    pub fn pump_pending(&self) -> (r: Result<usize, IoError>)
        requires
            !wants_transport_io(self.spec_status()),
        ensures
            self.spec_status() == Status::WaitFill(None::<usize>) ==> (r matches Err(e) && e.kind
                == IoErrorKind::WouldBlock),
            self.spec_status() matches Status::Filled(stored) ==> match stored {
                Ok(n) => r == Ok::<usize, IoError>(n),
                Err(e) => r matches Err(k) && k.kind == e.kind,
            },
    {
        match &self.status {
            Status::WaitFill(_) => Err(IoError::would_block()),
            Status::Filled(ret) => match ret {
                Ok(n) => Ok(*n),
                Err(e) => Err(e.kind_only()),
            },
        }
    }

    /// Record the completion of the one real transport read run for the
    /// captured buffer.  The result is stored for the next synchronous read
    /// and reported now (errors by kind).
    pub fn pump_complete(&mut self, res: Result<usize, IoError>) -> (r: Result<usize, IoError>)
        requires
            wants_transport_io(old(self).spec_status()),
        ensures
            final(self).spec_status() matches Status::Filled(stored) && stored == res,
            final(self).spec_status() == pump_step_status(res),
            match res {
                Ok(n) => r == Ok::<usize, IoError>(n),
                Err(e) => r matches Err(k) && k.kind == e.kind,
            },
    {
        let out = match &res {
            Ok(n) => Ok(*n),
            Err(e) => Err(e.kind_only()),
        };
        self.status = Status::Filled(res);
        out
    }
}

impl Default for UnsafeRead {
    /// A fresh state with nothing captured.
    fn default() -> (r: UnsafeRead)
        ensures
            r.spec_status() == Status::WaitFill(None::<usize>),
    {
        UnsafeRead::new()
    }
}

impl UnsafeWrite {
    /// The current state.
    pub closed spec fn spec_status(&self) -> Status {
        self.status
    }

    /// A fresh state with nothing captured.
    pub fn new() -> (r: UnsafeWrite)
        ensures
            r.spec_status() == Status::WaitFill(None::<usize>),
    {
        UnsafeWrite { status: Status::WaitFill(None) }
    }

    /// Clear the state, dropping any captured length or unreported result.
    pub fn reset(&mut self)
        ensures
            final(self).spec_status() == Status::WaitFill(None::<usize>),
    {
        self.status = Status::WaitFill(None);
    }

    /// The synchronous write of a source of length `len`; the same machine
    /// as [`UnsafeRead::read`], reporting the stored result intact.
    pub fn write(&mut self, len: usize) -> (r: Result<usize, IoError>)
        ensures
            final(self).spec_status() == sync_step_status(old(self).spec_status(), len),
            old(self).spec_status() matches Status::WaitFill(_) ==> (r matches Err(e) && e.kind
                == IoErrorKind::WouldBlock),
            old(self).spec_status() matches Status::Filled(stored) ==> r == stored,
    {
        let mut st = Status::WaitFill(None);
        core::mem::swap(&mut st, &mut self.status);
        match st {
            Status::WaitFill(_) => {
                self.status = Status::WaitFill(Some(len));
                Err(IoError::would_block())
            },
            Status::Filled(ret) => ret,
        }
    }

    /// The synchronous flush: nothing is staged here, so this always
    /// succeeds.
    pub fn flush(&mut self) -> (r: Result<(), IoError>)
        ensures
            final(self).spec_status() == old(self).spec_status(),
            r == Ok::<(), IoError>(()),
    {
        Ok(())
    }

    /// What the pump must do; see [`UnsafeRead::pump_query`].
    pub fn pump_query(&self) -> (r: Option<usize>)
        ensures
            self.spec_status() matches Status::WaitFill(Some(l)) ==> r == Some(l),
            !wants_transport_io(self.spec_status()) ==> r is None,
    {
        match &self.status {
            Status::WaitFill(Some(l)) => Some(*l),
            Status::WaitFill(None) => None,
            Status::Filled(_) => None,
        }
    }

    /// The pump's answer when no transport operation was run; see
    /// [`UnsafeRead::pump_pending`].
    pub fn pump_pending(&self) -> (r: Result<usize, IoError>)
        requires
            !wants_transport_io(self.spec_status()),
        ensures
            self.spec_status() == Status::WaitFill(None::<usize>) ==> (r matches Err(e) && e.kind
                == IoErrorKind::WouldBlock),
            self.spec_status() matches Status::Filled(stored) ==> match stored {
                Ok(n) => r == Ok::<usize, IoError>(n),
                Err(e) => r matches Err(k) && k.kind == e.kind,
            },
    {
        match &self.status {
            Status::WaitFill(_) => Err(IoError::would_block()),
            Status::Filled(ret) => match ret {
                Ok(n) => Ok(*n),
                Err(e) => Err(e.kind_only()),
            },
        }
    }

    /// Record the completion of the one real transport write run for the
    /// captured buffer; see [`UnsafeRead::pump_complete`].
    pub fn pump_complete(&mut self, res: Result<usize, IoError>) -> (r: Result<usize, IoError>)
        requires
            wants_transport_io(old(self).spec_status()),
        ensures
            final(self).spec_status() matches Status::Filled(stored) && stored == res,
            final(self).spec_status() == pump_step_status(res),
            match res {
                Ok(n) => r == Ok::<usize, IoError>(n),
                Err(e) => r matches Err(k) && k.kind == e.kind,
            },
    {
        let out = match &res {
            Ok(n) => Ok(*n),
            Err(e) => Err(e.kind_only()),
        };
        self.status = Status::Filled(res);
        out
    }
}

impl Default for UnsafeWrite {
    /// A fresh state with nothing captured.
    fn default() -> (r: UnsafeWrite)
        ensures
            r.spec_status() == Status::WaitFill(None::<usize>),
    {
        UnsafeWrite::new()
    }
}

/// A captured buffer sees exactly one real transport operation before a
/// result is reported: only a captured state demands transport I/O, the
/// pump's completion moves it to the filled state (which demands none), and
/// the synchronous call that reports the stored result returns the machine
/// to the waiting state, so another transport operation can run only after a
/// new capture.
pub proof fn lemma_zero_copy_single_io(len: usize, res: Result<usize, IoError>, cap: usize)
    ensures
        wants_transport_io(Status::WaitFill(Some(cap))),
        !wants_transport_io(pump_step_status(res)),
        !wants_transport_io(Status::WaitFill(None::<usize>)),
        sync_step_status(pump_step_status(res), len) == Status::WaitFill(None::<usize>),
        sync_step_status(Status::WaitFill(None::<usize>), len) == Status::WaitFill(Some(len)),
{
}

} // verus!
