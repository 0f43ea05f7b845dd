//! The per-direction buffer modes.  The safe mode stages bytes through an
//! intermediate region; the zero-copy mode captures the caller's buffer
//! length and lets the pump run the transport operation directly against the
//! caller's memory.  Each direction of a stream carries one of these.

use vstd::prelude::*;

use crate::error::{IoError, IoErrorKind};
use crate::safe_io::{ReadStatus, SafeRead, SafeWrite, WriteStatus};
use crate::unsafe_io::{sync_step_status, Status, UnsafeRead, UnsafeWrite};

verus! {

/// The read-direction buffer: staging or zero-copy.
#[derive(Debug)]
pub enum ReadBuffer {
    Safe(SafeRead),
    Unsafe(UnsafeRead),
}

/// The write-direction buffer: staging or zero-copy.
#[derive(Debug)]
pub enum WriteBuffer {
    Safe(SafeWrite),
    Unsafe(UnsafeWrite),
}

impl ReadBuffer {
    /// Well-formedness of the carried staging state.
    pub open spec fn wf(&self) -> bool {
        match self {
            ReadBuffer::Safe(b) => b.wf(),
            ReadBuffer::Unsafe(_) => true,
        }
    }

    /// A staging read buffer of the given capacity.
    pub fn new(buffer_size: usize) -> (r: ReadBuffer)
        ensures
            r.wf(),
            r matches ReadBuffer::Safe(b) && b.spec_content().len() == 0 && b.spec_status()
                is Ready && b.spec_capacity() == buffer_size,
    {
        ReadBuffer::Safe(SafeRead::new(buffer_size))
    }

    /// A zero-copy read buffer.  The code that pumps it must keep the
    /// caller's buffer valid until the transport operation completes.
    pub fn new_unsafe() -> (r: ReadBuffer)
        ensures
            r.wf(),
            r matches ReadBuffer::Unsafe(u) && u.spec_status() == Status::WaitFill(None::<usize>),
    {
        ReadBuffer::Unsafe(UnsafeRead::new())
    }

    /// Whether this is the staging (copying) mode.
    pub fn is_safe(&self) -> (r: bool)
        ensures
            r == (self matches ReadBuffer::Safe(_)),
    {
        match self {
            ReadBuffer::Safe(_) => true,
            ReadBuffer::Unsafe(_) => false,
        }
    }

    /// The engine's synchronous read, dispatched to the carried mode over a
    /// rented destination.
    pub fn read(&mut self, dst: Vec<u8>) -> (r: (Result<usize, IoError>, Vec<u8>))
        requires
            old(self).wf(),
        ensures
            final(self).wf(),
            r.1@.len() == dst@.len(),
            (*old(self)) matches ReadBuffer::Safe(b) ==> {
                &&& (*final(self)) matches ReadBuffer::Safe(b2)
                &&& b.spec_content().len() == 0 ==> {
                    &&& (b.spec_status() is Eof ==> r.0 == Ok::<usize, IoError>(0))
                    &&& (b.spec_status() matches ReadStatus::Failed(e) ==> r.0 == Err::<
                        usize,
                        IoError,
                    >(e))
                    &&& (b.spec_status() is Ready ==> (r.0 matches Err(e) && e.kind
                        == IoErrorKind::WouldBlock))
                }
                &&& b.spec_content().len() > 0 ==> ((*final(self)) matches ReadBuffer::Safe(b2)
                    && {
                    let n = if b.spec_content().len() <= dst@.len() {
                        b.spec_content().len() as int
                    } else {
                        dst@.len() as int
                    };
                    &&& r.0 == Ok::<usize, IoError>(n as usize)
                    &&& r.1@ == b.spec_content().take(n) + dst@.skip(n)
                    &&& b2.spec_content() == b.spec_content().skip(n)
                    &&& b2.spec_status() == b.spec_status()
                })
            },
            (*old(self)) matches ReadBuffer::Unsafe(u) ==> {
                &&& r.1@ == dst@
                &&& (*final(self)) matches ReadBuffer::Unsafe(u2) && u2.spec_status()
                    == sync_step_status(u.spec_status(), dst.len())
                &&& (u.spec_status() matches Status::WaitFill(_) ==> (r.0 matches Err(e) && e.kind
                    == IoErrorKind::WouldBlock))
                &&& (u.spec_status() matches Status::Filled(stored) ==> match stored {
                    Ok(n) => r.0 == Ok::<usize, IoError>(n),
                    Err(e) => r.0 matches Err(k) && k.kind == e.kind,
                })
            },
    {
        match self {
            ReadBuffer::Safe(b) => b.read(dst),
            ReadBuffer::Unsafe(u) => {
                let len = dst.len();
                (u.read(len), dst)
            },
        }
    }
}

impl Default for ReadBuffer {
    /// A staging read buffer with the default capacity.
    fn default() -> (r: ReadBuffer)
        ensures
            r.wf(),
            r matches ReadBuffer::Safe(b) && b.spec_content().len() == 0 && b.spec_status()
                is Ready,
    {
        ReadBuffer::Safe(SafeRead::new(crate::safe_io::DEFAULT_BUFFER_SIZE))
    }
}

impl WriteBuffer {
    /// Well-formedness of the carried staging state.
    pub open spec fn wf(&self) -> bool {
        match self {
            WriteBuffer::Safe(b) => b.wf(),
            WriteBuffer::Unsafe(_) => true,
        }
    }

    /// A staging write buffer of the given capacity.
    pub fn new(buffer_size: usize) -> (r: WriteBuffer)
        ensures
            r.wf(),
            r matches WriteBuffer::Safe(b) && b.spec_content().len() == 0 && b.spec_status()
                is Ready && b.spec_capacity() == buffer_size && b.spec_available() == buffer_size,
    {
        WriteBuffer::Safe(SafeWrite::new(buffer_size))
    }

    /// A zero-copy write buffer.  The code that pumps it must keep the
    /// caller's buffer valid until the transport operation completes.
    pub fn new_unsafe() -> (r: WriteBuffer)
        ensures
            r.wf(),
            r matches WriteBuffer::Unsafe(u) && u.spec_status() == Status::WaitFill(None::<usize>),
    {
        WriteBuffer::Unsafe(UnsafeWrite::new())
    }

    /// Whether this is the staging (copying) mode.
    pub fn is_safe(&self) -> (r: bool)
        ensures
            r == (self matches WriteBuffer::Safe(_)),
    {
        match self {
            WriteBuffer::Safe(_) => true,
            WriteBuffer::Unsafe(_) => false,
        }
    }

    /// The engine's synchronous write, dispatched to the carried mode.  In
    /// the staging mode a stored transport error surfaces and stays stored.
    pub fn write(&mut self, src: &[u8]) -> (r: Result<usize, IoError>)
        requires
            old(self).wf(),
        ensures
            final(self).wf(),
            (*old(self)) matches WriteBuffer::Safe(b) ==> {
                &&& (*final(self)) matches WriteBuffer::Safe(b2)
                &&& (b.spec_status() matches WriteStatus::Failed(e) ==> r == Err::<usize, IoError>(
                    e,
                ) && *final(self) == *old(self))
                &&& (b.spec_status() is Ready && b.spec_available() == 0 ==> (r matches Err(e)
                    && e.kind == IoErrorKind::WouldBlock))
                &&& (b.spec_status() is Ready && b.spec_available() > 0 ==> ((*final(self))
                    matches WriteBuffer::Safe(b2) && {
                    let n = if src@.len() <= b.spec_available() {
                        src@.len() as int
                    } else {
                        b.spec_available()
                    };
                    &&& r == Ok::<usize, IoError>(n as usize)
                    &&& b2.spec_content() == b.spec_content() + src@.take(n)
                }))
            },
            (*old(self)) matches WriteBuffer::Unsafe(u) ==> {
                &&& (*final(self)) matches WriteBuffer::Unsafe(u2) && u2.spec_status()
                    == sync_step_status(u.spec_status(), src.len())
                &&& (u.spec_status() matches Status::WaitFill(_) ==> (r matches Err(e) && e.kind
                    == IoErrorKind::WouldBlock))
                &&& (u.spec_status() matches Status::Filled(stored) ==> match stored {
                    Ok(n) => r == Ok::<usize, IoError>(n),
                    Err(e) => r matches Err(k) && k.kind == e.kind,
                })
            },
    {
        match self {
            WriteBuffer::Safe(b) => b.write(src),
            WriteBuffer::Unsafe(u) => u.write(src.len()),
        }
    }

    /// The engine's synchronous flush, dispatched to the carried mode.
    pub fn flush(&mut self) -> (r: Result<(), IoError>)
        requires
            old(self).wf(),
        ensures
            final(self).wf(),
            (*old(self)) matches WriteBuffer::Safe(b) ==> {
                &&& (b.spec_status() matches WriteStatus::Failed(e) ==> r == Err::<(), IoError>(e)
                    && *final(self) == *old(self))
                &&& (b.spec_status() is Ready && b.spec_content().len() > 0 ==> (r matches Err(e)
                    && e.kind == IoErrorKind::WouldBlock))
                &&& (b.spec_status() is Ready && b.spec_content().len() == 0 ==> r == Ok::<
                    (),
                    IoError,
                >(()))
            },
            (*old(self)) matches WriteBuffer::Unsafe(_) ==> r == Ok::<(), IoError>(()),
    {
        match self {
            WriteBuffer::Safe(b) => b.flush(),
            WriteBuffer::Unsafe(u) => u.flush(),
        }
    }
}

impl Default for WriteBuffer {
    /// A staging write buffer with the default capacity.
    fn default() -> (r: WriteBuffer)
        ensures
            r.wf(),
            r matches WriteBuffer::Safe(b) && b.spec_content().len() == 0 && b.spec_status()
                is Ready && b.spec_available() == b.spec_capacity(),
    {
        WriteBuffer::Safe(SafeWrite::new(crate::safe_io::DEFAULT_BUFFER_SIZE))
    }
}

} // verus!
