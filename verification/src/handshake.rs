//! The handshake pump: drives the engine's state machine to completion by
//! alternating record output and record intake until the engine stops
//! handshaking, then drains any final records (such as session tickets).
//! The choice of the next move is a pure function of what the engine
//! reports, so the whole policy is pinned down here; the caller runs the
//! chosen sub-operation and records its outcome.

use vstd::prelude::*;

use crate::error::{IoError, IoErrorKind};
use crate::stream::Stream;

verus! {

/// The pump's next move.
#[derive(Clone, Copy, PartialEq, Eq, Structural, Debug)]
pub enum HsNext {
    /// Run record output (`write_io`) once and record the count.
    WriteRecords,
    /// Run record intake (`read_io`) once and record the count.
    ReadRecords,
    /// The transport ended while the engine still handshakes: fail with the
    /// handshake end-of-stream error.
    FailEof,
    /// The engine finished handshaking: drain record output while the engine
    /// wants to write, then finish.
    Finished,
    /// The engine still handshakes but wants neither direction and the
    /// transport is alive: no move makes progress, so the driver can only
    /// ask again.
    Stalled,
}

/// The pump's running tallies: record bytes taken in and written out, and
/// whether the transport has reported end of stream.
pub struct HandshakeState {
    /// Record bytes consumed by the engine so far.
    pub rdlen: usize,
    /// Record bytes handed to the staging buffer so far.
    pub wrlen: usize,
    /// Whether a record intake consumed zero bytes (transport end of
    /// stream).
    pub eof: bool,
}

/// The pump's policy over the engine's answers: while the engine
/// handshakes, queued output goes out first (writes precede reads); then
/// intake runs while the engine wants it and the transport has not ended;
/// an ended transport with an unfinished handshake fails; an engine that
/// stops handshaking moves to the drain phase; and an engine that wants
/// neither direction leaves the pump stalled, able only to ask again.
pub open spec fn spec_handshake_decide(
    eof: bool,
    wants_write: bool,
    wants_read: bool,
    handshaking: bool,
) -> HsNext {
    if !handshaking {
        HsNext::Finished
    } else if wants_write {
        HsNext::WriteRecords
    } else if eof {
        HsNext::FailEof
    } else if wants_read {
        HsNext::ReadRecords
    } else {
        HsNext::Stalled
    }
}

/// The pump's policy, as a function of the engine's answers; see
/// [`spec_handshake_decide`].
pub fn handshake_decide(eof: bool, wants_write: bool, wants_read: bool, handshaking: bool) -> (r:
    HsNext)
    ensures
        r == spec_handshake_decide(eof, wants_write, wants_read, handshaking),
{
    if !handshaking {
        HsNext::Finished
    } else if wants_write {
        HsNext::WriteRecords
    } else if eof {
        HsNext::FailEof
    } else if wants_read {
        HsNext::ReadRecords
    } else {
        HsNext::Stalled
    }
}

impl HandshakeState {
    /// A fresh pump: nothing transferred, transport alive.
    pub fn new() -> (s: HandshakeState)
        ensures
            s.rdlen == 0,
            s.wrlen == 0,
            !s.eof,
    {
        HandshakeState { rdlen: 0, wrlen: 0, eof: false }
    }

    /// The pump's next move for this stream: ask the engine and apply the
    /// policy.
    pub fn next_move(&self, stream: &Stream) -> HsNext {
        handshake_decide(
            self.eof,
            stream.wants_write(),
            stream.wants_read(),
            stream.is_handshaking(),
        )
    }

    /// Record the outcome of one record intake: add the count to the tally
    /// (saturating at the tally's maximum) and record end of stream when the
    /// engine consumed nothing.
    pub fn note_read(&mut self, n: usize)
        ensures
            final(self).rdlen == if old(self).rdlen + n <= usize::MAX {
                old(self).rdlen + n
            } else {
                usize::MAX as int
            },
            final(self).eof == (old(self).eof || n == 0),
            final(self).wrlen == old(self).wrlen,
    {
        if n <= usize::MAX - self.rdlen {
            self.rdlen = self.rdlen + n;
        } else {
            self.rdlen = usize::MAX;
        }
        if n == 0 {
            self.eof = true;
        }
    }

    /// Record the outcome of one record output: add the count to the tally
    /// (saturating at the tally's maximum).
    pub fn note_write(&mut self, n: usize)
        ensures
            final(self).wrlen == if old(self).wrlen + n <= usize::MAX {
                old(self).wrlen + n
            } else {
                usize::MAX as int
            },
            final(self).rdlen == old(self).rdlen,
            final(self).eof == old(self).eof,
    {
        if n <= usize::MAX - self.wrlen {
            self.wrlen = self.wrlen + n;
        } else {
            self.wrlen = usize::MAX;
        }
    }

    /// The error the pump fails with when the transport ends mid-handshake.
    pub fn eof_error(&self) -> (e: IoError)
        ensures
            e.kind == IoErrorKind::UnexpectedEof,
            e.msg@ == "tls handshake eof"@,
    {
        IoError::handshake_eof()
    }
}

impl Default for HandshakeState {
    /// A fresh pump: nothing transferred, transport alive.
    fn default() -> (s: HandshakeState)
        ensures
            s.rdlen == 0,
            s.wrlen == 0,
            !s.eof,
    {
        HandshakeState::new()
    }
}

/// The handshake pump stops for one of two reasons and no other: the engine
/// reports the handshake over (and the pump then only drains what the engine
/// queued), or the transport ended first and the pump fails with the
/// end-of-stream error.  In particular the pump never reports success while
/// the engine still handshakes, reads only while the engine wants records,
/// and stalls only when the engine wants neither direction.
pub proof fn lemma_handshake_termination_shape(
    eof: bool,
    wants_write: bool,
    wants_read: bool,
    handshaking: bool,
)
    ensures
        spec_handshake_decide(eof, wants_write, wants_read, handshaking) == HsNext::Finished
            <==> !handshaking,
        spec_handshake_decide(eof, wants_write, wants_read, handshaking) == HsNext::FailEof
            ==> handshaking && eof,
        spec_handshake_decide(eof, wants_write, wants_read, handshaking) == HsNext::ReadRecords
            ==> handshaking && wants_read && !eof && !wants_write,
        spec_handshake_decide(eof, wants_write, wants_read, handshaking) == HsNext::Stalled
            ==> handshaking && !wants_write && !wants_read && !eof,
{
}

} // verus!
