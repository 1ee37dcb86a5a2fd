//! The mathematical model of a transfer, and the rules of one attempt.

use vstd::prelude::*;
use crate::attempt::Attempt;
use crate::outcome::{Error, Progress};

verus! {

/// A payload and the number of its bytes that have been moved.
pub struct Transfer {
    pub cursor: nat,
    pub payload: Seq<u8>,
}

impl Transfer {
    /// A payload of `size` zero bytes of which none has moved.
    pub open spec fn fresh(size: nat) -> Transfer {
        Transfer { cursor: 0, payload: Seq::new(size, |i: int| 0u8) }
    }

    /// The cursor does not pass the end of the payload.
    pub open spec fn wf(self) -> bool {
        self.cursor <= self.payload.len()
    }

    /// The number of bytes still to move; none where the cursor stands at or
    /// beyond the end.
    pub open spec fn remaining(self) -> nat {
        if self.cursor >= self.payload.len() {
            0
        } else {
            (self.payload.len() - self.cursor) as nat
        }
    }

    /// Nothing is left to move.
    pub open spec fn complete(self) -> bool {
        self.remaining() == 0
    }

    /// Where the window starts: at the cursor, or at the end of the payload
    /// if the cursor lies beyond it.
    pub open spec fn mark(self) -> int {
        if self.cursor >= self.payload.len() {
            self.payload.len() as int
        } else {
            self.cursor as int
        }
    }

    /// The bytes before the window.
    pub open spec fn settled(self) -> Seq<u8> {
        self.payload.subrange(0, self.mark())
    }

    /// The bytes from the cursor on: what an endpoint reads into or writes
    /// from.
    pub open spec fn window(self) -> Seq<u8> {
        self.payload.subrange(self.mark(), self.payload.len() as int)
    }

    /// The number of bytes by which an attempt advances the cursor: those
    /// that the endpoint moved, but never more than the window holds, and
    /// none once the payload is complete.
    pub open spec fn gain(self, attempt: Attempt) -> nat {
        match attempt {
            Attempt::Moved(count) => if count <= self.remaining() {
                count as nat
            } else {
                self.remaining()
            },
            _ => 0,
        }
    }

    /// The transfer after an attempt. The payload is the same.
    pub open spec fn after(self, attempt: Attempt) -> Transfer {
        Transfer { cursor: self.cursor + self.gain(attempt), payload: self.payload }
    }

    /// What is reported of an attempt, where `stalled` is the error for an
    /// endpoint that moved no byte and raised nothing.
    pub open spec fn verdict(self, attempt: Attempt, stalled: Error) -> Result<Progress, Error> {
        if self.complete() {
            Ok(Progress::Complete)
        } else {
            match attempt {
                Attempt::Moved(count) => if count == 0 {
                    Err(stalled)
                } else if count >= self.remaining() {
                    Ok(Progress::Complete)
                } else {
                    Ok(Progress::Progressed(count))
                },
                Attempt::WouldBlock => Ok(Progress::WouldBlock),
                Attempt::Failed(cause) => Err(Error::Io(cause)),
            }
        }
    }

    /// What is reported of an attempt to read.
    pub open spec fn read_outcome(self, attempt: Attempt) -> Result<Progress, Error> {
        self.verdict(attempt, Error::PeerClosed)
    }

    /// What is reported of an attempt to write.
    pub open spec fn write_outcome(self, attempt: Attempt) -> Result<Progress, Error> {
        self.verdict(attempt, Error::ZeroWrite)
    }

    /// The transfer after a run of attempts, first to last.
    pub open spec fn after_all(self, attempts: Seq<Attempt>) -> Transfer
        decreases attempts.len(),
    {
        if attempts.len() == 0 {
            self
        } else {
            self.after(attempts.first()).after_all(attempts.drop_first())
        }
    }
}

} // verus!
