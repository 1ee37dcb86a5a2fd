//! The transfer buffer.

use vstd::prelude::*;
use crate::attempt::Attempt;
use crate::model::Transfer;
use crate::outcome::{Error, Progress};

verus! {

/// A payload of fixed size and the offset up to which it has been moved.
///
/// One body serves one direction of one message at a time. `reset` sizes it
/// for the next message; `read_from` or `write_to` then takes one attempt
/// after another until `remaining` is zero.
///
/// Both fields are open to the caller, so a body can be put into a state in
/// which the cursor lies beyond the payload. Such a body counts as complete;
/// no operation needs the cursor to be in range, and none moves it out of
/// range.
#[derive(Debug)]
pub struct Body {
    /// The number of bytes already moved.
    pub pos: usize,
    /// The payload.
    pub data: Vec<u8>,
}

impl View for Body {
    type V = Transfer;

    open spec fn view(&self) -> Transfer {
        Transfer { cursor: self.pos as nat, payload: self.data@ }
    }
}

impl Default for Body {
    /// An empty body: no payload, and so nothing to move.
    fn default() -> (body: Body)
        ensures
            body@ == Transfer::fresh(0),
    {
        let body = Body { pos: 0, data: Vec::new() };
        assert(body@.payload =~= Transfer::fresh(0).payload);
        body
    }
}

impl AsMut<Vec<u8>> for Body {
    /// The payload itself, for a caller that fills it before sending. The
    /// cursor stays where it is, whatever the caller does to the payload.
    fn as_mut(&mut self) -> (payload: &mut Vec<u8>)
        ensures
            *payload == old(self).data,
            final(self).pos == old(self).pos,
            final(self).data == *final(payload),
    {
        &mut self.data
    }
}

impl Body {
    /// Takes the result of one non-blocking read into `window_mut`.
    ///
    /// A complete body ignores the attempt. Otherwise a count above zero
    /// advances the cursor, a count of zero means that the remote closed the
    /// stream before the payload was full, would-block changes nothing and is
    /// no failure, and any other error is handed on. An endpoint cannot fill
    /// more than the window: a count beyond it is taken as the whole window.
    pub fn read_from(&mut self, attempt: Attempt) -> (outcome: Result<Progress, Error>)
        ensures
            final(self)@ == old(self)@.after(attempt),
            outcome == old(self)@.read_outcome(attempt),
            final(self).data == old(self).data,
            old(self)@.wf() ==> final(self)@.wf(),
            old(self)@.complete() ==> final(self).pos == old(self).pos,
            old(self)@.complete() ==> outcome == Ok::<Progress, Error>(Progress::Complete),
            !old(self)@.complete() && attempt == Attempt::Moved(0) ==> final(self).pos == old(
                self,
            ).pos,
            !old(self)@.complete() && attempt == Attempt::Moved(0) ==> outcome == Err::<
                Progress,
                Error,
            >(Error::PeerClosed),
            attempt is WouldBlock ==> final(self).pos == old(self).pos,
            attempt is WouldBlock ==> outcome is Ok,
    {
        self.settle(attempt, Error::PeerClosed)
    }

    /// Takes the result of one non-blocking write of `window`.
    ///
    /// A complete body ignores the attempt. Otherwise a count above zero
    /// advances the cursor, a count of zero is a failure, since an endpoint
    /// that is ready takes at least one byte, would-block changes nothing and
    /// is no failure, and any other error is handed on. An endpoint cannot
    /// take more than the window: a count beyond it is taken as the whole
    /// window.
    pub fn write_to(&mut self, attempt: Attempt) -> (outcome: Result<Progress, Error>)
        ensures
            final(self)@ == old(self)@.after(attempt),
            outcome == old(self)@.write_outcome(attempt),
            final(self).data == old(self).data,
            old(self)@.wf() ==> final(self)@.wf(),
            old(self)@.complete() ==> final(self).pos == old(self).pos,
            old(self)@.complete() ==> outcome == Ok::<Progress, Error>(Progress::Complete),
            !old(self)@.complete() && attempt == Attempt::Moved(0) ==> final(self).pos == old(
                self,
            ).pos,
            !old(self)@.complete() && attempt == Attempt::Moved(0) ==> outcome == Err::<
                Progress,
                Error,
            >(Error::ZeroWrite),
            attempt is WouldBlock ==> final(self).pos == old(self).pos,
            attempt is WouldBlock ==> outcome is Ok,
    {
        self.settle(attempt, Error::ZeroWrite)
    }

    /// The rules that reading and writing share; `stalled` is the error for
    /// a count of zero.
    fn settle(&mut self, attempt: Attempt, stalled: Error) -> (outcome: Result<Progress, Error>)
        ensures
            final(self)@ == old(self)@.after(attempt),
            outcome == old(self)@.verdict(attempt, stalled),
            final(self).data == old(self).data,
            old(self)@.wf() ==> final(self)@.wf(),
    {
        let left: usize = self.remaining();
        if left == 0 {
            return Ok(Progress::Complete);
        }
        match attempt {
            Attempt::Moved(count) => {
                if count == 0 {
                    Err(stalled)
                } else if count >= left {
                    self.pos = self.data.len();
                    Ok(Progress::Complete)
                } else {
                    assert(self.pos + count < self.data.len());
                    self.pos = self.pos + count;
                    Ok(Progress::Progressed(count))
                }
            },
            Attempt::WouldBlock => Ok(Progress::WouldBlock),
            Attempt::Failed(cause) => Err(Error::Io(cause)),
        }
    }

    /// The number of bytes still to move.
    pub fn remaining(&self) -> (left: usize)
        ensures
            left == self@.remaining(),
    {
        if self.pos >= self.data.len() {
            return 0;
        }
        self.data.len() - self.pos
    }

    /// Makes the body ready for a payload of `size` bytes: the cursor goes
    /// back to the start, and the payload is `size` zero bytes. What the body
    /// held before is gone.
    pub fn reset(&mut self, size: usize)
        ensures
            final(self)@ == Transfer::fresh(size as nat),
            final(self)@.remaining() == size,
    {
        self.pos = 0;
        self.data.clear();
        self.data.resize(size, 0);
        assert(self@.payload =~= Transfer::fresh(size as nat).payload);
    }

    /// The size of the payload.
    pub fn len(&self) -> (size: usize)
        ensures
            size == self@.payload.len(),
    {
        self.data.len()
    }

    /// Whether the payload has no bytes at all.
    pub fn is_empty(&self) -> (empty: bool)
        ensures
            empty == (self@.payload.len() == 0),
    {
        self.data.len() == 0
    }

    /// The whole payload, moved or not.
    pub fn as_bytes(&self) -> (bytes: &[u8])
        ensures
            bytes@ == self@.payload,
    {
        self.data.as_slice()
    }

    /// The bytes from the cursor on: what one attempt to write offers to the
    /// endpoint. Empty once the payload is complete.
    pub fn window(&self) -> (window: &[u8])
        ensures
            window@ == self@.window(),
    {
        let start: usize = self.data.len() - self.remaining();
        let (_, window) = self.data.as_slice().split_at(start);
        window
    }

    /// The bytes from the cursor on, for one attempt to read into. Whatever
    /// is stored there takes that place in the payload; the bytes before the
    /// cursor and the cursor itself stay as they are.
    pub fn window_mut(&mut self) -> (window: &mut [u8])
        ensures
            window@ == old(self)@.window(),
            final(self).pos == old(self).pos,
            final(self)@.payload == old(self)@.settled() + final(window)@,
    {
        let start: usize = self.data.len() - self.remaining();
        let (_, window) = self.data.as_mut_slice().split_at_mut(start);
        window
    }
}

} // verus!
