//! What follows from the rules of one attempt.
//!
//! Every statement here is about [`Transfer`], the model in which the
//! contracts of [`Body`](crate::body::Body) are written, so each holds of
//! every body and of every endpoint.

use vstd::prelude::*;
use crate::attempt::{is_would_block, Attempt};
use crate::model::Transfer;
use crate::outcome::{Error, Progress};

verus! {

/// A run of `count` attempts of which each moved one byte.
pub open spec fn single_bytes(count: nat) -> Seq<Attempt> {
    Seq::new(count, |i: int| Attempt::Moved(1))
}

/// A fresh transfer of any size has its whole payload left to move.
pub proof fn lemma_fresh_remaining(size: nat)
    ensures
        Transfer::fresh(size).wf(),
        Transfer::fresh(size).cursor == 0,
        Transfer::fresh(size).payload.len() == size,
        Transfer::fresh(size).remaining() == size,
        Transfer::fresh(size).complete() <==> size == 0,
{
}

/// No attempt moves the cursor back or beyond the end of the payload, and
/// none changes the payload or adds to what is left.
pub proof fn lemma_attempt_keeps_bounds(t: Transfer, attempt: Attempt)
    ensures
        t.after(attempt).payload == t.payload,
        t.after(attempt).cursor >= t.cursor,
        t.after(attempt).remaining() == t.remaining() - t.gain(attempt),
        t.wf() ==> t.after(attempt).wf(),
{
}

/// The same of a run of attempts.
pub proof fn lemma_run_keeps_bounds(t: Transfer, attempts: Seq<Attempt>)
    ensures
        t.after_all(attempts).payload == t.payload,
        t.after_all(attempts).cursor >= t.cursor,
        t.after_all(attempts).remaining() <= t.remaining(),
        t.wf() ==> t.after_all(attempts).wf(),
    decreases attempts.len(),
{
    if attempts.len() > 0 {
        lemma_attempt_keeps_bounds(t, attempts.first());
        lemma_run_keeps_bounds(t.after(attempts.first()), attempts.drop_first());
    }
}

/// The bytes that an attempt moved are those at the start of its window.
/// They join the bytes that were moved before, which stay as they were, and
/// the next window is the rest of this one.
pub proof fn lemma_moved_bytes_settle(t: Transfer, attempt: Attempt)
    ensures
        t.after(attempt).settled() == t.settled() + t.window().subrange(
            0,
            t.gain(attempt) as int,
        ),
        t.after(attempt).window() == t.window().subrange(
            t.gain(attempt) as int,
            t.window().len() as int,
        ),
{
    assert(t.after(attempt).settled() =~= t.settled() + t.window().subrange(
        0,
        t.gain(attempt) as int,
    ));
    assert(t.after(attempt).window() =~= t.window().subrange(
        t.gain(attempt) as int,
        t.window().len() as int,
    ));
}

/// The report agrees with the state that the attempt leaves: complete is
/// reported exactly when nothing is left, progress is the number of bytes by
/// which the cursor moved, and would-block or a failure leaves the transfer
/// as it was.
pub proof fn lemma_report_matches_state(t: Transfer, attempt: Attempt, stalled: Error)
    ensures
        t.verdict(attempt, stalled) == Ok::<Progress, Error>(Progress::Complete)
            <==> t.after(attempt).complete(),
        t.verdict(attempt, stalled) matches Ok(Progress::Progressed(count)) ==> count > 0
            && t.after(attempt).cursor == t.cursor + count,
        t.verdict(attempt, stalled) == Ok::<Progress, Error>(Progress::WouldBlock) ==> t.after(
            attempt,
        ) == t,
        t.verdict(attempt, stalled) is Err ==> t.after(attempt) == t,
{
}

/// Once a transfer is complete, an attempt to read or to write changes
/// nothing and reports complete, whatever the endpoint did.
pub proof fn lemma_complete_ignores_attempt(t: Transfer, attempt: Attempt)
    requires
        t.complete(),
    ensures
        t.after(attempt) == t,
        t.read_outcome(attempt) == Ok::<Progress, Error>(Progress::Complete),
        t.write_outcome(attempt) == Ok::<Progress, Error>(Progress::Complete),
{
}

/// Once a transfer is complete it stays as it is through any run of
/// attempts.
pub proof fn lemma_complete_ignores_run(t: Transfer, attempts: Seq<Attempt>)
    requires
        t.complete(),
    ensures
        t.after_all(attempts) == t,
    decreases attempts.len(),
{
    if attempts.len() > 0 {
        lemma_complete_ignores_attempt(t, attempts.first());
        lemma_complete_ignores_run(t, attempts.drop_first());
    }
}

/// A transfer becomes complete only through an attempt that moved bytes, as
/// many as were left or more: never through would-block, a failure or an
/// attempt that moved nothing.
pub proof fn lemma_completed_by_bytes_only(t: Transfer, attempt: Attempt)
    requires
        !t.complete(),
        t.after(attempt).complete(),
    ensures
        attempt matches Attempt::Moved(count) && count >= t.remaining(),
        t.wf() ==> t.after(attempt).cursor == t.payload.len(),
{
}

/// A read that returns no bytes while some are expected is the remote
/// closing the stream: a failure, and the cursor stays.
pub proof fn lemma_empty_read_is_peer_closed(t: Transfer)
    requires
        !t.complete(),
    ensures
        t.read_outcome(Attempt::Moved(0)) == Err::<Progress, Error>(Error::PeerClosed),
        t.after(Attempt::Moved(0)) == t,
{
}

/// A write that takes no bytes while some are to be sent is a failure, and
/// the cursor stays.
pub proof fn lemma_empty_write_is_zero_write(t: Transfer)
    requires
        !t.complete(),
    ensures
        t.write_outcome(Attempt::Moved(0)) == Err::<Progress, Error>(Error::ZeroWrite),
        t.after(Attempt::Moved(0)) == t,
{
}

/// Would-block is never a failure and never progress: the transfer stays as
/// it is, and the report is would-block, or complete if nothing was left.
pub proof fn lemma_would_block_is_no_progress(t: Transfer)
    ensures
        t.after(Attempt::WouldBlock) == t,
        t.read_outcome(Attempt::WouldBlock) == t.write_outcome(Attempt::WouldBlock),
        t.read_outcome(Attempt::WouldBlock) == Ok::<Progress, Error>(
            if t.complete() {
                Progress::Complete
            } else {
                Progress::WouldBlock
            },
        ),
{
}

/// An error of the endpoint other than would-block is handed on with its
/// cause, and the transfer stays as it is.
pub proof fn lemma_failure_is_handed_on(t: Transfer, cause: std::io::Error)
    requires
        !t.complete(),
    ensures
        t.after(Attempt::Failed(cause)) == t,
        t.read_outcome(Attempt::Failed(cause)) == Err::<Progress, Error>(Error::Io(cause)),
        t.write_outcome(Attempt::Failed(cause)) == Err::<Progress, Error>(Error::Io(cause)),
{
}

/// An error that the endpoint raised never moves the cursor. One of the
/// would-block kind is reported as success, and any other is the failure
/// that is handed on, unless nothing was left to move.
pub proof fn lemma_raised_error(t: Transfer, cause: std::io::Error)
    ensures
        t.after(Attempt::classify(Err(cause))) == t,
        is_would_block(cause) ==> t.read_outcome(Attempt::classify(Err(cause))) is Ok,
        is_would_block(cause) ==> t.write_outcome(Attempt::classify(Err(cause))) is Ok,
        !is_would_block(cause) && !t.complete() ==> t.read_outcome(
            Attempt::classify(Err(cause)),
        ) == Err::<Progress, Error>(Error::Io(cause)),
        !is_would_block(cause) && !t.complete() ==> t.write_outcome(
            Attempt::classify(Err(cause)),
        ) == Err::<Progress, Error>(Error::Io(cause)),
{
}

/// Attempts of one byte each advance the cursor by one each, as long as
/// bytes are left.
pub proof fn lemma_single_bytes_advance(t: Transfer, count: nat)
    requires
        t.wf(),
        count <= t.remaining(),
    ensures
        t.after_all(single_bytes(count)) == (Transfer {
            cursor: t.cursor + count,
            payload: t.payload,
        }),
    decreases count,
{
    if count > 0 {
        let rest = (count - 1) as nat;
        assert(single_bytes(count).drop_first() =~= single_bytes(rest));
        lemma_single_bytes_advance(t.after(Attempt::Moved(1)), rest);
    }
}

/// A payload of `size` bytes that is read one byte per call is complete
/// after exactly `size` calls: after `calls` of them the cursor stands at
/// `calls`; while bytes are left the next call succeeds, with one byte of
/// progress or, for the last byte, with complete; and nothing is left, after
/// `size` calls and not before.
pub proof fn lemma_byte_by_byte(size: nat, calls: nat)
    requires
        calls <= size,
    ensures
        Transfer::fresh(size).after_all(single_bytes(calls)).cursor == calls,
        Transfer::fresh(size).after_all(single_bytes(calls)).remaining() == size - calls,
        Transfer::fresh(size).after_all(single_bytes(calls)).complete() <==> calls == size,
        calls < size ==> Transfer::fresh(size).after_all(single_bytes(calls)).read_outcome(
            Attempt::Moved(1),
        ) == Ok::<Progress, Error>(
            if calls + 1 == size {
                Progress::Complete
            } else {
                Progress::Progressed(1)
            },
        ),
{
    lemma_single_bytes_advance(Transfer::fresh(size), calls);
}

} // verus!
