//! What one non-blocking call on an endpoint reported.

use vstd::prelude::*;

verus! {

/// `std::io::Error`, carried through as the cause of a failed attempt. Nothing
/// is known of a value but what [`is_would_block`] says of it.
#[verifier::external_type_specification]
#[verifier::external_body]
pub struct ExIoError(std::io::Error);

/// Whether `std::io::Error::kind` gives `std::io::ErrorKind::WouldBlock` for
/// this error: the endpoint was not ready, and nothing went wrong.
pub uninterp spec fn is_would_block(cause: std::io::Error) -> bool;

/// Calls `std::io::Error::kind` and tells `ErrorKind::WouldBlock` from every
/// other kind. The answer is the one that [`is_would_block`] names; nothing
/// else is claimed of the error.
#[verifier::external_body]
fn would_block(cause: &std::io::Error) -> (yes: bool)
    ensures
        yes == is_would_block(*cause),
{
    matches!(cause.kind(), std::io::ErrorKind::WouldBlock)
}

/// The result of one non-blocking read or write on an endpoint.
#[derive(Debug)]
pub enum Attempt {
    /// The call returned this many bytes, possibly none.
    Moved(usize),
    /// The endpoint was not ready. No byte moved and nothing is wrong.
    WouldBlock,
    /// The call failed for any other reason.
    Failed(std::io::Error),
}

impl Attempt {
    /// How the result of a read or write call is sorted into an attempt: a
    /// count is a count, an error of the would-block kind is no failure, and
    /// every other error is one.
    pub open spec fn classify(reported: Result<usize, std::io::Error>) -> Attempt {
        match reported {
            Ok(count) => Attempt::Moved(count),
            Err(cause) => if is_would_block(cause) {
                Attempt::WouldBlock
            } else {
                Attempt::Failed(cause)
            },
        }
    }

    /// Sorts what a call of `std::io::Read::read` or `std::io::Write::write`
    /// returned.
    pub fn from_io(reported: Result<usize, std::io::Error>) -> (attempt: Attempt)
        ensures
            attempt == Attempt::classify(reported),
    {
        match reported {
            Ok(count) => Attempt::Moved(count),
            Err(cause) => {
                if would_block(&cause) {
                    Attempt::WouldBlock
                } else {
                    Attempt::Failed(cause)
                }
            },
        }
    }
}

} // verus!
