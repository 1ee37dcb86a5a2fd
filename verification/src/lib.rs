//! A fixed-size byte payload that is moved across a non-blocking endpoint in
//! as many attempts as the endpoint needs.
//!
//! A [`Body`] owns the payload and a cursor that counts the bytes already
//! moved. The caller makes one non-blocking call on the endpoint, over the
//! window that the body hands out, and gives the body what the call reported
//! as an [`Attempt`]. The body advances its cursor and says how the transfer
//! stands: more is pending, the endpoint was not ready, the payload is
//! complete, or the transfer failed.
//!
//! The rules are stated over [`Transfer`], the mathematical model of a body,
//! and the module `laws` proves what follows from them.

pub mod attempt;
pub mod body;
pub mod laws;
pub mod model;
pub mod outcome;

pub use attempt::Attempt;
pub use body::Body;
pub use model::Transfer;
pub use outcome::{Error, Progress};
