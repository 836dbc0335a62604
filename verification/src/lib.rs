//! Verified core of an async facade over blocking HTTP requests.
//!
//! The facade hands each blocking call to a worker pool. What it computes
//! before the call is here: the marker for values that may move to the pool,
//! and the borrowed view of owned form pairs.

use vstd::prelude::*;

pub mod form;

verus! {

/// Marks the values that may be moved into a closure that runs on the worker
/// pool: owned, and safe to hand to another thread.
pub trait SendToPool: 'static + Send {}

impl<T> SendToPool for T where T: 'static + Send {}

} // verus!
