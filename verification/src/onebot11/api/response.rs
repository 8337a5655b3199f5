//! What the chat protocol answers to a call.

use vstd::prelude::*;

verus! {

/// The answer to one call: the payload, or a failure or deferral status.
#[derive(Debug, Clone)]
pub enum Response<R> {
    Failed { retcode: i32, echo: Option<i64> },
    Async { retcode: i32, echo: Option<i64> },
    Success { retcode: i32, echo: Option<i64>, data: R },
}

/// A bare answer status.
#[derive(Debug, Clone, Copy, PartialEq, Eq, Structural)]
pub enum Status {
    Success,
    Async,
    Failed,
    Unknown,
}

} // verus!
