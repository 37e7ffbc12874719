//! A three-way result for retryable operations: success, a failure worth
//! retrying, or a failure that must stop the retry loop at once.

use vstd::prelude::*;

verus! {

/// A result that represents either success, retryable failure, or
/// immediately-returning failure.
#[derive(Clone, Copy, PartialEq, PartialOrd, Eq, Ord, Debug, Hash)]
pub enum OperationResult<T, E> {
    /// Contains the success value.
    Success(T),
    /// Contains the error value when the attempt may be retried.
    Retry(E),
    /// Contains an error value to return immediately.
    Fatal(E),
}

impl<T, E> OperationResult<T, E> {
    /// The three-way outcome a plain two-way result converts to: any failure
    /// is treated as retryable.
    pub open spec fn spec_from_result(item: Result<T, E>) -> OperationResult<T, E> {
        match item {
            Result::Ok(v) => OperationResult::Success(v),
            Result::Err(e) => OperationResult::Retry(e),
        }
    }

    /// Whether the result is `OperationResult::Success`.
    pub fn is_ok(&self) -> (r: bool)
        ensures
            r == (*self is Success),
    {
        matches!(self, OperationResult::Success(_))
    }

    /// Whether the result is `OperationResult::Retry`.
    pub fn is_retry(&self) -> (r: bool)
        ensures
            r == (*self is Retry),
    {
        matches!(self, OperationResult::Retry(_))
    }

    /// Whether the result is `OperationResult::Fatal`.
    pub fn is_err(&self) -> (r: bool)
        ensures
            r == (*self is Fatal),
    {
        matches!(self, OperationResult::Fatal(_))
    }
}

impl<T, E> From<Result<T, E>> for OperationResult<T, E> {
    /// Classify a plain result: a success stays a success, and any failure is
    /// treated as retryable.
    fn from(item: Result<T, E>) -> (r: OperationResult<T, E>)
        ensures
            r == OperationResult::spec_from_result(item),
    {
        match item {
            Result::Ok(v) => OperationResult::Success(v),
            Result::Err(e) => OperationResult::Retry(e),
        }
    }
}

impl<T, E> vstd::std_specs::convert::FromSpecImpl<Result<T, E>> for OperationResult<T, E> {
    open spec fn obeys_from_spec() -> bool {
        true
    }

    open spec fn from_spec(item: Result<T, E>) -> OperationResult<T, E> {
        OperationResult::spec_from_result(item)
    }
}

} // verus!
