//! The result of an asynchronous operation: pending until its task finishes,
//! then holding the task's result for good; and the typed getters that read it.

use crate::error::{ErrorCodeT, ErrorT};
use vstd::prelude::*;

verus! {

/// The result slot of one asynchronous operation.
///
/// `result` is `None` while the operation is pending. Once set, it never changes:
/// later completions are ignored, as a `OnceLock` ignores later writes.
pub struct FutureValueType<T> {
    pub result: Option<Result<T, ErrorT>>,
}

/// The result slot after one poll whose outcome is `outcome`: a set result is
/// kept; a pending slot takes the outcome.
pub open spec fn poll_step<T>(slot: Option<Result<T, ErrorT>>, outcome: Option<Result<T, ErrorT>>) -> Option<
    Result<T, ErrorT>,
> {
    if slot is Some {
        slot
    } else {
        outcome
    }
}

/// The result slot after polls with the given outcomes, in order.
pub open spec fn after_polls<T>(slot: Option<Result<T, ErrorT>>, outcomes: Seq<Option<Result<T, ErrorT>>>) -> Option<
    Result<T, ErrorT>,
>
    decreases outcomes.len(),
{
    if outcomes.len() == 0 {
        slot
    } else {
        poll_step(after_polls(slot, outcomes.drop_last()), outcomes.last())
    }
}

/// A result, once set, is final: whatever later polls report, the slot (which
/// every clone of a future shares) keeps it, so the future stays ready and
/// every getter reads the same value or error each time.
pub proof fn lemma_ready_result_is_final<T>(slot: Option<Result<T, ErrorT>>, outcomes: Seq<Option<Result<T, ErrorT>>>)
    requires
        slot is Some,
    ensures
        after_polls(slot, outcomes) == slot,
    decreases outcomes.len(),
{
    if outcomes.len() > 0 {
        lemma_ready_result_is_final(slot, outcomes.drop_last());
    }
}

/// Whether two errors agree on everything the error model reports.
pub open spec fn same_error(a: ErrorT, b: ErrorT) -> bool {
    &&& a.spec_category() == b.spec_category()
    &&& a.spec_code() == b.spec_code()
    &&& a.spec_message() == b.spec_message()
}

impl<T> FutureValueType<T> {
    /// Whether the operation has finished.
    pub open spec fn spec_is_ready(&self) -> bool {
        self.result is Some
    }

    /// What reading the result gives: the value, a copy of the operation's error,
    /// or a runtime error "future is not ready" while pending.
    pub open spec fn reads_as(&self, r: Result<&T, ErrorT>) -> bool {
        match self.result {
            Some(Ok(v)) => r matches Ok(x) && *x == v,
            Some(Err(e)) => r matches Err(x) && same_error(x, e),
            None => r matches Err(x) && x.is_mongoac(ErrorCodeT::RuntimeError, "future is not ready"@),
        }
    }

    /// A pending result slot.
    pub fn new() -> (r: Self)
        ensures
            r.result is None,
    {
        FutureValueType { result: None }
    }

    /// Whether the operation has finished.
    pub fn is_ready(&self) -> (r: bool)
        ensures
            r == self.spec_is_ready(),
    {
        self.result.is_some()
    }

    /// Reads the result.
    pub fn result(&self) -> (r: Result<&T, ErrorT>)
        ensures
            self.reads_as(r),
    {
        match &self.result {
            Some(Ok(val)) => Ok(val),
            Some(Err(err)) => Err(err.clone()),
            None => Err(ErrorT::from_mongoac(ErrorCodeT::RuntimeError, "future is not ready")),
        }
    }

    /// Records the outcome of one poll of the operation's task: `Some` when the
    /// task finished with that result, `None` while it is still running.
    /// Returns whether the operation is ready. A result that is already set is
    /// kept, whatever the outcome.
    pub fn poll_with_context(&mut self, outcome: Option<Result<T, ErrorT>>) -> (r: bool)
        ensures
            old(self).spec_is_ready() ==> *final(self) == *old(self) && r,
            !old(self).spec_is_ready() ==> final(self).result == outcome && r == outcome is Some,
            final(self).result == poll_step(old(self).result, outcome),
    {
        if self.result.is_some() {
            return true;
        }
        match outcome {
            Some(val) => {
                self.result = Some(val);
                true
            },
            None => false,
        }
    }
}

/// "tokio::task::JoinError: <detail>".
pub open spec fn join_failed(detail: Seq<char>) -> Seq<char> {
    "tokio::task::JoinError: "@ + detail
}

/// The error an operation reports when its task could not be joined (it
/// panicked or was cancelled), with the reason the runtime gave.
pub fn join_error(detail: &str) -> (r: ErrorT)
    ensures
        r.is_mongoac(ErrorCodeT::RuntimeError, join_failed(detail@)),
{
    let msg = String::from_str("tokio::task::JoinError: ").concat(detail);
    ErrorT::from_mongoac(ErrorCodeT::RuntimeError, msg.as_str())
}

/// The typed result of an operation; `S` is the session type and `C` the cursor
/// type that the caller's runtime produces. Documents are held as their bytes.
pub enum FutureValue<S, C> {
    Bool(FutureValueType<bool>),
    Bson(FutureValueType<Vec<u8>>),
    OptionalBson(FutureValueType<Option<Vec<u8>>>),
    ClientSession(FutureValueType<S>),
    Cursor(FutureValueType<C>),
    Int32(FutureValueType<i32>),
    UInt64(FutureValueType<u64>),
    Void(FutureValueType<()>),
}

/// The error that a getter of the wrong type reports.
pub open spec fn wrong_type(name: Seq<char>) -> Seq<char> {
    "future does not return a "@ + name
}

/// The runtime error that a getter of the wrong type reports.
fn wrong_type_error(name: &str) -> (r: ErrorT)
    ensures
        r.is_mongoac(ErrorCodeT::RuntimeError, wrong_type(name@)),
{
    let msg = String::from_str("future does not return a ").concat(name);
    ErrorT::from_mongoac(ErrorCodeT::RuntimeError, msg.as_str())
}

impl<S, C> FutureValue<S, C> {
    /// Whether the operation has finished.
    pub open spec fn spec_is_ready(&self) -> bool {
        match self {
            FutureValue::Bool(v) => v.spec_is_ready(),
            FutureValue::Bson(v) => v.spec_is_ready(),
            FutureValue::OptionalBson(v) => v.spec_is_ready(),
            FutureValue::ClientSession(v) => v.spec_is_ready(),
            FutureValue::Cursor(v) => v.spec_is_ready(),
            FutureValue::Int32(v) => v.spec_is_ready(),
            FutureValue::UInt64(v) => v.spec_is_ready(),
            FutureValue::Void(v) => v.spec_is_ready(),
        }
    }

    /// Whether the operation has finished.
    pub fn is_ready(&self) -> (r: bool)
        ensures
            r == self.spec_is_ready(),
    {
        match self {
            FutureValue::Bool(v) => v.is_ready(),
            FutureValue::Bson(v) => v.is_ready(),
            FutureValue::OptionalBson(v) => v.is_ready(),
            FutureValue::ClientSession(v) => v.is_ready(),
            FutureValue::Cursor(v) => v.is_ready(),
            FutureValue::Int32(v) => v.is_ready(),
            FutureValue::UInt64(v) => v.is_ready(),
            FutureValue::Void(v) => v.is_ready(),
        }
    }

    /// The `int32` result.
    pub fn get_int32(&self) -> (r: Result<&i32, ErrorT>)
        ensures
            match self {
                FutureValue::Int32(v) => v.reads_as(r),
                _ => r matches Err(e) && e.is_mongoac(ErrorCodeT::RuntimeError, wrong_type("int32"@)),
            },
    {
        match self {
            FutureValue::Int32(v) => v.result(),
            _ => Err(wrong_type_error("int32")),
        }
    }

    /// The `uint64` result.
    pub fn get_uint64(&self) -> (r: Result<&u64, ErrorT>)
        ensures
            match self {
                FutureValue::UInt64(v) => v.reads_as(r),
                _ => r matches Err(e) && e.is_mongoac(ErrorCodeT::RuntimeError, wrong_type("uint64"@)),
            },
    {
        match self {
            FutureValue::UInt64(v) => v.result(),
            _ => Err(wrong_type_error("uint64")),
        }
    }

    /// The `bool` result.
    pub fn get_bool(&self) -> (r: Result<&bool, ErrorT>)
        ensures
            match self {
                FutureValue::Bool(v) => v.reads_as(r),
                _ => r matches Err(e) && e.is_mongoac(ErrorCodeT::RuntimeError, wrong_type("bool"@)),
            },
    {
        match self {
            FutureValue::Bool(v) => v.result(),
            _ => Err(wrong_type_error("bool")),
        }
    }

    /// The document result.
    pub fn get_bson(&self) -> (r: Result<&Vec<u8>, ErrorT>)
        ensures
            match self {
                FutureValue::Bson(v) => v.reads_as(r),
                _ => r matches Err(e) && e.is_mongoac(ErrorCodeT::RuntimeError, wrong_type("bson"@)),
            },
    {
        match self {
            FutureValue::Bson(v) => v.result(),
            _ => Err(wrong_type_error("bson")),
        }
    }

    /// The optional document result.
    pub fn get_optional_bson(&self) -> (r: Result<&Option<Vec<u8>>, ErrorT>)
        ensures
            match self {
                FutureValue::OptionalBson(v) => v.reads_as(r),
                _ => r matches Err(e) && e.is_mongoac(
                    ErrorCodeT::RuntimeError,
                    wrong_type("optional bson"@),
                ),
            },
    {
        match self {
            FutureValue::OptionalBson(v) => v.result(),
            _ => Err(wrong_type_error("optional bson")),
        }
    }

    /// The session result.
    pub fn get_client_session(&self) -> (r: Result<&S, ErrorT>)
        ensures
            match self {
                FutureValue::ClientSession(v) => v.reads_as(r),
                _ => r matches Err(e) && e.is_mongoac(
                    ErrorCodeT::RuntimeError,
                    wrong_type("client session"@),
                ),
            },
    {
        match self {
            FutureValue::ClientSession(v) => v.result(),
            _ => Err(wrong_type_error("client session")),
        }
    }

    /// The empty result of an operation that returns nothing.
    pub fn get_void(&self) -> (r: Result<&(), ErrorT>)
        ensures
            match self {
                FutureValue::Void(v) => v.reads_as(r),
                _ => r matches Err(e) && e.is_mongoac(ErrorCodeT::RuntimeError, wrong_type("void"@)),
            },
    {
        match self {
            FutureValue::Void(v) => v.result(),
            _ => Err(wrong_type_error("void")),
        }
    }

    /// The cursor result.
    pub fn get_cursor(&self) -> (r: Result<&C, ErrorT>)
        ensures
            match self {
                FutureValue::Cursor(v) => v.reads_as(r),
                _ => r matches Err(e) && e.is_mongoac(ErrorCodeT::RuntimeError, wrong_type("cursor"@)),
            },
    {
        match self {
            FutureValue::Cursor(v) => v.result(),
            _ => Err(wrong_type_error("cursor")),
        }
    }
}

} // verus!
