//! The decisions of the runtime's driving functions: which futures an array
//! names, whether they belong to the runtime, and which of them are ready.
//!
//! A runtime is identified by its address; a future by the address of the
//! runtime that created it, or `None` for a null pointer.

use crate::error::{ErrorCodeT, ErrorT};
use crate::text::{decimal, usize_to_string};
use vstd::prelude::*;

verus! {

/// "futures array element at index <i>: <problem>".
pub open spec fn element_message(i: nat, problem: Seq<char>) -> Seq<char> {
    "futures array element at index "@ + decimal(i) + ": "@ + problem
}

/// The problem with a future that does not belong to the runtime: a null
/// pointer, or a future of another runtime.
pub open spec fn element_problem(f: Option<usize>) -> Seq<char> {
    match f {
        None => "must not be null"@,
        Some(_) => "future is not associated with the given runtime"@,
    }
}

/// Whether every element is a future of the runtime.
pub open spec fn all_of_runtime(futures: Seq<Option<usize>>, runtime: usize) -> bool {
    forall|i: int| 0 <= i < futures.len() ==> #[trigger] futures[i] == Some(runtime)
}

/// Whether `v` lists the indices `0..n` in order.
pub open spec fn is_index_list(v: Seq<usize>, n: nat) -> bool {
    v.len() == n && forall|i: int| 0 <= i < n ==> #[trigger] v[i] == i
}

/// Whether `e` reports the first element that is not a future of the runtime.
pub open spec fn reports_first_foreign(e: ErrorT, futures: Seq<Option<usize>>, runtime: usize) -> bool {
    exists|i: int|
        0 <= i < futures.len() && #[trigger] futures[i] != Some(runtime) && (forall|j: int|
            0 <= j < i ==> #[trigger] futures[j] == Some(runtime)) && e.is_mongoac(
            ErrorCodeT::InvalidArgument,
            element_message(i as nat, element_problem(futures[i])),
        )
}

/// "future is not associated with the given runtime".
pub open spec fn foreign_future_message() -> Seq<char> {
    "future is not associated with the given runtime"@
}

/// Checks that a future belongs to the runtime that is asked to drive it.
pub fn check_future_runtime(future_runtime: usize, runtime: usize) -> (r: Result<(), ErrorT>)
    ensures
        r is Ok <==> future_runtime == runtime,
        r matches Err(e) ==> e.is_mongoac(ErrorCodeT::InvalidArgument, foreign_future_message()),
{
    if future_runtime != runtime {
        Err(
            ErrorT::from_mongoac(
                ErrorCodeT::InvalidArgument,
                "future is not associated with the given runtime",
            ),
        )
    } else {
        Ok(())
    }
}

/// Checks every element of a futures array: each must be non-null and belong
/// to the runtime. Returns the indices of the futures, in order, or reports the
/// first element that fails.
pub fn futures_as_muts(futures: &[Option<usize>], runtime: usize) -> (r: Result<Vec<usize>, ErrorT>)
    ensures
        r is Ok <==> all_of_runtime(futures@, runtime),
        r matches Ok(v) ==> is_index_list(v@, futures@.len()),
        r matches Err(e) ==> reports_first_foreign(e, futures@, runtime),
{
    let mut ret: Vec<usize> = Vec::new();
    let mut i: usize = 0;
    while i < futures.len()
        invariant
            i <= futures@.len(),
            ret@.len() == i,
            forall|j: int| 0 <= j < i ==> #[trigger] ret@[j] == j,
            forall|j: int| 0 <= j < i ==> #[trigger] futures@[j] == Some(runtime),
        decreases futures@.len() - i,
    {
        let problem: &str = match futures[i] {
            None => "must not be null",
            Some(rt) => {
                if rt != runtime {
                    "future is not associated with the given runtime"
                } else {
                    ""
                }
            },
        };
        if futures[i] != Some(runtime) {
            let msg = String::from_str("futures array element at index ").concat(
                usize_to_string(i).as_str(),
            ).concat(": ").concat(problem);
            let e = ErrorT::from_mongoac(ErrorCodeT::InvalidArgument, msg.as_str());
            assert(futures@[i as int] != Some(runtime));
            assert(e.is_mongoac(
                ErrorCodeT::InvalidArgument,
                element_message(i as nat, element_problem(futures@[i as int])),
            ));
            return Err(e);
        }
        ret.push(i);
        i = i + 1;
    }
    Ok(ret)
}

/// The futures of `block_on_any`: nothing to do for a null array or a count of
/// zero, otherwise the checked indices.
pub fn futures_as_muts_for_any(futures: &[Option<usize>], array_is_null: bool, runtime: usize) -> (r:
    Result<Option<Vec<usize>>, ErrorT>)
    ensures
        (array_is_null || futures@.len() == 0) ==> r matches Ok(None),
        !(array_is_null || futures@.len() == 0) ==> {
            &&& r is Ok <==> all_of_runtime(futures@, runtime)
            &&& r matches Ok(o) ==> (o matches Some(v) && is_index_list(v@, futures@.len()))
            &&& r matches Err(e) ==> reports_first_foreign(e, futures@, runtime)
        },
{
    if array_is_null || futures.len() == 0 {
        return Ok(None);
    }
    let refs = futures_as_muts(futures, runtime)?;
    Ok(Some(refs))
}

/// Whether every non-null element is a future of the runtime.
pub open spec fn present_of_runtime(futures: Seq<Option<usize>>, runtime: usize) -> bool {
    forall|i: int| 0 <= i < futures.len() && (#[trigger] futures[i]) is Some ==> futures[i] == Some(runtime)
}

/// The indices of the non-null elements, in order.
pub open spec fn present_indices(futures: Seq<Option<usize>>) -> Seq<usize>
    decreases futures.len(),
{
    if futures.len() == 0 {
        Seq::empty()
    } else {
        let before = present_indices(futures.drop_last());
        if futures.last() is Some {
            before.push((futures.len() - 1) as usize)
        } else {
            before
        }
    }
}

/// Whether `e` reports the first non-null element that is not a future of the
/// runtime.
pub open spec fn reports_first_foreign_present(e: ErrorT, futures: Seq<Option<usize>>, runtime: usize) -> bool {
    exists|i: int|
        0 <= i < futures.len() && (#[trigger] futures[i]) is Some && futures[i] != Some(runtime)
            && (forall|j: int| 0 <= j < i && (#[trigger] futures[j]) is Some ==> futures[j] == Some(runtime))
            && e.is_mongoac(ErrorCodeT::InvalidArgument, element_message(i as nat, foreign_future_message()))
}

/// The futures of `block_on_all`: nothing to do for a null array or a count of
/// zero; otherwise null elements are skipped, every other element must belong
/// to the runtime, and the indices of the non-null elements come back in order.
pub fn futures_as_muts_for_all(futures: &[Option<usize>], array_is_null: bool, runtime: usize) -> (r:
    Result<Option<Vec<usize>>, ErrorT>)
    ensures
        (array_is_null || futures@.len() == 0) ==> r matches Ok(None),
        !(array_is_null || futures@.len() == 0) ==> {
            &&& r is Ok <==> present_of_runtime(futures@, runtime)
            &&& r matches Ok(o) ==> (o matches Some(v) && v@ == present_indices(futures@))
            &&& r matches Err(e) ==> reports_first_foreign_present(e, futures@, runtime)
        },
{
    if array_is_null || futures.len() == 0 {
        return Ok(None);
    }
    let mut ret: Vec<usize> = Vec::new();
    let mut i: usize = 0;
    while i < futures.len()
        invariant
            i <= futures@.len(),
            !array_is_null,
            ret@ == present_indices(futures@.take(i as int)),
            forall|j: int| 0 <= j < i && (#[trigger] futures@[j]) is Some ==> futures@[j] == Some(runtime),
        decreases futures@.len() - i,
    {
        assert(futures@.take(i as int + 1).drop_last() =~= futures@.take(i as int));
        match futures[i] {
            None => {},
            Some(rt) => {
                if rt != runtime {
                    let msg = String::from_str("futures array element at index ").concat(
                        usize_to_string(i).as_str(),
                    ).concat(": ").concat("future is not associated with the given runtime");
                    let e = ErrorT::from_mongoac(ErrorCodeT::InvalidArgument, msg.as_str());
                    assert(e.is_mongoac(
                        ErrorCodeT::InvalidArgument,
                        element_message(i as nat, foreign_future_message()),
                    ));
                    assert(futures@[i as int] is Some && futures@[i as int] != Some(runtime));
                    return Err(e);
                }
                ret.push(i);
            },
        }
        i = i + 1;
    }
    assert(futures@.take(futures@.len() as int) =~= futures@);
    Ok(Some(ret))
}

/// The index of the first ready future, if any; each element pairs a future's
/// index with whether it is ready.
pub fn any_ready(futures: &[(usize, bool)]) -> (r: Option<usize>)
    ensures
        r is None <==> forall|i: int| 0 <= i < futures@.len() ==> !(#[trigger] futures@[i]).1,
        r matches Some(x) ==> exists|k: int|
            0 <= k < futures@.len() && (#[trigger] futures@[k]).1 && futures@[k].0 == x && (forall|
                j: int,
            | 0 <= j < k ==> !(#[trigger] futures@[j]).1),
{
    let mut i: usize = 0;
    while i < futures.len()
        invariant
            i <= futures@.len(),
            forall|j: int| 0 <= j < i ==> !(#[trigger] futures@[j]).1,
        decreases futures@.len() - i,
    {
        if futures[i].1 {
            assert(futures@[i as int].1);
            return Some(futures[i].0);
        }
        i = i + 1;
    }
    None
}

/// Whether every future is ready.
pub fn all_ready(ready: &[bool]) -> (r: bool)
    ensures
        r == forall|i: int| 0 <= i < ready@.len() ==> #[trigger] ready@[i],
{
    let mut i: usize = 0;
    while i < ready.len()
        invariant
            i <= ready@.len(),
            forall|j: int| 0 <= j < i ==> #[trigger] ready@[j],
        decreases ready@.len() - i,
    {
        if !ready[i] {
            assert(!ready@[i as int]);
            return false;
        }
        i = i + 1;
    }
    true
}

/// "runtime creation failed: <detail>".
pub open spec fn runtime_creation_failed(detail: Seq<char>) -> Seq<char> {
    "runtime creation failed: "@ + detail
}

/// The error a client reports when its runtime cannot be created, with the
/// reason the runtime gave.
pub fn runtime_creation_error(detail: &str) -> (r: ErrorT)
    ensures
        r.is_mongoac(ErrorCodeT::RuntimeError, runtime_creation_failed(detail@)),
{
    let msg = String::from_str("runtime creation failed: ").concat(detail);
    ErrorT::from_mongoac(ErrorCodeT::RuntimeError, msg.as_str())
}

} // verus!
