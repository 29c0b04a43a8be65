use mongoac::error::ErrorCodeT;
use mongoac::runtime::{
    all_ready, any_ready, check_future_runtime, futures_as_muts, futures_as_muts_for_all,
    futures_as_muts_for_any, runtime_creation_error,
};

#[test]
fn futures_of_the_runtime_are_accepted_in_order() {
    let v = futures_as_muts(&[Some(7), Some(7), Some(7)], 7).unwrap();
    assert_eq!(v, vec![0, 1, 2]);
}

#[test]
fn null_future_is_reported_by_index() {
    let e = futures_as_muts(&[Some(7), None, Some(8)], 7).unwrap_err();
    assert_eq!(e.code(), ErrorCodeT::InvalidArgument);
    assert_eq!(
        e.message(),
        Some("invalid argument: futures array element at index 1: must not be null".to_string())
    );
}

#[test]
fn foreign_future_is_reported_by_index() {
    let e = futures_as_muts(&[Some(7), Some(7), Some(8), None], 7).unwrap_err();
    assert_eq!(
        e.message(),
        Some(
            "invalid argument: futures array element at index 2: future is not associated with the given runtime"
                .to_string()
        )
    );
    let e = check_future_runtime(3, 4).unwrap_err();
    assert_eq!(
        e.message(),
        Some("invalid argument: future is not associated with the given runtime".to_string())
    );
    assert!(check_future_runtime(4, 4).is_ok());
}

#[test]
fn empty_or_null_arrays_need_no_work() {
    assert!(matches!(futures_as_muts_for_any(&[], false, 1), Ok(None)));
    assert!(matches!(futures_as_muts_for_any(&[None], true, 1), Ok(None)));
    assert!(matches!(futures_as_muts_for_all(&[], false, 1), Ok(None)));
    assert_eq!(futures_as_muts_for_all(&[Some(1), Some(1)], false, 1).unwrap(), Some(vec![0, 1]));
}

#[test]
fn block_on_all_skips_null_entries() {
    assert_eq!(futures_as_muts_for_all(&[Some(7), None, Some(7)], false, 7).unwrap(), Some(vec![0, 2]));
    assert_eq!(futures_as_muts_for_all(&[None, None], false, 7).unwrap(), Some(vec![]));
    let e = futures_as_muts_for_all(&[None, Some(7), Some(8)], false, 7).unwrap_err();
    assert_eq!(
        e.message(),
        Some(
            "invalid argument: futures array element at index 2: future is not associated with the given runtime"
                .to_string()
        )
    );
}

#[test]
fn first_ready_future_wins() {
    assert_eq!(any_ready(&[(4, false), (9, true), (2, true)]), Some(9));
    assert_eq!(any_ready(&[(4, false), (9, false)]), None);
    assert_eq!(any_ready(&[]), None);
    assert!(all_ready(&[true, true]));
    assert!(!all_ready(&[true, false]));
    assert!(all_ready(&[]));
}

#[test]
fn runtime_creation_failure_is_a_runtime_error() {
    let e = runtime_creation_error("no threads");
    assert_eq!(e.code(), ErrorCodeT::RuntimeError);
    assert_eq!(e.message(), Some("runtime error: runtime creation failed: no threads".to_string()));
}
