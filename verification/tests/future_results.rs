use mongoac::error::{ErrorCodeT, ErrorT};
use mongoac::future::{join_error, FutureValue, FutureValueType};

type Value = FutureValue<(), ()>;

#[test]
fn get_int32_ready() {
    let mut slot = FutureValueType::new();
    assert!(slot.poll_with_context(Some(Ok(42))));
    let future: Value = FutureValue::Int32(slot);
    assert_eq!(*future.get_int32().unwrap_or_else(|_| panic!("int32 getter should succeed")), 42);
}

#[test]
fn get_int32_not_ready() {
    let mut slot: FutureValueType<i32> = FutureValueType::new();
    assert!(!slot.poll_with_context(None));
    let future: Value = FutureValue::Int32(slot);
    let err = future.get_int32().unwrap_err();
    assert_eq!(err.code(), ErrorCodeT::RuntimeError);
    assert_eq!(err.message(), Some("runtime error: future is not ready".to_string()));
}

#[test]
fn poll_with_context_eventually_resolves() {
    let mut slot: FutureValueType<()> = FutureValueType::new();
    let mut polls = 0;
    while !slot.poll_with_context(if polls < 3 { None } else { Some(Ok(())) }) {
        polls += 1;
        if polls > 10 {
            panic!("future did not resolve");
        }
    }
    assert!(slot.is_ready());
}

#[test]
fn a_ready_result_never_changes() {
    let mut slot = FutureValueType::new();
    assert!(!slot.is_ready());
    assert!(slot.poll_with_context(Some(Ok(true))));
    assert!(slot.poll_with_context(Some(Ok(false))));
    assert!(slot.poll_with_context(None));
    assert_eq!(*slot.result().unwrap(), true);
}

#[test]
fn errors_are_read_back_as_copies() {
    let mut slot: FutureValueType<bool> = FutureValueType::new();
    slot.poll_with_context(Some(Err(ErrorT::from_mongoac(ErrorCodeT::Timeout, "late"))));
    let e = slot.result().unwrap_err();
    assert_eq!(e.message(), Some("timeout: late".to_string()));
    let again = slot.result().unwrap_err();
    assert_eq!(again.code(), ErrorCodeT::Timeout);
}

#[test]
fn getters_of_the_wrong_type_are_runtime_errors() {
    let mut slot = FutureValueType::new();
    slot.poll_with_context(Some(Ok(1)));
    let future: Value = FutureValue::Int32(slot);
    assert!(future.is_ready());
    let e = future.get_bool().unwrap_err();
    assert_eq!(e.message(), Some("runtime error: future does not return a bool".to_string()));
    assert_eq!(
        future.get_cursor().unwrap_err().message(),
        Some("runtime error: future does not return a cursor".to_string())
    );
    assert_eq!(
        future.get_client_session().unwrap_err().message(),
        Some("runtime error: future does not return a client session".to_string())
    );
    assert_eq!(
        future.get_bson().unwrap_err().message(),
        Some("runtime error: future does not return a bson".to_string())
    );
    assert_eq!(
        future.get_void().unwrap_err().message(),
        Some("runtime error: future does not return a void".to_string())
    );
}

#[test]
fn join_failures_are_runtime_errors() {
    let e = join_error("task 3 panicked");
    assert_eq!(e.code(), ErrorCodeT::RuntimeError);
    assert_eq!(
        e.message(),
        Some("runtime error: tokio::task::JoinError: task 3 panicked".to_string())
    );
}
