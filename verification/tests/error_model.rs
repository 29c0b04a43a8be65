use mongoac::error::{ErrorCategoryT, ErrorCodeT, ErrorT};

#[test]
fn error_code_integers_round_trip() {
    for v in [i32::MIN, -7, 0, 1, 2, 3, 4, 42, i32::MAX] {
        assert_eq!(i32::from(ErrorCodeT::from(v)), v);
    }
    assert_eq!(ErrorCodeT::from(1), ErrorCodeT::InvalidArgument);
    assert_eq!(ErrorCodeT::from(9), ErrorCodeT::Unknown(9));
}

#[test]
fn error_category_integers_round_trip() {
    for v in [i32::MIN, -1, 0, 1, 2, 3, 4, 5, 100] {
        assert_eq!(i32::from(ErrorCategoryT::from(v)), v);
    }
    assert_eq!(ErrorCategoryT::from(4), ErrorCategoryT::Bson);
    assert_eq!(ErrorCategoryT::from(5), ErrorCategoryT::Unknown(5));
}

#[test]
fn new_error_reports_nothing() {
    let e = ErrorT::new();
    assert_eq!(e.category(), ErrorCategoryT::NoError);
    assert_eq!(e.code(), ErrorCodeT::Success);
    assert_eq!(e.message(), None);
    assert!(!e.contains_label("TransientTransactionError"));
}

#[test]
fn library_error_message_is_prefixed_by_code() {
    let e = ErrorT::from_mongoac(ErrorCodeT::InvalidArgument, "x: must not be null");
    assert_eq!(e.category(), ErrorCategoryT::MongoAC);
    assert_eq!(e.code(), ErrorCodeT::InvalidArgument);
    assert_eq!(e.message(), Some("invalid argument: x: must not be null".to_string()));
    let r = ErrorT::from_mongoac(ErrorCodeT::RuntimeError, "future is not ready");
    assert_eq!(r.message(), Some("runtime error: future is not ready".to_string()));
    let u = ErrorT::from_mongoac(ErrorCodeT::Unknown(77), "odd");
    assert_eq!(u.message(), Some("unknown error code: odd".to_string()));
}

#[test]
fn clear_empties_an_error() {
    let mut e = ErrorT::from_mongoac(ErrorCodeT::Timeout, "slow");
    e.clear();
    assert_eq!(e.category(), ErrorCategoryT::NoError);
    assert_eq!(e.code(), ErrorCodeT::Success);
    assert_eq!(e.message(), None);
}

#[test]
fn duplicate_keeps_code_and_message() {
    let e = ErrorT::from_mongoac(ErrorCodeT::Timeout, "slow");
    let d = e.duplicate();
    assert_eq!(d.code(), ErrorCodeT::Timeout);
    assert_eq!(d.message(), Some("timeout: slow".to_string()));
}

#[test]
fn elapsed_deadline_is_a_timeout() {
    let rt = tokio::runtime::Builder::new_current_thread().enable_time().build().unwrap();
    let elapsed = rt
        .block_on(async {
            tokio::time::timeout(std::time::Duration::from_millis(1), std::future::pending::<()>()).await
        })
        .unwrap_err();
    let e = ErrorT::from_elapsed(elapsed);
    assert_eq!(e.category(), ErrorCategoryT::MongoAC);
    assert_eq!(e.code(), ErrorCodeT::Timeout);
    assert_eq!(e.message(), Some("timeout: deadline has elapsed".to_string()));
}

#[test]
fn bson_error_is_categorized_as_bson() {
    let err = mongodb::bson::Document::from_reader(&[1u8, 2, 3][..]).unwrap_err();
    let text = err.to_string();
    let e = ErrorT::from_bson_error(err);
    assert_eq!(e.message(), Some(text));
    assert_eq!(e.category(), ErrorCategoryT::Bson);
    assert_eq!(e.code(), ErrorCodeT::Unknown(i32::MIN));
    assert!(e.message().is_some_and(|m| !m.is_empty()));
    assert!(!e.contains_label("x"));
}

#[test]
fn custom_driver_error_is_a_rust_error_with_its_text() {
    let err = mongodb::error::Error::custom(7u32);
    let text = err.to_string();
    let e = ErrorT::from_driver_error(err);
    assert_eq!(e.category(), ErrorCategoryT::Rust);
    assert_eq!(e.code(), ErrorCodeT::Unknown(i32::MIN));
    assert_eq!(e.message(), Some(text));
    assert!(!e.contains_label("TransientTransactionError"));
    assert!(!mongoac::error::mongoac_error_contains_label(&e, "RetryableWriteError"));
}

#[test]
fn the_write_error_at_the_lowest_index_gives_the_code() {
    assert_eq!(mongoac::error::lowest_index_code(&vec![(4, 11000), (2, 121), (9, 50)]), Some(121));
    assert_eq!(mongoac::error::lowest_index_code(&vec![]), None);
}
