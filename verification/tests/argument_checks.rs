use mongoac::bson::BsonViewT;
use mongoac::error::{ErrorCategoryT, ErrorCodeT, ErrorT};
use mongoac::private::safety::{
    bson_view_array_as_vec, invalid_argument, invalid_utf8_message, null_argument_message,
    raw_documents_from_views, required_document, required_raw_document, required_text,
};
use mongoac::string::StringViewT;

fn doc() -> BsonViewT {
    BsonViewT { data: Some(vec![5, 0, 0, 0, 0]) }
}

#[test]
fn invalid_argument_fills_the_error_when_given() {
    let mut e = ErrorT::new();
    invalid_argument(Some(&mut e), "opts: must not be null");
    assert_eq!(e.code(), ErrorCodeT::InvalidArgument);
    assert_eq!(e.message(), Some("invalid argument: opts: must not be null".to_string()));
    invalid_argument(None, "ignored");
}

#[test]
fn argument_messages() {
    assert_eq!(null_argument_message("name"), "name: must not be null");
    assert_eq!(invalid_utf8_message("name"), "name: must be valid UTF-8");
}

#[test]
fn required_text_refuses_null() {
    let e = required_text(&StringViewT::default(), "conn_str").unwrap_err();
    assert_eq!(e.message(), Some("invalid argument: conn_str: must not be null".to_string()));
    assert_eq!(required_text(&StringViewT::from_str("db"), "name").unwrap(), "db");
    let bad = required_text(&StringViewT { data: Some(vec![0xc3]) }, "name").unwrap_err();
    assert_eq!(bad.code(), ErrorCodeT::InvalidArgument);
}

#[test]
fn required_documents_refuse_null_and_bad_bytes() {
    let e = required_document(&BsonViewT::default(), "filter").unwrap_err();
    assert_eq!(e.message(), Some("invalid argument: filter: must not be null".to_string()));
    assert!(required_document(&doc(), "filter").unwrap().is_empty());
    let bad = BsonViewT { data: Some(vec![7, 0, 0, 0, 0]) };
    assert_eq!(required_document(&bad, "filter").unwrap_err().category(), ErrorCategoryT::Bson);
    let raw = required_raw_document(&doc(), "replacement").unwrap();
    assert_eq!(raw.as_bytes(), &[5u8, 0, 0, 0, 0][..]);
    let e = required_raw_document(&BsonViewT::default(), "replacement").unwrap_err();
    assert_eq!(e.message(), Some("invalid argument: replacement: must not be null".to_string()));
}

#[test]
fn document_arrays_report_the_first_null_element() {
    let views = vec![doc(), BsonViewT::default(), BsonViewT::default()];
    let e = bson_view_array_as_vec(&views, false).unwrap_err();
    assert_eq!(
        e.message(),
        Some("invalid argument: BSON array element at index 1: must not be null".to_string())
    );
    let e = raw_documents_from_views(&views, false).unwrap_err();
    assert_eq!(
        e.message(),
        Some("invalid argument: BSON array element at index 1: must not be null".to_string())
    );
}

#[test]
fn document_arrays_without_elements_do_nothing() {
    assert!(matches!(raw_documents_from_views(&[], false), Ok(None)));
    assert!(matches!(raw_documents_from_views(&[doc()], true), Ok(None)));
    assert!(matches!(bson_view_array_as_vec(&[], false), Ok(None)));
}

#[test]
fn document_arrays_are_copied_in_order() {
    let second = BsonViewT { data: Some(vec![13u8, 0, 0, 0, 8, b'a', 0, 1, 0, 0, 0, 0, 0]) };
    let views = vec![doc(), second];
    let out = raw_documents_from_views(&views, false).unwrap().unwrap();
    assert_eq!(out.len(), 2);
    assert_eq!(out[0].as_bytes(), &[5u8, 0, 0, 0, 0][..]);
    assert_eq!(out[1].as_bytes().len(), 13);
    let bad = vec![doc(), BsonViewT { data: Some(vec![1, 2]) }];
    let e = raw_documents_from_views(&bad, false).unwrap_err();
    assert_eq!(e.category(), ErrorCategoryT::Bson);
}

#[test]
fn a_null_filter_is_the_empty_document() {
    let d = mongoac::bson::filter_document(&BsonViewT::default()).unwrap();
    assert!(d.is_empty());
    let d = mongoac::bson::filter_document(&doc()).unwrap();
    assert!(d.is_empty());
    let e = mongoac::bson::filter_document(&BsonViewT { data: Some(vec![1, 2, 3]) }).unwrap_err();
    assert_eq!(e.category(), ErrorCategoryT::Bson);
    assert!(e.message().unwrap().starts_with("BSON error"));
}
