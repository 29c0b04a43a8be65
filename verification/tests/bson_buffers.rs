use mongoac::bson::{is_framed, optional_document, BsonT, BsonViewT};
use mongoac::error::{ErrorCategoryT, ErrorCodeT};
use mongoac::private::bson::{bson_t, BsonT as OwnedBsonT, ConstBsonT};

#[test]
fn empty_doc_is_five_bytes() {
    let v = BsonViewT::empty_doc();
    assert_eq!(v.as_bytes(), &[5u8, 0, 0, 0, 0][..]);
    assert!(is_framed(v.as_bytes()));
}

#[test]
fn null_views_read_as_empty() {
    assert!(BsonViewT::default().as_bytes().is_empty());
    assert!(BsonT::default().as_bytes().is_empty());
    assert!(matches!(optional_document(&BsonViewT::default()), Ok(None)));
}

#[test]
fn framing_checks_length_and_terminator() {
    assert!(is_framed(&[5, 0, 0, 0, 0]));
    assert!(!is_framed(&[5, 0, 0, 0]));
    assert!(!is_framed(&[6, 0, 0, 0, 0]));
    assert!(!is_framed(&[5, 0, 0, 0, 1]));
    assert!(is_framed(&[13, 0, 0, 0, 8, b'a', 0, 1, 0, 0, 0, 0, 0]));
}

#[test]
fn raw_document_round_trips_bytes() {
    let bytes = vec![13u8, 0, 0, 0, 8, b'a', 0, 1, 0, 0, 0, 0, 0];
    let view = BsonViewT { data: Some(bytes.clone()) };
    let raw = view.to_raw_document().unwrap();
    assert_eq!(raw.as_bytes(), &bytes[..]);
    let back = BsonViewT::from_raw_document(&raw);
    assert_eq!(back.as_bytes(), &bytes[..]);
    let owned = BsonT::from_raw_document(&raw);
    assert_eq!(owned.as_bytes(), &bytes[..]);
}

#[test]
fn unframed_bytes_are_a_bson_error() {
    let view = BsonViewT { data: Some(vec![9, 0, 0, 0, 0]) };
    let err = view.to_raw_document().unwrap_err();
    assert_eq!(err.category(), ErrorCategoryT::Bson);
}

#[test]
fn documents_are_read_from_views() {
    let view = BsonViewT { data: Some(vec![9u8, 0, 0, 0, 8, b'a', 0, 1, 0]) };
    let doc = optional_document(&view).unwrap().unwrap();
    assert_eq!(doc.get_bool("a").unwrap(), true);
    let bad = BsonViewT { data: Some(vec![1, 2, 3]) };
    assert_eq!(optional_document(&bad).unwrap_err().category(), ErrorCategoryT::Bson);
}

#[test]
fn c_bson_buffers() {
    let owned = OwnedBsonT::from_bytes(&[5, 0, 0, 0, 0]).unwrap();
    assert_eq!(owned.as_bytes(), &[5u8, 0, 0, 0, 0][..]);
    let shared = ConstBsonT::from_owned(&owned);
    assert_eq!(shared.as_bytes(), &[5u8, 0, 0, 0, 0][..]);
    let raw: bson_t = owned.into_raw();
    assert_eq!(raw.data, vec![5u8, 0, 0, 0, 0]);
    let refused = OwnedBsonT::from_bytes(&[4, 0, 0, 0]).unwrap_err();
    assert_eq!(refused.code(), ErrorCodeT::RuntimeError);
    assert_eq!(refused.message(), Some("runtime error: bson_new_from_data failed".to_string()));
}

#[test]
fn c_bson_reads_only_its_length() {
    let padded = ConstBsonT(bson_t { data: vec![5, 0, 0, 0, 0, 99, 99] });
    assert_eq!(padded.as_bytes(), &[5u8, 0, 0, 0, 0][..]);
}
