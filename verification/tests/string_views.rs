use mongoac::error::ErrorCodeT;
use mongoac::string::{StringT, StringViewT};

#[test]
fn views_decode_utf8() {
    let v = StringViewT::from_str("héllo");
    assert_eq!(v.as_bytes(), "héllo".as_bytes());
    assert_eq!(v.to_string_checked().unwrap(), "héllo");
    let s = StringT::from_str("abc");
    assert_eq!(s.to_string_checked().unwrap(), "abc");
}

#[test]
fn null_view_reads_as_empty_text() {
    assert_eq!(StringViewT::default().to_string_checked().unwrap(), "");
    assert_eq!(StringT::default().to_string_checked().unwrap(), "");
}

#[test]
fn invalid_utf8_is_an_invalid_argument() {
    let v = StringViewT { data: Some(vec![0x66, 0xff, 0x66]) };
    let e = v.to_string_checked().unwrap_err();
    assert_eq!(e.code(), ErrorCodeT::InvalidArgument);
    let expected = std::str::from_utf8(&[0x66, 0xff, 0x66]).unwrap_err().to_string();
    assert_eq!(e.message(), Some(format!("invalid argument: {expected}")));
}
