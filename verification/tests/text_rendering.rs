use mongoac::text::{bytes_eq, i32_to_string, str_eq, u64_to_string, usize_to_string};

#[test]
fn decimal_rendering_matches_to_string() {
    for n in [0u64, 7, 10, 99, 100, 12345, u64::MAX] {
        assert_eq!(u64_to_string(n), n.to_string());
    }
    assert_eq!(usize_to_string(305), "305");
    for v in [0i32, 5, -5, 2024, -2024, i32::MAX, i32::MIN] {
        assert_eq!(i32_to_string(v), v.to_string());
    }
}

#[test]
fn comparisons_by_content() {
    assert!(str_eq("abc", "abc"));
    assert!(!str_eq("abc", "abd"));
    assert!(!str_eq("abc", "ab"));
    assert!(bytes_eq(&[1, 2], &[1, 2]));
    assert!(!bytes_eq(&[1, 2], &[2, 1]));
}
