use tile_proxy::bytes::{append_bytes, bytes_equal, copy_bytes, starts_with};

#[test]
fn equal_bytes_are_equal() {
    assert!(bytes_equal(b"", b""));
    assert!(bytes_equal(b"GET", b"GET"));
    assert!(!bytes_equal(b"GET", b"GEt"));
    assert!(!bytes_equal(b"GET", b"GE"));
    assert!(!bytes_equal(b"GE", b"GET"));
    assert!(!bytes_equal(b"", b"G"));
    assert!(!bytes_equal(b"xET", b"GET"));
}

#[test]
fn a_prefix_is_found_at_the_start_only() {
    assert!(starts_with(b"/tile/1/2/3", b"/tile/"));
    assert!(starts_with(b"/tile/", b"/tile/"));
    assert!(starts_with(b"anything", b""));
    assert!(starts_with(b"", b""));
    assert!(!starts_with(b"/tile", b"/tile/"));
    assert!(!starts_with(b"x/tile/", b"/tile/"));
    assert!(!starts_with(b"/tilf/", b"/tile/"));
    assert!(!starts_with(b"", b"/"));
}

#[test]
fn appending_keeps_both_parts_in_order() {
    let mut buffer = b"ab".to_vec();
    append_bytes(&mut buffer, b"cd");
    assert_eq!(buffer, b"abcd".to_vec());
    append_bytes(&mut buffer, b"");
    assert_eq!(buffer, b"abcd".to_vec());
    let mut empty = Vec::new();
    append_bytes(&mut empty, b"x");
    assert_eq!(empty, b"x".to_vec());
}

#[test]
fn a_copy_holds_the_same_bytes() {
    assert_eq!(copy_bytes(b"tile"), b"tile".to_vec());
    assert_eq!(copy_bytes(b""), Vec::<u8>::new());
}
