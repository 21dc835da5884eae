//! Byte-string utility tests.

use razer_control::text::{find_bytes, lower_bytes, split_bytes, trim_bytes};

#[test]
fn trim_removes_ascii_whitespace_at_both_ends() {
    assert_eq!(trim_bytes(b"  0x10de\n"), b"0x10de");
    assert_eq!(trim_bytes(b"\t\r\n "), b"");
    assert_eq!(trim_bytes(b""), b"");
    assert_eq!(trim_bytes(b"a b"), b"a b");
    assert_eq!(trim_bytes(b"auto\n"), b"auto");
}

#[test]
fn lower_maps_only_ascii_letters() {
    assert_eq!(lower_bytes(b"Current Mode: HYBRID"), b"current mode: hybrid");
    assert_eq!(lower_bytes(b"123 {}"), b"123 {}");
    assert_eq!(lower_bytes(b""), b"");
}

#[test]
fn find_returns_the_first_occurrence() {
    assert_eq!(find_bytes(b"current mode: hybrid", b"mode:"), Some(8));
    assert_eq!(find_bytes(b"mode: a mode: b", b"mode:"), Some(0));
    assert_eq!(find_bytes(b"nothing here", b"mode:"), None);
    assert_eq!(find_bytes(b"", b"mode:"), None);
    assert_eq!(find_bytes(b"abc", b""), Some(0));
}

#[test]
fn split_follows_the_usual_convention() {
    let pieces = split_bytes(b"a\"b\"c", b'"');
    assert_eq!(pieces, vec![b"a".to_vec(), b"b".to_vec(), b"c".to_vec()]);
    let with_empties = split_bytes(b"\"x\"", b'"');
    assert_eq!(with_empties, vec![b"".to_vec(), b"x".to_vec(), b"".to_vec()]);
    assert_eq!(split_bytes(b"", b'"'), vec![b"".to_vec()]);
    assert_eq!(split_bytes(b"no quotes", b'"'), vec![b"no quotes".to_vec()]);
}
