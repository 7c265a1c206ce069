use oslog::{sanitize_bytes, to_cstr};

#[test]
fn nulls_become_placeholders() {
    assert_eq!(sanitize_bytes(b"a\0b\0"), b"a(null)b(null)".to_vec());
    assert_eq!(to_cstr("a\0b"), b"a(null)b\0".to_vec());
}

#[test]
fn text_without_nulls_is_unchanged() {
    assert_eq!(sanitize_bytes(b"plain text"), b"plain text".to_vec());
    assert_eq!(to_cstr("plain"), b"plain\0".to_vec());
}

#[test]
fn empty_and_all_null_text() {
    assert_eq!(sanitize_bytes(b""), Vec::<u8>::new());
    assert_eq!(to_cstr(""), vec![0u8]);
    assert_eq!(to_cstr("\0\0"), b"(null)(null)\0".to_vec());
}

#[test]
fn sanitizing_twice_changes_nothing() {
    let once = sanitize_bytes(b"x\0y");
    assert_eq!(sanitize_bytes(&once), once);
    assert!(!once.contains(&0));
}
