use generals_shim::util::{cstr_copy, str_eq};

#[test]
fn text_that_fits_is_copied_whole() {
    let mut buf = vec![0xffu8; 8];
    let written = cstr_copy("english", &mut buf);
    assert_eq!(written, 7);
    assert_eq!(buf, b"english\0".to_vec());
}

#[test]
fn text_that_does_not_fit_is_cut() {
    let mut buf = vec![0xffu8; 4];
    let written = cstr_copy("english", &mut buf);
    assert_eq!(written, 3);
    assert_eq!(buf, b"eng\0".to_vec());
}

#[test]
fn buffer_of_one_byte_holds_only_the_terminator() {
    let mut buf = vec![0xffu8; 1];
    let written = cstr_copy("english", &mut buf);
    assert_eq!(written, 0);
    assert_eq!(buf, vec![0u8]);
}

#[test]
fn bytes_behind_the_terminator_are_left_alone() {
    let mut buf = vec![0xaau8; 6];
    let written = cstr_copy("ab", &mut buf);
    assert_eq!(written, 2);
    assert_eq!(buf, vec![b'a', b'b', 0, 0xaa, 0xaa, 0xaa]);
}

#[test]
fn empty_text_writes_the_terminator() {
    let mut buf = vec![0x11u8; 3];
    let written = cstr_copy("", &mut buf);
    assert_eq!(written, 0);
    assert_eq!(buf, vec![0, 0x11, 0x11]);
}

#[test]
fn text_is_cut_by_bytes_not_by_characters() {
    let mut buf = vec![0xffu8; 3];
    let written = cstr_copy("h\u{e9}llo", &mut buf);
    assert_eq!(written, 2);
    assert_eq!(buf, vec![b'h', 0xc3, 0]);
}

#[test]
fn str_eq_tells_texts_apart() {
    assert!(str_eq("Language", "Language"));
    assert!(!str_eq("Language", "language"));
    assert!(!str_eq("Language", "Languag"));
    assert!(!str_eq("", "x"));
    assert!(str_eq("", ""));
}
