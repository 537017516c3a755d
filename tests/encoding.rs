use samael::encoding::strip_whitespace;

#[test]
fn strips_ascii_whitespace_only() {
    assert_eq!(strip_whitespace(b" a\tb\r\nc "), b"abc".to_vec());
    assert_eq!(strip_whitespace(b""), Vec::<u8>::new());
    assert_eq!(strip_whitespace(b"a\x0bb"), b"a\x0bb".to_vec());
}
