use openlogi::text::trim;

#[test]
fn trim_removes_surrounding_whitespace_only() {
    assert_eq!(trim("  a b \n"), "a b");
    assert_eq!(trim("\t\u{3000}name\u{00a0}"), "name");
    assert_eq!(trim("   "), "");
    assert_eq!(trim(""), "");
    assert_eq!(trim("x"), "x");
}

#[test]
fn whitespace_matches_the_standard_library_on_every_char() {
    for n in 0..=0x10FFFF_u32 {
        if let Some(c) = char::from_u32(n) {
            assert_eq!(openlogi::text::is_whitespace(c), c.is_whitespace(), "U+{n:04X}");
        }
    }
}
