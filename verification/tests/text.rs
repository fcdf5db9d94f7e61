use vexmason::text::{char_is_space, chars_of, decimal_string, string_of};

#[test]
fn white_space_is_what_the_standard_library_calls_so() {
    for code in 0u32..=0x10ffff {
        if let Some(c) = char::from_u32(code) {
            assert_eq!(char_is_space(c), c.is_whitespace(), "U+{:04X}", code);
        }
    }
}

#[test]
fn decimal_numerals() {
    assert_eq!(decimal_string(0), "0");
    assert_eq!(decimal_string(7), "7");
    assert_eq!(decimal_string(10), "10");
    assert_eq!(decimal_string(409), "409");
    assert_eq!(decimal_string(1234567890), "1234567890");
    assert_eq!(decimal_string(usize::MAX), usize::MAX.to_string());
}

#[test]
fn characters_and_back() {
    let chars = chars_of("aé\u{1F600}z");
    assert_eq!(chars, vec!['a', 'é', '\u{1F600}', 'z']);
    assert_eq!(string_of(&chars, 0, 4), "aé\u{1F600}z");
    assert_eq!(string_of(&chars, 1, 3), "é\u{1F600}");
    assert_eq!(string_of(&chars, 2, 2), "");
}
