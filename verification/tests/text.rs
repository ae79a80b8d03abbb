use lnbot::text::{decimal_string, is_whitespace, same_text};

#[test]
fn decimal_string_matches_std_on_edges() {
    let cases: [i64; 14] = [
        0,
        1,
        9,
        10,
        11,
        99,
        100,
        -1,
        -10,
        2147483647,
        -2147483648,
        65535,
        i64::MAX,
        i64::MIN,
    ];
    for n in cases {
        assert_eq!(decimal_string(n), n.to_string());
    }
}

#[test]
fn decimal_string_exact_values() {
    assert_eq!(decimal_string(0), "0");
    assert_eq!(decimal_string(-7), "-7");
    assert_eq!(decimal_string(120), "120");
    assert_eq!(decimal_string(1005), "1005");
    assert_eq!(decimal_string(i64::MIN), "-9223372036854775808");
}

#[test]
fn is_whitespace_agrees_with_std_on_every_char() {
    let mut code: u32 = 0;
    while code <= 0x10FFFF {
        if let Some(c) = char::from_u32(code) {
            assert_eq!(is_whitespace(c), c.is_whitespace(), "U+{:04X}", code);
        }
        code += 1;
    }
}

#[test]
fn same_text_compares_text() {
    assert!(same_text("", ""));
    assert!(same_text("settled", "settled"));
    assert!(!same_text("settled", "settlee"));
    assert!(!same_text("settled", "settle"));
    assert!(!same_text("", "a"));
    assert!(same_text("é\u{3000}", "é\u{3000}"));
    assert!(!same_text("é", "e"));
}
