use api_proxy::text::{header_value_text, i32_decimal, join_with, u64_decimal, write_decimal};

#[test]
fn decimal_of_unsigned_numbers() {
    assert_eq!(u64_decimal(0), "0");
    assert_eq!(u64_decimal(7), "7");
    assert_eq!(u64_decimal(10), "10");
    assert_eq!(u64_decimal(1234567890), "1234567890");
    assert_eq!(u64_decimal(u64::MAX), u64::MAX.to_string());
}

#[test]
fn decimal_of_signed_numbers() {
    assert_eq!(i32_decimal(0), "0");
    assert_eq!(i32_decimal(50), "50");
    assert_eq!(i32_decimal(-6), "-6");
    assert_eq!(i32_decimal(i32::MIN), i32::MIN.to_string());
    assert_eq!(i32_decimal(i32::MAX), i32::MAX.to_string());
}

#[test]
fn decimal_reads_back() {
    for n in [0u64, 1, 9, 10, 99, 100, 4096, 987654321, u64::MAX] {
        let s = u64_decimal(n);
        assert_eq!(s.parse::<u64>().unwrap(), n);
        assert!(s == "0" || !s.starts_with('0'));
    }
}

#[test]
fn write_decimal_appends() {
    let mut out = "total=".to_string();
    write_decimal(305, &mut out);
    assert_eq!(out, "total=305");
}

#[test]
fn header_text_of_visible_ascii() {
    assert_eq!(header_value_text(&b"session=abc; Path=/".to_vec()), "session=abc; Path=/");
    assert_eq!(header_value_text(&b"a\tb".to_vec()), "a\tb");
    assert_eq!(header_value_text(&Vec::new()), "");
}

#[test]
fn header_text_of_other_bytes_is_empty() {
    assert_eq!(header_value_text(&vec![b'a', 0x80, b'b']), "");
    assert_eq!(header_value_text(&vec![b'a', 0x7f]), "");
    assert_eq!(header_value_text(&vec![b'a', b'\n']), "");
}

#[test]
fn join_puts_separator_between() {
    let parts = vec!["a".to_string(), "b".to_string(), "c".to_string()];
    assert_eq!(join_with(&parts, "; "), "a; b; c");
    assert_eq!(join_with(&vec!["x".to_string()], "; "), "x");
    assert_eq!(join_with(&Vec::new(), "; "), "");
    assert_eq!(join_with(&vec![String::new(), String::new()], "#"), "#");
}
