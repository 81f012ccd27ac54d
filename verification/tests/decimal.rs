use nutt_web::decimal::{format_i32, format_u64, format_usize, parse_usize, push_decimal};
use nutt_web::text::chars_of;

#[test]
fn unsigned_numbers_are_written_as_std_writes_them() {
    for n in [0u64, 1, 9, 10, 11, 99, 100, 101, 12345, 4294967295, 4294967296, u64::MAX] {
        assert_eq!(format_u64(n), n.to_string());
    }
    assert_eq!(format_u64(0), "0");
    assert_eq!(format_u64(1200), "1200");
    assert_eq!(format_usize(usize::MAX), usize::MAX.to_string());
    assert_eq!(format_usize(42), "42");
}

#[test]
fn signed_numbers_are_written_as_std_writes_them() {
    for n in [0i32, 1, -1, 42, -42, 1000, i32::MAX, i32::MIN, i32::MIN + 1] {
        assert_eq!(format_i32(n), n.to_string());
    }
    assert_eq!(format_i32(-2147483648), "-2147483648");
}

#[test]
fn push_decimal_appends() {
    let mut out = vec!['n', '='];
    push_decimal(&mut out, 507);
    let text: String = out.iter().collect();
    assert_eq!(text, "n=507");
}

#[test]
fn numerals_are_read_as_std_reads_them() {
    let max = usize::MAX.to_string();
    let over = format!("{}0", max);
    let mut next = max.clone().into_bytes();
    let last = next.len() - 1;
    next[last] += 1;
    let next = String::from_utf8(next).unwrap();
    for s in [
        "0", "7", "42", "007", "+5", "+", "", "-1", "-0", "1 ", " 1", "1a", "a", "++1", "+-1",
        "1+", "18446744073709551615", "18446744073709551616", "99999999999999999999999999",
        "0000000000000000000000000000000001", "\u{0661}", "1_000", max.as_str(), over.as_str(),
        next.as_str(),
    ] {
        assert_eq!(parse_usize(&chars_of(s)), s.parse::<usize>().ok(), "{:?}", s);
    }
    assert_eq!(parse_usize(&chars_of("30")), Some(30));
    assert_eq!(parse_usize(&chars_of("+30")), Some(30));
    assert_eq!(parse_usize(&chars_of("3 0")), None);
}

#[test]
fn what_is_written_is_read_back() {
    for n in [0usize, 1, 9, 10, 99, 100, 65535, usize::MAX - 1, usize::MAX] {
        assert_eq!(parse_usize(&chars_of(&format_usize(n))), Some(n));
    }
}
