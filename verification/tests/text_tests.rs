use program_station::text::{
    decimal_string, parse_u32, push_decimal, push_joined, push_signed_decimal, same_text, starts_with,
    trim_end_matches, trim_start_matches,
};

#[test]
fn decimal_writing_matches_display() {
    for n in [0u64, 7, 10, 99, 100, 4294967295, 18446744073709551615] {
        assert_eq!(decimal_string(n), n.to_string());
    }
    let mut s = String::from("id=");
    push_decimal(&mut s, 42);
    assert_eq!(s, "id=42");
}

#[test]
fn signed_decimal_writing() {
    for n in [0i64, 1, -1, 2147483647, -2147483648, i64::MIN, i64::MAX] {
        let mut s = String::new();
        push_signed_decimal(&mut s, n);
        assert_eq!(s, n.to_string());
    }
}

#[test]
fn parse_matches_from_str() {
    let cases = [
        "0", "7", "+5", "+", "", "-1", "-0", "007", "4294967295", "4294967296", "99999999999", "12a", " 1",
        "1 ", "٣", "+-1", "++1",
    ];
    for c in cases {
        assert_eq!(parse_u32(c), c.parse::<u32>().ok(), "case {:?}", c);
    }
}

#[test]
fn parse_decimal_roundtrip() {
    for n in [0u32, 1, 9, 10, 12345, 4294967295] {
        assert_eq!(parse_u32(&decimal_string(n as u64)), Some(n));
    }
}

#[test]
fn prefix_tests() {
    assert!(starts_with("Bearer abc", "Bearer "));
    assert!(starts_with("abc", ""));
    assert!(!starts_with("Bear", "Bearer "));
    assert!(!starts_with("bearer abc", "Bearer "));
    assert!(same_text("编程", "编程"));
    assert!(!same_text("编程", "编"));
}

#[test]
fn trimming_matches_std() {
    let cases = [
        ("ababx", "ab"),
        ("abab", "ab"),
        ("xab", "ab"),
        ("", "ab"),
        ("aaa", "aa"),
        ("./static/cover/./static/cover/cover-1.jpg", "./static/cover/"),
        ("x.jpg.jpg", ".jpg"),
        ("编程编程站", "编程"),
        ("abc", ""),
    ];
    for (s, p) in cases {
        assert_eq!(trim_start_matches(s, p), s.trim_start_matches(p), "start {:?} {:?}", s, p);
        assert_eq!(trim_end_matches(s, p), s.trim_end_matches(p), "end {:?} {:?}", s, p);
    }
}

#[test]
fn joined_ids() {
    let mut s = String::new();
    push_joined(&mut s, &vec![], ",");
    assert_eq!(s, "");
    let mut s = String::new();
    push_joined(&mut s, &vec![3, 1, 20], ",");
    assert_eq!(s, "3,1,20");
    let mut s = String::from("(");
    push_joined(&mut s, &vec![5, 6], ", ");
    assert_eq!(s, "(5, 6");
}
