use niri_sense::text::{append_decimal, parse_i8, str_equals, trim_end};

#[test]
fn str_equals_compares_whole_strings() {
    assert!(str_equals("on", "on"));
    assert!(!str_equals("on", "off"));
    assert!(!str_equals("on", "On"));
    assert!(!str_equals("", "x"));
    assert!(str_equals("", ""));
    assert!(str_equals("héllo", "héllo"));
}

#[test]
fn trim_end_removes_trailing_white_space_only() {
    assert_eq!(trim_end("connect\n"), "connect");
    assert_eq!(trim_end("scan start \r\n"), "scan start");
    assert_eq!(trim_end("  list"), "  list");
    assert_eq!(trim_end("\t \n"), "");
    assert_eq!(trim_end("a\u{3000}\u{85}"), "a");
    assert_eq!(trim_end(""), "");
}

#[test]
fn trim_end_agrees_with_std() {
    for s in ["x \u{2028}", "y\u{a0}", "\u{200b}", "z\u{1680}\u{205f}", "ok"] {
        assert_eq!(trim_end(s), s.trim_end());
    }
}

#[test]
fn parse_i8_reads_decimal_numbers() {
    assert_eq!(parse_i8("12"), Some(12));
    assert_eq!(parse_i8("-1"), Some(-1));
    assert_eq!(parse_i8("+5"), Some(5));
    assert_eq!(parse_i8("007"), Some(7));
    assert_eq!(parse_i8("-0"), Some(0));
    assert_eq!(parse_i8("127"), Some(127));
    assert_eq!(parse_i8("-128"), Some(-128));
}

#[test]
fn parse_i8_refuses_what_std_refuses() {
    for s in ["", "-", "+", "128", "-129", "1000", "1a", " 1", "1 ", "--1", "+-1", "٣"] {
        assert_eq!(parse_i8(s), None, "input {:?}", s);
        assert!(s.parse::<i8>().is_err());
    }
}

#[test]
fn parse_i8_agrees_with_std_on_every_value() {
    for v in -128i32..=127 {
        let s = v.to_string();
        assert_eq!(parse_i8(&s), Some(v as i8));
    }
}

#[test]
fn append_decimal_writes_like_format() {
    for n in [0u16, 7, 10, 99, 100, 12345, 65535] {
        let mut out = String::from("port ");
        append_decimal(&mut out, n);
        assert_eq!(out, format!("port {}", n));
    }
}
