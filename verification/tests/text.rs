use aqua_gateway::ip::{is_private_ipv4, is_valid_ip, parse_ipv4, u32_to_ipv4};
use aqua_gateway::json::{
    can_take_members, signed_field, text_field, text_field_or_empty, to_bytes, true_field,
    unsigned_field,
};
use aqua_gateway::number::{
    decimal_text, parse_signed, parse_unsigned, push_binary, push_hex, signed_text,
};
use aqua_gateway::text::{
    ends_with, find, head, is_white_space, split, split_once, starts_with, strip_leading,
    strip_prefix, to_lower, trim,
};
use serde_json::Value;

#[test]
fn white_space_is_what_std_says() {
    let mut u: u32 = 0;
    while u <= 0x10ffff {
        if let Some(c) = char::from_u32(u) {
            assert_eq!(is_white_space(c), c.is_whitespace());
        }
        u += 1;
    }
}

#[test]
fn small_letters_are_what_std_says() {
    let mut u: u32 = 0;
    while u < 0x80 {
        let c = char::from_u32(u).unwrap();
        assert_eq!(to_lower(c), c.to_ascii_lowercase());
        u += 1;
    }
}

#[test]
fn texts_are_taken_apart() {
    for s in ["", " ", "a", " a b ", "\u{3000}你 好\n"] {
        assert_eq!(trim(s), s.trim());
        assert_eq!(trim(trim(s)), trim(s));
    }
    for s in ["", ",", "a,b", ",a,,b,", "你,好"] {
        let pieces: Vec<String> = s.split(',').map(|p| p.to_string()).collect();
        assert_eq!(split(s, ','), pieces);
        assert_eq!(head(s, ','), s.split(',').next().unwrap());
        assert_eq!(split_once(s, ','), s.split_once(','));
    }
    assert_eq!(find("a,b", ','), 1);
    assert_eq!(strip_prefix("assets/x", "assets/"), Some("x"));
    assert_eq!(strip_prefix("asset", "assets/"), None);
    assert_eq!(strip_leading("//a/", '/'), "a/");
    assert!(starts_with("abc", "ab") && !starts_with("abc", "b"));
    assert!(ends_with("abc", "bc") && !ends_with("c", "bc"));
}

#[test]
fn numbers_are_read() {
    assert_eq!(parse_unsigned("+32", 255), Some(32));
    assert_eq!(parse_unsigned("256", 255), None);
    assert_eq!(parse_unsigned("", 255), None);
    assert_eq!(parse_unsigned("-0", 255), None);
    assert_eq!(parse_signed("-9223372036854775808"), Some(i64::MIN));
    assert_eq!(parse_signed("9223372036854775808"), None);
    assert_eq!(parse_signed("+7"), Some(7));
    assert_eq!(parse_signed("1e3"), None);
}

#[test]
fn numbers_are_written() {
    assert_eq!(decimal_text(0), "0");
    assert_eq!(decimal_text(4294967296), "4294967296");
    for n in [0, 1, -1, i64::MAX, i64::MIN] {
        assert_eq!(signed_text(n as i128), n.to_string());
        assert_eq!(parse_signed(&signed_text(n as i128)), Some(n));
    }
    let mut out = String::from("0x");
    push_hex(&mut out, 0xc0a80164, 8);
    assert_eq!(out, "0xc0a80164");
    let mut bits = String::new();
    push_binary(&mut bits, 0xa5, 8);
    assert_eq!(bits, "10100101");
}

#[test]
fn addresses_are_told_from_other_texts() {
    for ip in ["1.2.3.4", "0.0.0.0", "255.255.255.255", "::1", "fe80::1", "::"] {
        assert!(is_valid_ip(ip));
    }
    for ip in ["", "1.2.3", "1.2.3.4.5", "256.1.1.1", "01.2.3.4", "1.2.3.x", ":", "fg::1", "1..2.3"] {
        assert!(!is_valid_ip(ip));
    }
}

#[test]
fn private_addresses_are_known() {
    for ip in ["10.0.0.1", "127.0.0.1", "0.1.2.3", "172.16.0.1", "172.31.9.9", "192.168.0.1", "169.254.1.1"] {
        assert!(is_private_ipv4(ip));
    }
    for ip in ["8.8.8.8", "172.15.0.1", "172.32.0.1", "192.169.0.1", "169.253.0.1", "11.0.0.1", "10.0.0"] {
        assert!(!is_private_ipv4(ip));
    }
}

#[test]
fn addresses_read_back() {
    for v in [0, 1, 0x0a00_0001, 0xc0a8_0164, u32::MAX] {
        assert_eq!(parse_ipv4(&u32_to_ipv4(v)), Some(v));
    }
    assert_eq!(u32_to_ipv4(0x0102_0304), "1.2.3.4");
    assert_eq!(parse_ipv4("01.002.3.4"), Some(0x0102_0304));
    assert_eq!(parse_ipv4("1.2.3.256"), None);
    assert_eq!(parse_ipv4("1.2.3.+4"), None);
}

#[test]
fn documents_are_taken_apart() {
    let v: Value =
        serde_json::from_str(r#"{"s": "x", "n": 7, "m": -7, "f": 1.5, "t": true}"#).unwrap();
    assert_eq!(text_field(&v, "s"), Some("x"));
    assert_eq!(text_field(&v, "n"), None);
    assert_eq!(text_field_or_empty(&v, "z"), "");
    assert_eq!(unsigned_field(&v, "n"), Some(7));
    assert_eq!(unsigned_field(&v, "m"), None);
    assert_eq!(signed_field(&v, "m"), Some(-7));
    assert_eq!(signed_field(&v, "f"), None);
    assert!(true_field(&v, "t") && !true_field(&v, "s") && !true_field(&Value::Null, "t"));
    assert!(can_take_members(&v) && can_take_members(&Value::Null));
    assert!(!can_take_members(&Value::from(1)));
    let list: Value = serde_json::from_str(r#"["s", {"s": 1}]"#).unwrap();
    assert_eq!(text_field(&list, "s"), None);
    assert_eq!(to_bytes(&list), br#"["s",{"s":1}]"#.to_vec());
}
