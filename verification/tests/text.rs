use std::cmp::Ordering;

use anillo::text::{parse_u8, push_decimal, replace_str, IntErrorKind};
use anillo::{Ring, Token, TokenInfo};

#[test]
fn decimal_numbers_read() {
    assert_eq!(parse_u8("0"), Ok(0));
    assert_eq!(parse_u8("255"), Ok(255));
    assert_eq!(parse_u8("+17"), Ok(17));
    assert_eq!(parse_u8("0012"), Ok(12));
    assert_eq!(parse_u8(""), Err(IntErrorKind::Empty));
    assert_eq!(parse_u8("+"), Err(IntErrorKind::InvalidDigit));
    assert_eq!(parse_u8("-"), Err(IntErrorKind::InvalidDigit));
    assert_eq!(parse_u8("-5"), Err(IntErrorKind::InvalidDigit));
    assert_eq!(parse_u8("256"), Err(IntErrorKind::PosOverflow));
    assert_eq!(parse_u8("999a"), Err(IntErrorKind::PosOverflow));
    assert_eq!(parse_u8("25a"), Err(IntErrorKind::InvalidDigit));
    assert_eq!(parse_u8("x"), Err(IntErrorKind::InvalidDigit));
}

#[test]
fn decimal_reading_agrees_with_std() {
    for s in ["", "+", "-", "0", "7", "+0", "255", "256", "1000", "99a", "a9", "+-1", "٣"] {
        let ours = parse_u8(s);
        let std = s.parse::<u8>();
        assert_eq!(ours.is_ok(), std.is_ok(), "{}", s);
        if let (Ok(a), Ok(b)) = (ours, std.clone()) {
            assert_eq!(a, b);
        }
        if let (Err(k), Err(e)) = (ours, std) {
            assert_eq!(k.message(), e.to_string(), "{}", s);
        }
    }
}

#[test]
fn decimal_rendering_reads_back() {
    for n in 0..=255u8 {
        let mut s = String::new();
        push_decimal(&mut s, n as u64);
        assert_eq!(s, n.to_string());
        assert_eq!(parse_u8(&s), Ok(n));
    }
    let mut s = String::from("x=");
    push_decimal(&mut s, 4294967295);
    assert_eq!(s, "x=4294967295");
}

#[test]
fn error_kind_messages() {
    assert_eq!(IntErrorKind::Empty.message(), "cannot parse integer from empty string");
    assert_eq!(IntErrorKind::InvalidDigit.message(), "invalid digit found in string");
    assert_eq!(IntErrorKind::PosOverflow.message(), "number too large to fit in target type");
}

#[test]
fn replace_is_left_to_right_without_overlap() {
    assert_eq!(replace_str("aaa", "aa", "b"), "ba");
    assert_eq!(replace_str("{x}{x}", "{x}", "yy"), "yyyy");
    assert_eq!(replace_str("abc", "zz", "q"), "abc");
    assert_eq!(replace_str("", "a", "b"), "");
    assert_eq!(replace_str("héllo", "é", "e"), "hello");
    for (s, p, t) in [("abab", "ab", "x"), ("aXbXc", "X", ""), ("aaaa", "aa", "a")] {
        assert_eq!(replace_str(s, p, t), s.replace(p, t));
    }
}

#[test]
fn ring_order() {
    assert!(Ring::User < Ring::Super);
    assert!(Ring::Super > Ring::User);
    assert!(Ring::User <= Ring::User);
    assert!(Ring::Super >= Ring::Super);
    assert!(!(Ring::Super < Ring::Super));
    assert_eq!(Ring::User.partial_cmp(&Ring::Super), Some(Ordering::Less));
    assert_eq!(Ring::Super.cmp(&Ring::User), Ordering::Greater);
    assert_eq!(Ring::User.max(Ring::Super), Ring::Super);
    assert_eq!(Ring::User.min(Ring::Super), Ring::User);
    assert_eq!(Ring::User, Ring::User);
    assert_ne!(Ring::User, Ring::Super);
}

#[test]
fn renderings() {
    assert_eq!(Ring::User.to_display_string(), "Ring::(User)");
    assert_eq!(Ring::Super.to_display_string(), "Ring::(Super)");
    assert_eq!(
        Token::KeywordPrivilege(Ring::Super).to_display_string(),
        "Token::KeywordPrivilege(Ring::(Super))"
    );
    assert_eq!(Token::Identifier("abc".to_string()).to_display_string(), "Token::Identifier(abc)");
    let t = TokenInfo::new(Token::Dollar, 3, 14);
    assert_eq!(t.to_display_string(), "TokenInfo {token = Token::Dollar, line = 3, col = 14}");
    assert_eq!((t.line(), t.col()), (3, 14));
}
