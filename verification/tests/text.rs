use firewall_client::text::{
    belongs_to, chars_of, contains, contains_char, decimal_string, run_end, same_text, text_of,
    CharClass,
};

#[test]
fn decimal_rendering() {
    assert_eq!(decimal_string(0), "0");
    assert_eq!(decimal_string(7), "7");
    assert_eq!(decimal_string(10), "10");
    assert_eq!(decimal_string(443), "443");
    assert_eq!(decimal_string(65535), "65535");
    assert_eq!(decimal_string(1000000), "1000000");
    assert_eq!(decimal_string(u64::MAX), "18446744073709551615");
}

#[test]
fn decimal_rendering_agrees_with_display() {
    for n in 0u64..3000 {
        assert_eq!(decimal_string(n), n.to_string());
    }
}

#[test]
fn characters_round_trip() {
    let chars = chars_of("héllo");
    assert_eq!(chars, vec!['h', 'é', 'l', 'l', 'o']);
    assert_eq!(text_of(&chars, 0, 5), "héllo");
    assert_eq!(text_of(&chars, 1, 3), "él");
    assert_eq!(text_of(&chars, 2, 2), "");
    assert!(chars_of("").is_empty());
}

#[test]
fn substring_search() {
    assert!(contains("error sending request: dns error: no such host", "dns error"));
    assert!(contains("abc", ""));
    assert!(contains("", ""));
    assert!(!contains("", "a"));
    assert!(!contains("ab", "abc"));
    assert!(contains("aab", "ab"));
    assert!(contains("xxTLS", "TLS"));
    assert!(!contains("tls", "TLS"));
    assert!(contains("ééa", "éa"));
}

#[test]
fn text_equality() {
    assert!(same_text("GET", "GET"));
    assert!(!same_text("GET", "get"));
    assert!(!same_text("GET", "GETS"));
    assert!(same_text("", ""));
}

#[test]
fn character_search() {
    assert!(contains_char("fe80::1", ':'));
    assert!(!contains_char("10.0.0.1", ':'));
    assert!(!contains_char("", ':'));
    assert!(contains_char("a:", ':'));
}

#[test]
fn runs_of_a_class() {
    let chars = chars_of("  ab c\nd");
    assert_eq!(run_end(&chars, 0, chars.len(), CharClass::Blank), 2);
    assert_eq!(run_end(&chars, 2, chars.len(), CharClass::Solid), 4);
    assert_eq!(run_end(&chars, 0, chars.len(), CharClass::InLine), 6);
    assert_eq!(run_end(&chars, 0, 1, CharClass::Blank), 1);
    assert_eq!(run_end(&chars, 3, 3, CharClass::Solid), 3);
    assert_eq!(run_end(&chars, 7, chars.len(), CharClass::InLine), 8);
    assert!(belongs_to(CharClass::Blank, '\n'));
    assert!(!belongs_to(CharClass::InLine, '\n'));
    assert!(belongs_to(CharClass::InLine, '\r'));
    assert!(belongs_to(CharClass::Solid, 'x'));
}
