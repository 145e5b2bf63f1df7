use alfredodev::ids::ObjectId;
use alfredodev::numbers::{parse_i32, parse_i32_field, parse_optional_i32_field, push_int, push_nat_padded};
use alfredodev::text::{
    after_char, before_char, clean_opt, contains, ends_with, same_text, strip_prefix, text_le_exec, trim, trim_end_char,
};

#[test]
fn trim_removes_unicode_whitespace_and_is_idempotent() {
    assert_eq!(trim("  hola \t\n"), "hola");
    assert_eq!(trim("\u{3000}x\u{00A0}"), "x");
    assert_eq!(trim(trim("  a b  ")), trim("  a b  "));
    assert_eq!(trim("   "), "");
}

#[test]
fn clean_opt_drops_blank_values() {
    assert_eq!(clean_opt(Some("  nota ".to_string())), Some("nota".to_string()));
    assert_eq!(clean_opt(Some("   ".to_string())), None);
    assert_eq!(clean_opt(None), None);
}

#[test]
fn text_helpers() {
    assert!(same_text("abc", "abc"));
    assert!(!same_text("abc", "abd"));
    assert!(contains("request failed with status 500", "status 5"));
    assert!(!contains("abc", "abcd"));
    assert_eq!(strip_prefix("session=abc", "session="), Some("abc"));
    assert_eq!(strip_prefix("sess", "session="), None);
    assert_eq!(trim_end_char("https://x.mx///", '/'), "https://x.mx");
    assert_eq!(before_char("a:b:c", ':'), "a");
    assert_eq!(after_char("a:b:c", ':'), Some("b:c"));
    assert_eq!(after_char("abc", ':'), None);
}

#[test]
fn parse_i32_matches_str_parse() {
    for s in ["0", "42", "-17", "+5", "2147483647", "-2147483648", "2147483648", "", "-", "1a", " 1"] {
        assert_eq!(parse_i32(s), s.parse::<i32>().ok(), "input {s:?}");
    }
}

#[test]
fn integer_fields_report_their_label() {
    assert_eq!(parse_i32_field(" 12 ", "Versión"), Ok(12));
    assert_eq!(parse_i32_field("doce", "Versión"), Err("Versión debe ser numérico".to_string()));
    assert_eq!(parse_optional_i32_field(Some("  ".to_string()), "Día del mes"), Ok(None));
    assert_eq!(parse_optional_i32_field(Some(" 15".to_string()), "Día del mes"), Ok(Some(15)));
    assert_eq!(
        parse_optional_i32_field(Some("x".to_string()), "Día del mes"),
        Err("Día del mes debe ser numérico".to_string())
    );
}

#[test]
fn number_text() {
    let mut s = String::new();
    push_nat_padded(&mut s, 7, 3);
    s.push(' ');
    push_int(&mut s, -2048);
    assert_eq!(s, "007 -2048");
}

#[test]
fn object_id_hex_roundtrip() {
    let text = "65F0A1B2C3D4E5F6A7B8C9D0";
    let id = ObjectId::parse_str(text).unwrap();
    assert_eq!(id.to_hex(), text.to_lowercase());
    assert_eq!(ObjectId::parse_str(&id.to_hex()), Some(id));
    assert!(ObjectId::parse_str("65f0a1b2c3d4e5f6a7b8c9d").is_none());
    assert!(ObjectId::parse_str("zzf0a1b2c3d4e5f6a7b8c9d0").is_none());
    let other = ObjectId::parse_str("65f0a1b2c3d4e5f6a7b8c9d1").unwrap();
    assert!(id.same_as(&id));
    assert!(!id.same_as(&other));
}

#[test]
fn texts_compare_in_character_order() {
    assert!(text_le_exec("2024-01", "2024-02"));
    assert!(!text_le_exec("2024-02", "2024-01"));
    assert!(text_le_exec("2024", "2024-01"));
    assert!(!text_le_exec("2024-01", "2024"));
    assert!(text_le_exec("", ""));
    assert!(text_le_exec("Z", "a"));
    assert!(text_le_exec("z", "é"));
    assert_eq!(text_le_exec("abc", "abd"), "abc" <= "abd");
    assert!(ends_with("a.XML", "XML") && !ends_with("xml", "a.xml"));
}
