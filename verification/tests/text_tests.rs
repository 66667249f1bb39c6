use linear_mg::text::{
    concat3, contains_char, decimal_text, extract_team_key, is_uuid, join_strings, parse_u64,
    str_eq, str_eq_ignore_case,
};

#[test]
fn uuid_accepts_canonical_form() {
    assert!(is_uuid("123e4567-e89b-12d3-a456-426614174000"));
    assert!(is_uuid("ABCDEF01-ABCD-ABCD-ABCD-ABCDEF012345"));
}

#[test]
fn uuid_rejects_identifiers_and_bad_shapes() {
    assert!(!is_uuid("ENG-123"));
    assert!(!is_uuid(""));
    assert!(!is_uuid("123e4567e89b12d3a456426614174000"));
    assert!(!is_uuid("123e4567-e89b-12d3-a456-42661417400"));
    assert!(!is_uuid("123e4567-e89b-12d3-a456-4266141740000"));
    assert!(!is_uuid("123e4567-e89b-12d3-a456-42661417400g"));
    assert!(!is_uuid("123e4567-e89b-12d3-a456--26614174000"));
    assert!(!is_uuid("123e456-7e89b-12d3-a456-426614174000"));
}

#[test]
fn team_key_of_identifier() {
    assert_eq!(extract_team_key("ENG-123"), Some("ENG"));
    assert_eq!(extract_team_key("eng-1"), Some("eng"));
    assert_eq!(extract_team_key("ENG"), Some("ENG"));
    assert_eq!(extract_team_key("-123"), None);
    assert_eq!(extract_team_key("EN1-5"), None);
    assert_eq!(extract_team_key(""), None);
    assert_eq!(extract_team_key("ÉNG-1"), None);
}

#[test]
fn ascii_case_insensitive_comparison() {
    assert!(str_eq_ignore_case("In Progress", "in progress"));
    assert!(str_eq_ignore_case("ME", "me"));
    assert!(!str_eq_ignore_case("Todo", "Done"));
    assert!(!str_eq_ignore_case("abc", "abcd"));
    assert!(!str_eq_ignore_case("É", "é"));
    assert!(str_eq("abc", "abc"));
    assert!(!str_eq("abc", "ABC"));
}

#[test]
fn contains_char_finds_at_sign() {
    assert!(contains_char("a@b.c", '@'));
    assert!(!contains_char("alice", '@'));
    assert!(!contains_char("", '@'));
}

#[test]
fn parse_u64_reads_decimal_numbers() {
    assert_eq!(parse_u64("30"), Some(30));
    assert_eq!(parse_u64("+7"), Some(7));
    assert_eq!(parse_u64("0"), Some(0));
    assert_eq!(parse_u64("18446744073709551615"), Some(u64::MAX));
    assert_eq!(parse_u64("18446744073709551616"), None);
    assert_eq!(parse_u64(""), None);
    assert_eq!(parse_u64("+"), None);
    assert_eq!(parse_u64("-1"), None);
    assert_eq!(parse_u64("1.5"), None);
    assert_eq!(parse_u64(" 1"), None);
    assert_eq!(parse_u64("Wed, 21 Oct 2015 07:28:00 GMT"), None);
}

#[test]
fn parse_u64_agrees_with_std() {
    for s in ["12", "+12", "00042", "x", "99999999999999999999", "", "+"] {
        assert_eq!(parse_u64(s), s.parse::<u64>().ok(), "{s}");
    }
}

#[test]
fn decimal_text_writes_numbers() {
    assert_eq!(decimal_text(0), "0");
    assert_eq!(decimal_text(7), "7");
    assert_eq!(decimal_text(50), "50");
    assert_eq!(decimal_text(404), "404");
    assert_eq!(decimal_text(u64::MAX), u64::MAX.to_string());
}

#[test]
fn decimal_text_reads_back() {
    for n in [0u64, 9, 10, 123456, u64::MAX] {
        assert_eq!(parse_u64(&decimal_text(n)), Some(n));
    }
}

#[test]
fn join_and_concat() {
    let parts = vec!["a".to_string(), "b".to_string(), "c".to_string()];
    assert_eq!(join_strings(&parts, ", "), "a, b, c");
    assert_eq!(join_strings(&vec![], ", "), "");
    assert_eq!(join_strings(&vec!["x".to_string()], ", "), "x");
    assert_eq!(concat3("a", "b", "c"), "abc");
}
