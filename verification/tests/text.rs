use zicade::text::{
    chars_of, contains_exec, eq_ignore_case_exec, is_whitespace, lower_char, parse_hex_usize_exec,
    parse_u16_exec, parse_usize_exec, push_decimal, same_text, string_of, trimmed, upper_char,
};

fn cs(s: &str) -> Vec<char> {
    s.chars().collect()
}

#[test]
fn ascii_case_and_whitespace() {
    assert_eq!(lower_char('Q'), 'q');
    assert_eq!(lower_char('é'), 'é');
    assert_eq!(upper_char('z'), 'Z');
    assert!(is_whitespace('\t'));
    assert!(!is_whitespace('x'));
    assert!(eq_ignore_case_exec(&cs("NeGoTiAtE"), &cs("negotiate")));
    assert!(!eq_ignore_case_exec(&cs("negotiat"), &cs("negotiate")));
    assert!(same_text("message", "message"));
    assert!(!same_text("message", "Message"));
}

#[test]
fn trimming_and_searching() {
    assert_eq!(trimmed(&cs("  a b \t")), cs("a b"));
    assert_eq!(trimmed(&cs("   ")), cs(""));
    assert!(contains_exec(&cs("gzip, chunked"), &cs("chunked")));
    assert!(!contains_exec(&cs("chunk"), &cs("chunked")));
    assert_eq!(string_of(&chars_of("héllo")), "héllo");
}

#[test]
fn number_parsing_matches_std() {
    assert_eq!(parse_u16_exec(&cs("65535")), Some(65535));
    assert_eq!(parse_u16_exec(&cs("65536")), None);
    assert_eq!(parse_u16_exec(&cs("+8")), Some(8));
    assert_eq!(parse_u16_exec(&cs("")), None);
    assert_eq!(parse_u16_exec(&cs("+")), None);
    assert_eq!(parse_u16_exec(&cs(" 1")), None);
    assert_eq!(parse_usize_exec(&cs("0012")), Some(12));
    assert_eq!(parse_hex_usize_exec(&cs("aF")), Some(175));
    assert_eq!(parse_hex_usize_exec(&cs("g")), None);
}

#[test]
fn decimal_rendering() {
    let mut s = String::from("n=");
    push_decimal(&mut s, 0);
    push_decimal(&mut s, 1234);
    assert_eq!(s, "n=01234");
    let mut m = String::new();
    push_decimal(&mut m, u64::MAX);
    assert_eq!(m, u64::MAX.to_string());
}
