use elerem::text::{contains, decimal_string, ends_with, push_signed_decimal, split, str_eq, trim};

#[test]
fn decimal_notation() {
    assert_eq!(decimal_string(0), "0");
    assert_eq!(decimal_string(7), "7");
    assert_eq!(decimal_string(10), "10");
    assert_eq!(decimal_string(1234567890), "1234567890");
    let mut s = String::from("x=");
    push_signed_decimal(&mut s, -42);
    assert_eq!(s, "x=-42");
    let mut t = String::new();
    push_signed_decimal(&mut t, i64::MIN);
    assert_eq!(t, i64::MIN.to_string());
}

#[test]
fn substring_search() {
    assert!(contains("alice@example.com", "example"));
    assert!(contains("alice", ""));
    assert!(contains("", ""));
    assert!(!contains("bob", "bobby"));
    assert!(!contains("charlie", "z"));
    assert!(contains("héllo wörld", "ö"));
}

#[test]
fn suffix_and_equality() {
    assert!(ends_with("user@example.com", "@example.com"));
    assert!(!ends_with("user@example.org", "@example.com"));
    assert!(!ends_with("com", "example.com"));
    assert!(str_eq("admin", "admin"));
    assert!(!str_eq("admin", "Admin"));
    assert!(!str_eq("admin", "admins"));
}

#[test]
fn trimming_white_space() {
    assert_eq!(trim("  rust \t\n"), "rust");
    assert_eq!(trim("   "), "");
    assert_eq!(trim(""), "");
    assert_eq!(trim("\u{3000}a b\u{a0}"), "a b");
    for s in ["  x ", "\tsql, go\n", "plain", " \u{2003}u\u{2028}"] {
        assert_eq!(trim(s), s.trim());
    }
}

#[test]
fn splitting_on_commas() {
    assert_eq!(split("a,b,,c", ','), vec!["a", "b", "", "c"]);
    assert_eq!(split("", ','), vec![""]);
    assert_eq!(split(",", ','), vec!["", ""]);
    for s in ["rust, go ,sql", "one", ",,x,"] {
        let expected: Vec<String> = s.split(',').map(|p| p.to_string()).collect();
        assert_eq!(split(s, ','), expected);
    }
}
