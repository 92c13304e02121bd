use portfolio_api::text::{append_decimal, same_text, starts_with, trim_end_char, trim_start_char};

fn rendered(n: i64) -> String {
    let mut s = String::new();
    append_decimal(&mut s, n);
    s
}

#[test]
fn decimal_rendering_matches_format() {
    for n in [0i64, 7, 10, 42, 1000, -1, -7, -120, i64::MAX, i64::MIN] {
        assert_eq!(rendered(n), format!("{n}"));
    }
}

#[test]
fn decimal_appends_after_existing_text() {
    let mut s = String::from("id=");
    append_decimal(&mut s, 305);
    assert_eq!(s, "id=305");
}

#[test]
fn trimming_slashes() {
    assert_eq!(trim_start_char("//img/logo.svg", '/'), "img/logo.svg");
    assert_eq!(trim_start_char("img", '/'), "img");
    assert_eq!(trim_start_char("///", '/'), "");
    assert_eq!(trim_end_char("https://cdn.example.com//", '/'), "https://cdn.example.com");
    assert_eq!(trim_end_char("", '/'), "");
}

#[test]
fn prefixes_and_equality() {
    assert!(starts_with("https://x", "http"));
    assert!(!starts_with("htt", "http"));
    assert!(!starts_with("logo/http", "http"));
    assert!(starts_with("anything", ""));
    assert!(same_text("access", "access"));
    assert!(!same_text("access", "acces"));
    assert!(!same_text("id", "ID"));
}
