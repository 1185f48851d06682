use bmctl::text::{
    decimal_text, first_chars, join_strings, is_number_text, push_rounded, same_ignoring_ascii_case,
    trim_end_matches, trim_start_matches, trimmed, whole_text,
};

fn hundredths(m: i64) -> String {
    let mut s = String::new();
    bmctl::text::push_hundredths(&mut s, m);
    s
}

#[test]
fn whole_rounds_half_to_even() {
    assert_eq!(whole_text(904_000), "904");
    assert_eq!(whole_text(904_499), "904");
    assert_eq!(whole_text(904_501), "905");
    assert_eq!(whole_text(2_500), "2");
    assert_eq!(whole_text(3_500), "4");
    assert_eq!(whole_text(0), "0");
}

#[test]
fn whole_keeps_the_sign_of_small_negatives() {
    assert_eq!(whole_text(-300), "-0");
    assert_eq!(whole_text(-1_600), "-2");
    assert_eq!(whole_text(i64::MIN), "-9223372036854776");
}

#[test]
fn hundredths_have_two_places() {
    assert_eq!(hundredths(12_040), "12.04");
    assert_eq!(hundredths(3_305), "3.30");
    assert_eq!(hundredths(3_315), "3.32");
    assert_eq!(hundredths(50), "0.05");
    assert_eq!(hundredths(-1_000), "-1.00");
}

#[test]
fn decimal_of_integers() {
    assert_eq!(decimal_text(0), "0");
    assert_eq!(decimal_text(126), "126");
    assert_eq!(decimal_text(u64::MAX), "18446744073709551615");
}

#[test]
fn trim_removes_unicode_whitespace() {
    assert_eq!(trimmed("  GIGABYTE \t\n"), "GIGABYTE");
    assert_eq!(trimmed("\u{a0}R25\u{3000}"), "R25");
    assert_eq!(trimmed("   "), "");
    assert_eq!(trimmed("a b"), "a b");
}

#[test]
fn prefix_and_suffix_stripping_repeats() {
    assert_eq!(trim_start_matches("https://https://x", "https://"), "x");
    assert_eq!(trim_start_matches("http://x", "https://"), "http://x");
    assert_eq!(trim_end_matches("10.0.0.1///", '/'), "10.0.0.1");
    assert_eq!(trim_end_matches("", '/'), "");
}

#[test]
fn first_chars_counts_characters() {
    assert_eq!(first_chars("héllo", 2), "hé");
    assert_eq!(first_chars("ab", 400), "ab");
}

#[test]
fn ascii_case_comparison() {
    assert!(same_ignoring_ascii_case("On", "on"));
    assert!(same_ignoring_ascii_case("ON", "on"));
    assert!(!same_ignoring_ascii_case("Off", "on"));
}

#[test]
fn join_puts_separators_between() {
    let parts = vec!["FAN1 at 0 RPM".to_string(), "FAN2 at 300 RPM".to_string()];
    assert_eq!(join_strings(&parts, ", "), "FAN1 at 0 RPM, FAN2 at 300 RPM");
    assert_eq!(join_strings(&Vec::new(), ", "), "");
}

fn rounded(t: &str) -> String {
    let mut s = String::new();
    push_rounded(&mut s, t);
    s
}

#[test]
fn numbers_are_what_float_parsing_accepts() {
    for t in ["85", "-2.5", ".5", "7.", "+1", "0.0005"] {
        assert!(is_number_text(t), "{t}");
    }
    for t in ["", ".", "-", "1.2.3", "1-", "--1"] {
        assert!(!is_number_text(t), "{t}");
    }
}

#[test]
fn rounding_agrees_with_std_formatting() {
    for t in ["12", "-0", "3.25", "-.75", "10.", "999999999999", "0.5", "1.5", "2.5", "-0.4", "1.2345", "007.6"] {
        let v: f64 = t.parse().unwrap();
        assert_eq!(rounded(t), format!("{v:.0}"), "{t}");
    }
    assert_eq!(rounded("abc"), "abc");
}
