use telemetry_logger::ids::{generate_span_id, generate_trace_id};
use telemetry_logger::text::{
    before_colon, str_ends_with, str_eq_str, str_starts_with, third_slash_segment, trim_str,
    u64_to_string, underscores_to_spaces,
};

#[test]
fn span_ids_are_sixteen_hex_digits() {
    for _ in 0..16 {
        let id = generate_span_id();
        assert_eq!(id.len(), 16);
        assert!(id.chars().all(|c| c.is_ascii_hexdigit() && !c.is_ascii_uppercase()));
    }
}

#[test]
fn trace_ids_are_thirty_two_hex_digits_and_fresh() {
    let a = generate_trace_id();
    let b = generate_trace_id();
    assert_eq!(a.len(), 32);
    assert_eq!(b.len(), 32);
    assert!(a.chars().all(|c| c.is_ascii_hexdigit() && !c.is_ascii_uppercase()));
    assert_ne!(a, b);
}

#[test]
fn decimal_rendering() {
    assert_eq!(u64_to_string(0), "0");
    assert_eq!(u64_to_string(7), "7");
    assert_eq!(u64_to_string(1500), "1500");
    assert_eq!(u64_to_string(1234567890), "1234567890");
    assert_eq!(u64_to_string(u64::MAX), "18446744073709551615");
}

#[test]
fn string_predicates() {
    assert!(str_eq_str("abc", "abc"));
    assert!(!str_eq_str("abc", "abd"));
    assert!(!str_eq_str("abc", "ab"));
    assert!(str_ends_with("WAITING_LLM_START", "_START"));
    assert!(!str_ends_with("WAITING_LLM_START", "_END"));
    assert!(str_starts_with("WAITING_LLM_START", "WAITING_LLM"));
    assert!(!str_starts_with("WAITING", "WAITING_LLM"));
}

#[test]
fn text_transformations() {
    assert_eq!(underscores_to_spaces("A_B_C"), "A B C");
    assert_eq!(trim_str("  tool \t"), "tool");
    assert_eq!(trim_str(""), "");
    assert_eq!(trim_str(" \n "), "");
    assert_eq!(third_slash_segment("https://api.openai.com:443/v1"), "api.openai.com:443");
    assert_eq!(third_slash_segment("no-slashes"), "no-slashes");
    assert_eq!(before_colon("api.openai.com:443"), "api.openai.com");
    assert_eq!(before_colon("api.openai.com"), "api.openai.com");
}
