use mini_temporal::identity::{hostname_from, worker_identity};
use mini_temporal::text::{push_decimal, push_signed_decimal, text_contains, trim_white_space};

#[test]
fn identity_format() {
    assert_eq!(worker_identity("macbook-pro", 83241), "worker-macbook-pro-83241");
    assert_eq!(worker_identity("h", 0), "worker-h-0");
    assert_eq!(worker_identity("h", u32::MAX), "worker-h-4294967295");
}

#[test]
fn hostname_from_command_output_is_trimmed() {
    let h = hostname_from(Some(b"  box-1\n".to_vec()), Some("env-host".to_string()));
    assert_eq!(h, "box-1");
}

#[test]
fn hostname_falls_back_to_environment() {
    let h = hostname_from(Some(b" \t\n".to_vec()), Some("env-host".to_string()));
    assert_eq!(h, "env-host");
    let h = hostname_from(None, Some("env-host".to_string()));
    assert_eq!(h, "env-host");
}

#[test]
fn hostname_falls_back_to_localhost() {
    assert_eq!(hostname_from(None, None), "localhost");
    assert_eq!(hostname_from(Some(Vec::new()), None), "localhost");
}

#[test]
fn hostname_decodes_invalid_utf8_lossily() {
    let h = hostname_from(Some(vec![b'a', 0xff, b'b', b'\n']), None);
    assert_eq!(h, "a\u{FFFD}b");
}

#[test]
fn trim_uses_unicode_white_space() {
    assert_eq!(trim_white_space("\u{3000}\u{a0} x y \u{2029}"), "x y");
    assert_eq!(trim_white_space("   "), "");
    assert_eq!(trim_white_space("abc"), "abc");
}

#[test]
fn decimal_rendering() {
    let mut s = String::new();
    push_signed_decimal(&mut s, i64::MIN);
    assert_eq!(s, i64::MIN.to_string());
    let mut s = String::new();
    push_signed_decimal(&mut s, -305);
    assert_eq!(s, "-305");
    let mut s = String::from("n=");
    push_decimal(&mut s, u64::MAX);
    assert_eq!(s, format!("n={}", u64::MAX));
    let mut s = String::new();
    push_decimal(&mut s, 0);
    assert_eq!(s, "0");
}

#[test]
fn substring_search() {
    assert!(text_contains("workflow not found here", "not found"));
    assert!(!text_contains("not foun", "not found"));
    assert!(text_contains("abc", ""));
    assert!(!text_contains("", "a"));
    assert!(text_contains("aab", "ab"));
}

#[test]
fn identities_differ_by_pid() {
    assert_ne!(worker_identity("box", 1), worker_identity("box", 10));
    assert_ne!(worker_identity("box", 12), worker_identity("box", 21));
}
