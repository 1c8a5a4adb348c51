use regrun::path::{is_blank_str, source_path};
use regrun::registry::{REG_BINARY, REG_EXPAND_SZ, REG_SZ};
use regrun::{
    compose, join_path, read_path_best_effort, read_path_from_registry, split_path, Error, Value,
};

fn sz(text: &str) -> Value {
    let mut bytes = text.as_bytes().to_vec();
    bytes.push(0);
    Value::new(REG_SZ, bytes)
}

fn expand_sz(text: &str) -> Value {
    let mut bytes = text.as_bytes().to_vec();
    bytes.push(0);
    Value::new(REG_EXPAND_SZ, bytes)
}

#[test]
fn user_path_comes_before_system_path() {
    let r = read_path_from_registry(
        Ok(sz(r"C:\Users\a\bin")),
        None,
        Ok(sz(r"C:\Windows;C:\Windows\System32")),
        None,
    );
    assert_eq!(r.unwrap(), r"C:\Users\a\bin;C:\Windows;C:\Windows\System32");
}

#[test]
fn missing_user_key_leaves_system_path() {
    let r = read_path_best_effort(
        Err(Error::KeyOpen("The system cannot find the file specified.".to_owned())),
        None,
        Ok(sz(r"C:\Windows")),
        None,
    );
    assert_eq!(r, r"C:\Windows");
}

#[test]
fn missing_user_key_is_an_error_when_strict() {
    let r = read_path_from_registry(
        Err(Error::KeyOpen("not found".to_owned())),
        None,
        Ok(sz(r"C:\Windows")),
        None,
    );
    match r {
        Err(Error::KeyOpen(t)) => assert_eq!(t, "not found"),
        other => panic!("unexpected {:?}", other),
    }
}

#[test]
fn user_error_is_reported_before_system_error() {
    let r = read_path_from_registry(
        Err(Error::ValueQuery("user".to_owned())),
        None,
        Err(Error::ValueTooLarge),
        None,
    );
    assert!(matches!(r, Err(Error::ValueQuery(ref t)) if t == "user"));
    let r = read_path_from_registry(Ok(sz("a")), None, Err(Error::ValueTooLarge), None);
    assert!(matches!(r, Err(Error::ValueTooLarge)));
}

#[test]
fn expanded_user_path_replaces_literal() {
    let r = read_path_from_registry(
        Ok(expand_sz(r"%USERPROFILE%\bin")),
        Some(r"C:\Users\a\bin".to_owned()),
        Ok(sz("")),
        None,
    );
    assert_eq!(r.unwrap(), r"C:\Users\a\bin");
}

#[test]
fn unexpandable_user_path_falls_back_to_literal() {
    let r = read_path_from_registry(Ok(expand_sz(r"%NOPE%\x")), None, Ok(sz(r"C:\w")), None);
    assert_eq!(r.unwrap(), r"%NOPE%\x;C:\w");
}

#[test]
fn unknown_reference_left_literal_by_platform_is_kept() {
    let v = expand_sz("%UNDEFINED%;C:\\x");
    assert_eq!(source_path(&v, None), "%UNDEFINED%;C:\\x");
    assert_eq!(source_path(&v, Some("%UNDEFINED%;C:\\x".to_owned())), "%UNDEFINED%;C:\\x");
}

#[test]
fn binary_user_path_counts_as_empty() {
    let v = Value::new(REG_BINARY, vec![1, 2, 3, 0]);
    let r = read_path_from_registry(Ok(v), None, Ok(sz(r"C:\Windows")), None);
    assert_eq!(r.unwrap(), r"C:\Windows");
}

#[test]
fn compose_cases() {
    assert_eq!(compose("a", "b"), "a;b");
    assert_eq!(compose("a", ""), "a");
    assert_eq!(compose("", "b"), "b");
    assert_eq!(compose("", ""), "");
    assert_eq!(compose("  \t", "b"), "b");
    assert_eq!(compose("a", " \u{3000}"), "a");
    assert_eq!(compose(" \n", "\u{a0}"), "");
    assert_eq!(compose(" a ", "b"), " a ;b");
}

#[test]
fn compose_adds_no_outer_separator() {
    let r = compose(r"C:\a", r"C:\b");
    assert!(!r.starts_with(';'));
    assert!(!r.ends_with(';'));
    assert_eq!(compose(";a", "b;"), ";a;b;");
}

#[test]
fn compose_twice_is_identical() {
    let first = read_path_from_registry(Ok(sz("u1;u2")), None, Ok(sz("s1")), None).unwrap();
    let second = read_path_from_registry(Ok(sz("u1;u2")), None, Ok(sz("s1")), None).unwrap();
    assert_eq!(first.as_bytes(), second.as_bytes());
}

#[test]
fn split_keeps_segments_in_order() {
    assert_eq!(split_path(r"C:\a;C:\b;C:\c"), vec![r"C:\a", r"C:\b", r"C:\c"]);
    assert_eq!(split_path(""), vec![""]);
    assert_eq!(split_path("a;;b;"), vec!["a", "", "b", ""]);
    assert_eq!(split_path("ä;ö"), vec!["ä", "ö"]);
}

#[test]
fn split_then_join_is_identity() {
    for s in ["", "a", r"C:\Windows;C:\Windows\System32", "a;;b", ";x;", "ä;ö;ü"] {
        assert_eq!(join_path(&split_path(s)), s);
    }
}

#[test]
fn join_puts_one_separator_between_parts() {
    assert_eq!(join_path(&vec!["a".to_owned(), "b".to_owned(), "c".to_owned()]), "a;b;c");
    assert_eq!(join_path(&vec![]), "");
    assert_eq!(join_path(&vec!["x".to_owned()]), "x");
}

#[test]
fn blank_detection() {
    assert!(is_blank_str(""));
    assert!(is_blank_str(" \t\r\n\u{2028}"));
    assert!(!is_blank_str(" a "));
}
