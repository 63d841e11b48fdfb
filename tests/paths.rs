use rive_viewer::paths::{is_openable_path, openable_path, trim_path};

#[test]
fn upper_case_extension_is_recognized() {
    assert!(is_openable_path("anim.RIV"));
}

#[test]
fn backup_suffix_is_not_recognized() {
    assert!(!is_openable_path("anim.riv.bak"));
}

#[test]
fn flag_is_not_recognized() {
    assert!(!is_openable_path("-flag"));
    assert!(!is_openable_path("--open=a.riv"));
}

#[test]
fn file_url_is_recognized() {
    assert!(is_openable_path("file:///tmp/a.riv"));
    assert!(is_openable_path("FILE:///tmp/a.riv?x=1"));
    assert!(!is_openable_path("file:///tmp/A.RIV?x=1"));
}

#[test]
fn file_url_without_extension_is_not_recognized() {
    assert!(!is_openable_path("file:///tmp/a.png"));
}

#[test]
fn empty_and_blank_are_not_recognized() {
    assert!(!is_openable_path(""));
    assert!(!is_openable_path("  \"\"  "));
    assert!(!is_openable_path(".ri"));
}

#[test]
fn quotes_and_whitespace_are_trimmed() {
    assert!(is_openable_path("  \"/Users/x/cat.riv\"\n"));
    assert!(is_openable_path("a.riv\u{a0}"));
    assert!(is_openable_path("\u{3000}'b.RIV'\u{2028}"));
    assert_eq!(trim_path("\u{85}x.riv\u{200a}"), "x.riv");
    assert_eq!(trim_path("  '/a b/c.riv' \t"), "/a b/c.riv");
    assert_eq!(openable_path(" \"/x/y.riv\" "), Some("/x/y.riv".to_string()));
    assert_eq!(openable_path("/x/y.txt"), None);
}
