use mpm::error::BuildError;
use mpm::ext::{assert_toml, prepend_path, strip_parent};
use mpm::text::{contains_substr, join_with, rfind_char, split_on, starts_with_str, str_eq,
    u64_to_string};

#[test]
fn test_strip_parent() {
    let test_path = "test/pkg/dir";
    assert_eq!(strip_parent(test_path), "test/dir".to_string());
}

#[test]
fn strip_parent_drops_the_root_segment() {
    assert_eq!(strip_parent("pkg"), "");
    assert_eq!(strip_parent("pkg/usr"), "usr");
    assert_eq!(strip_parent("pkg/usr/bin/tool"), "usr/bin/tool");
    assert_eq!(strip_parent("usr/bin"), "usr/bin");
}

#[test]
fn prepend_path_marks_relative() {
    assert_eq!(prepend_path("usr/bin"), "./usr/bin");
    assert_eq!(prepend_path(""), "./");
}

#[test]
fn split_and_join_are_inverse_on_paths() {
    let parts = split_on("a/b//c", '/');
    assert_eq!(parts, vec!["a".to_string(), "b".to_string(), "".to_string(), "c".to_string()]);
    assert_eq!(join_with(&parts, '/'), "a/b//c");
    assert_eq!(split_on("", '/'), vec!["".to_string()]);
}

#[test]
fn substring_search_finds_scheme_separator() {
    assert!(contains_substr("https://example.org", "://"));
    assert!(!contains_substr("example.org/x", "://"));
    assert!(contains_substr("abc", ""));
}

#[test]
fn prefix_check_sees_git_prefix() {
    assert!(starts_with_str("git+https://h/r.git", "git+"));
    assert!(!starts_with_str("https://h/r.git", "git+"));
    assert!(!starts_with_str("gi", "git+"));
}

#[test]
fn rfind_returns_last_position() {
    assert_eq!(rfind_char("a/b/c", '/'), Some(3));
    assert_eq!(rfind_char("abc", '/'), None);
}

#[test]
fn str_eq_is_exact() {
    assert!(str_eq("pkg", "pkg"));
    assert!(!str_eq("pkg", "pk"));
    assert!(!str_eq("pkg", "pkG"));
}

#[test]
fn decimal_rendering_is_exact() {
    assert_eq!(u64_to_string(0), "0");
    assert_eq!(u64_to_string(7), "7");
    assert_eq!(u64_to_string(1234567890), "1234567890");
    assert_eq!(u64_to_string(u64::MAX), "18446744073709551615");
}

#[test]
fn toml_names_are_checked() {
    assert!(assert_toml("PKG.toml", false).is_ok());
    assert!(assert_toml("dir/PKG.tml", false).is_ok());
    assert_eq!(
        assert_toml("PKG.toml", true),
        Err(BuildError::NonToml("PKG.toml".to_string()))
    );
    assert_eq!(
        assert_toml("notes.txt", false),
        Err(BuildError::NonToml("notes.txt".to_string()))
    );
    assert_eq!(
        assert_toml("no_extension", false),
        Err(BuildError::NonToml("no_extension".to_string()))
    );
    assert_eq!(
        assert_toml(".toml", false),
        Err(BuildError::NonToml(".toml".to_string()))
    );
}

#[test]
fn error_descriptions_and_messages() {
    let e = BuildError::HashMismatch("foo.tar.gz".to_string(), "adbeef".to_string());
    assert_eq!(e.description(), "hash mismatch");
    assert_eq!(e.message(), "hash mismatch: 'foo.tar.gz' : 'adbeef'");
    assert_eq!(e.dup(), e);

    let io = BuildError::Io("broken pipe".to_string());
    assert_eq!(io.description(), "i/o error");
    assert_eq!(io.message(), "i/o error, broken pipe");

    let http = BuildError::HttpNoFile(404, "https://example.org/a".to_string());
    assert_eq!(http.description(), "http file error");
    assert_eq!(http.message(), "HTTP: 404 from 'https://example.org/a'");

    let missing = BuildError::NoHash("foo".to_string());
    assert_eq!(missing.description(), "missing digest");
    assert_eq!(missing.message(), "missing digest for 'foo'");

    let nontoml = BuildError::NonToml("a.txt".to_string());
    assert_eq!(nontoml.message(), "'a.txt' is not a toml file");

    let nodesc = BuildError::NoDesc("package".to_string());
    assert_eq!(nodesc.message(), "no 'package' section found in PKG.toml");
}
