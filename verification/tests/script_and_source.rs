use mpm::desc::CleanDesc;
use mpm::script::{clean_command, join_script};
use mpm::source::{classify_source, is_web_get, url_file_name, SourceKind};

#[test]
fn script_lines_join_into_one_invocation() {
    let lines = vec!["export X=1".to_string(), "echo $X".to_string()];
    let joined = join_script(&lines);
    assert_eq!(joined, "export X=1; echo $X;");
}

#[test]
fn single_line_script_keeps_terminator() {
    assert_eq!(join_script(&vec!["make".to_string()]), "make;");
    assert_eq!(join_script(&Vec::new()), "");
}

#[test]
fn clean_command_follows_declared_script() {
    let c = CleanDesc { script: Some(vec!["rm -rf pkg".to_string(), "rm -rf src".to_string()]) };
    assert_eq!(clean_command(&c), Some("rm -rf pkg; rm -rf src;".to_string()));
    assert_eq!(clean_command(&CleanDesc::new()), None);
}

#[test]
fn git_sources_lose_their_prefix() {
    match classify_source("git+https://example.org/repo.git") {
        SourceKind::Git(url) => assert_eq!(url, "https://example.org/repo.git"),
        other => panic!("expected a git source, got {:?}", other),
    }
}

#[test]
fn remote_sources_keep_url_and_take_final_segment() {
    match classify_source("https://example.org/dl/foo.tar.gz") {
        SourceKind::Remote(url, file) => {
            assert_eq!(url, "https://example.org/dl/foo.tar.gz");
            assert_eq!(file, "foo.tar.gz");
        },
        other => panic!("expected a remote source, got {:?}", other),
    }
}

#[test]
fn bare_names_are_local_sources() {
    match classify_source("prestaged.tar.gz") {
        SourceKind::Local(name) => assert_eq!(name, "prestaged.tar.gz"),
        other => panic!("expected a local source, got {:?}", other),
    }
}

#[test]
fn url_file_name_is_final_segment() {
    assert_eq!(url_file_name("https://h/a/b/c.tar"), "c.tar");
    assert_eq!(url_file_name("nofslash"), "nofslash");
    assert_eq!(url_file_name("trailing/"), "");
}

#[test]
fn scheme_separator_marks_remote_files() {
    assert!(is_web_get("https://example.org/a"));
    assert!(is_web_get("ftp://example.org/a"));
    assert!(!is_web_get("plain-file.tar.gz"));
}
