use mpm::archive::build_archive;
use mpm::desc::{Arch, PackageDesc};
use mpm::digest::sha_256;
use mpm::error::BuildError;
use mpm::manifest::TreeNode;
use mpm::pipeline::{Action, BuildContext, Event, Pipeline};

fn ctx() -> BuildContext {
    BuildContext::new("pkg".to_string(), "src".to_string())
}

fn tree() -> Vec<TreeNode> {
    vec![
        TreeNode { path: "pkg".to_string(), mode: 0o755, data: None },
        TreeNode { path: "pkg/hello".to_string(), mode: 0o644, data: Some(b"hi\n".to_vec()) },
    ]
}

/// Drives a fresh pipeline up to the dispatch of its first source entry.
fn start(desc: PackageDesc) -> (Pipeline, Action) {
    let p = Pipeline::new(desc, ctx(), Arch::x86_64);
    match p.first_action() {
        Action::SetEnv(vars) => {
            assert_eq!(vars[0], ("pkg_dir".to_string(), "pkg".to_string()));
            assert_eq!(vars[1], ("src_dir".to_string(), "src".to_string()));
        },
        other => panic!("expected the environment export first, got {:?}", other),
    }
    let (p, a) = p.step(Event::Completed);
    match &a {
        Action::CreateDir(d) => assert_eq!(d, "pkg"),
        other => panic!("expected the package directory creation, got {:?}", other),
    }
    p.step(Event::Completed)
}

#[test]
fn scenario_clone_then_fetch() {
    let mut d = PackageDesc::new();
    d.name = Some("repo-pkg".to_string());
    d.source = Some(vec!["git+https://example.org/repo.git".to_string()]);

    // First run: no repository at the source path yet, so the source is cloned.
    let (p, a) = start(d.clone());
    match &a {
        Action::CheckRepo(path) => assert_eq!(path, "src"),
        other => panic!("expected the repository check, got {:?}", other),
    }
    let (p, a) = p.step(Event::RepoExists(false));
    match &a {
        Action::CloneRepo(url) => assert_eq!(url, "https://example.org/repo.git"),
        other => panic!("expected a clone, got {:?}", other),
    }
    // The clone leaves a valid repository; the run goes on past the sources.
    let (_p, a) = p.step(Event::Completed);
    assert!(matches!(a, Action::GetStamp), "no scripts declared, so the stamp comes next");

    // Second run in the same directory: the repository exists, so it is
    // fetched incrementally instead of cloned afresh.
    let (p, a) = start(d);
    assert!(matches!(a, Action::CheckRepo(_)));
    let (_p, a) = p.step(Event::RepoExists(true));
    match &a {
        Action::FetchRepo(path) => assert_eq!(path, "src"),
        other => panic!("expected an incremental fetch, got {:?}", other),
    }
}

#[test]
fn scenario_download_verify_extract_and_reject_corruption() {
    let artifact = build_archive(&tree()).unwrap();
    let mut d = PackageDesc::new();
    d.name = Some("foo".to_string());
    d.source = Some(vec!["https://example.org/foo.tar.gz".to_string()]);
    d.sha256 = Some(vec![sha_256(&artifact)]);

    // A good download passes verification and is handed over for extraction.
    let (p, a) = start(d.clone());
    match &a {
        Action::Download(url) => assert_eq!(url, "https://example.org/foo.tar.gz"),
        other => panic!("expected the download, got {:?}", other),
    }
    let (p, a) = p.step(Event::Response(200, artifact.clone()));
    match &a {
        Action::WriteTree(dir, nodes) => {
            assert_eq!(dir, "src");
            assert_eq!(nodes.len(), 1);
            assert_eq!(nodes[0].data, Some(b"hi\n".to_vec()));
        },
        other => panic!("expected the unpacked tree, got {:?}", other),
    }
    let (_p, a) = p.step(Event::Completed);
    assert!(matches!(a, Action::GetStamp));

    // A corrupted copy of the same artifact fails with the digest mismatch
    // before any extraction is asked for.
    let mut corrupted = artifact.clone();
    corrupted[0] ^= 0xff;
    let (p, _a) = start(d);
    let (_p, a) = p.step(Event::Response(200, corrupted.clone()));
    match a {
        Action::Abort(BuildError::HashMismatch(file, computed)) => {
            assert_eq!(file, "foo.tar.gz");
            assert_eq!(computed, sha_256(&corrupted));
        },
        other => panic!("expected the digest mismatch, got {:?}", other),
    }
}

#[test]
fn missing_digest_fails_before_extraction() {
    let artifact = build_archive(&tree()).unwrap();
    let mut d = PackageDesc::new();
    d.source = Some(vec!["https://example.org/foo.tar.gz".to_string()]);
    d.sha256 = Some(Vec::new());

    let (p, _a) = start(d);
    let (_p, a) = p.step(Event::Response(200, artifact));
    match a {
        Action::Abort(BuildError::NoHash(file)) => assert_eq!(file, "foo.tar.gz"),
        other => panic!("expected the missing digest error, got {:?}", other),
    }
}

#[test]
fn non_success_status_carries_status_and_url() {
    let mut d = PackageDesc::new();
    d.source = Some(vec!["https://example.org/gone.tar".to_string()]);

    let (p, _a) = start(d);
    let (p, a) = p.step(Event::Response(404, Vec::new()));
    match a {
        Action::Abort(BuildError::HttpNoFile(status, url)) => {
            assert_eq!(status, 404);
            assert_eq!(url, "https://example.org/gone.tar");
        },
        other => panic!("expected the http error, got {:?}", other),
    }
    assert!(!p.accepts(&Event::Completed), "a failed pipeline consumes nothing");
}

#[test]
fn local_sources_are_verified_but_not_extracted() {
    let mut d = PackageDesc::new();
    d.sha256 = Some(vec![sha_256(b"prestaged")]);
    d.source = Some(vec!["local.bin".to_string()]);

    let (p, a) = start(d);
    match &a {
        Action::ReadFile(name) => assert_eq!(name, "local.bin"),
        other => panic!("expected the local read, got {:?}", other),
    }
    let (_p, a) = p.step(Event::FileData(b"prestaged".to_vec()));
    assert!(matches!(a, Action::GetStamp), "a passing local file ends the source phase");
}

#[test]
fn scripts_run_in_the_source_tree_as_one_invocation() {
    let mut d = PackageDesc::new();
    d.build = Some(vec!["export X=1".to_string(), "echo $X".to_string()]);
    d.package = Some(vec!["make install".to_string()]);

    let (p, a) = start(d);
    match &a {
        Action::RunScript(dir, cmd) => {
            assert_eq!(dir.as_deref(), Some("src"));
            assert_eq!(cmd, "export X=1; echo $X;");
        },
        other => panic!("expected the build script, got {:?}", other),
    }
    let (p, a) = p.step(Event::Completed);
    match &a {
        Action::RunScript(dir, cmd) => {
            assert_eq!(dir.as_deref(), Some("src"));
            assert_eq!(cmd, "make install;");
        },
        other => panic!("expected the package script, got {:?}", other),
    }
    let (_p, a) = p.step(Event::Completed);
    assert!(matches!(a, Action::GetStamp));
}

#[test]
fn full_run_writes_metadata_manifest_and_archive() {
    let mut d = PackageDesc::new();
    d.name = Some("foo".to_string());
    d.vers = Some("1.0".to_string());
    d.rel = Some("1".to_string());
    d.arch = Some(vec![Arch::x86_64]);

    let (p, a) = start(d);
    assert!(matches!(a, Action::GetStamp));
    let (p, a) = p.step(Event::StampData("01020304".to_string()));
    assert!(matches!(a, Action::RestoreDir));
    let (p, a) = p.step(Event::Completed);
    match &a {
        Action::ReadTree(dir) => assert_eq!(dir, "pkg"),
        other => panic!("expected the sizing walk, got {:?}", other),
    }
    let (p, a) = p.step(Event::TreeData(tree()));
    match &a {
        Action::WriteText(path, text) => {
            assert_eq!(path, "pkg/PKGINFO");
            assert!(text.contains("name = \"foo\"\n"));
            assert!(text.contains("builddate = \"01020304\"\n"));
            assert!(text.contains("size = 3\n"));
        },
        other => panic!("expected the metadata write, got {:?}", other),
    }
    let (p, a) = p.step(Event::Completed);
    assert!(matches!(a, Action::GetStamp));
    let (p, a) = p.step(Event::StampData("01020305".to_string()));
    assert!(matches!(a, Action::ReadTree(_)));
    let (p, a) = p.step(Event::TreeData(tree()));
    match &a {
        Action::WriteText(path, text) => {
            assert_eq!(path, "pkg/MANIFEST");
            assert!(text.contains("path = \"./hello\"\n"));
            assert!(text.contains("time = \"01020305\"\n"));
            assert!(text.contains(&format!("checksum = \"{}\"\n", sha_256(b"hi\n"))));
        },
        other => panic!("expected the manifest write, got {:?}", other),
    }
    let (p, a) = p.step(Event::Completed);
    assert!(matches!(a, Action::ReadTree(_)));
    let (p, a) = p.step(Event::TreeData(tree()));
    match &a {
        Action::WriteBinary(name, bytes) => {
            assert_eq!(name, "foo-1.0-1-x86_64.pkg.tar");
            assert_eq!(*bytes, build_archive(&tree()).unwrap());
        },
        other => panic!("expected the archive write, got {:?}", other),
    }
    let (p, a) = p.step(Event::Completed);
    match a {
        Action::Finished(name) => assert_eq!(name, "foo-1.0-1-x86_64.pkg.tar"),
        other => panic!("expected the finished report, got {:?}", other),
    }
    assert!(!p.accepts(&Event::Completed));
}

#[test]
fn first_error_wins_in_any_stage() {
    let (p, _a) = start(PackageDesc::new());
    let (p, a) = p.step(Event::Failure(BuildError::Time("bad clock".to_string())));
    match a {
        Action::Abort(BuildError::Time(msg)) => assert_eq!(msg, "bad clock"),
        other => panic!("expected the abort, got {:?}", other),
    }
    assert!(!p.accepts(&Event::Completed));
    assert!(!p.accepts(&Event::Failure(BuildError::Time("again".to_string()))));
}

#[test]
fn sources_resolve_strictly_in_order() {
    let first = b"first file".to_vec();
    let second = b"second file".to_vec();
    let mut d = PackageDesc::new();
    d.source = Some(vec!["one.bin".to_string(), "two.bin".to_string()]);
    d.sha256 = Some(vec![sha_256(&first), sha_256(&second)]);

    let (p, a) = start(d);
    match &a {
        Action::ReadFile(name) => assert_eq!(name, "one.bin"),
        other => panic!("expected the first source, got {:?}", other),
    }
    let (p, a) = p.step(Event::FileData(first));
    match &a {
        Action::ReadFile(name) => assert_eq!(name, "two.bin"),
        other => panic!("expected the second source, got {:?}", other),
    }
    let (_p, a) = p.step(Event::FileData(second));
    assert!(matches!(a, Action::GetStamp));
}
