use std::io::Write;

use mpm::archive::{build_archive, gunzip, unpack_source_archive, untar};
use mpm::desc::{Arch, PkgInfo, PackageDesc};
use mpm::digest::sha_256;
use mpm::manifest::{pkg_size, Manifest, TreeNode};
use mpm::render::{render_manifest, render_pkginfo};

fn sample_tree() -> Vec<TreeNode> {
    vec![
        TreeNode { path: "pkg".to_string(), mode: 0o755, data: None },
        TreeNode { path: "pkg/usr".to_string(), mode: 0o755, data: None },
        TreeNode {
            path: "pkg/usr/hello".to_string(),
            mode: 0o644,
            data: Some(b"hello world\n".to_vec()),
        },
    ]
}

#[test]
fn manifest_excludes_root_and_records_files_exactly() {
    let m = Manifest::from_nodes(&sample_tree(), "01022003040506");
    assert_eq!(m.entries.len(), 2);

    let dir = &m.entries[0];
    assert_eq!(dir.path, "./usr");
    assert_eq!(dir.time, "01022003040506");
    assert_eq!(dir.size, 0);
    assert_eq!(dir.checksum, "");
    assert_eq!(dir.mode, 0o755);

    let file = &m.entries[1];
    assert_eq!(file.path, "./usr/hello");
    assert_eq!(file.size, b"hello world\n".len() as u64);
    assert_eq!(file.checksum, sha_256(b"hello world\n"));
    assert_eq!(file.mode, 0o644);
    assert_eq!(file.time, "01022003040506");
}

#[test]
fn package_size_sums_files_only_excluding_root() {
    assert_eq!(pkg_size(&sample_tree()), Some(12));
    let mut t = sample_tree();
    t.push(TreeNode {
        path: "pkg/usr/second".to_string(),
        mode: 0o644,
        data: Some(vec![0u8; 100]),
    });
    assert_eq!(pkg_size(&t), Some(112));
    assert_eq!(pkg_size(&Vec::new()), Some(0));
}

#[test]
fn manifest_text_is_exact() {
    let m = Manifest::from_nodes(
        &vec![
            TreeNode { path: "pkg".to_string(), mode: 0o755, data: None },
            TreeNode { path: "pkg/a".to_string(), mode: 0o600, data: Some(b"xy".to_vec()) },
        ],
        "T1",
    );
    let expected = format!(
        "[[entries]]\npath = \"./a\"\ntime = \"T1\"\nsize = 2\nchecksum = \"{}\"\nmode = 384\n",
        sha_256(b"xy")
    );
    assert_eq!(render_manifest(&m), expected);
}

#[test]
fn pkginfo_text_is_exact() {
    let mut d = PackageDesc::new();
    d.name = Some("foo".to_string());
    d.vers = Some("1.0".to_string());
    d.arch = Some(vec![Arch::x86_64, Arch::arm]);
    d.deps = Some(vec!["libc".to_string(), "zlib".to_string()]);
    let info = PkgInfo::new(&d, 12, Arch::any);
    let expected = "name = \"foo\"\n\
vers = \"1.0\"\n\
desc = \"\"\n\
builddate = \"Unknown\"\n\
url = \"Unknown\"\n\
size = 12\n\
arch = [\"x86_64\", \"arm\"]\n\
license = \"Unknown\"\n\
conflicts = []\n\
provides = \"Unknown\"\n\
deps = [\"libc\", \"zlib\"]\n\
maintainers = []\n";
    assert_eq!(render_pkginfo(&info), expected);
}

#[test]
fn archive_round_trip_reproduces_relative_paths_and_bytes() {
    let bytes = build_archive(&sample_tree()).expect("packing an in-memory tree");
    let back = untar(&bytes).expect("reading the stream back");

    let expected: Vec<(String, Option<Vec<u8>>)> = vec![
        ("usr".to_string(), None),
        ("usr/hello".to_string(), Some(b"hello world\n".to_vec())),
    ];
    let got: Vec<(String, Option<Vec<u8>>)> = back
        .iter()
        .map(|n| (n.path.clone(), n.data.clone()))
        .collect();
    assert_eq!(got, expected);
    assert_eq!(back[0].mode, 0o755);
    assert_eq!(back[1].mode, 0o644);
}

#[test]
fn unpack_reads_plain_tar_and_gzipped_tar_alike() {
    let tar_bytes = build_archive(&sample_tree()).unwrap();

    let plain = unpack_source_archive(&tar_bytes).expect("plain tar unpacks");
    assert_eq!(plain.len(), 2);
    assert_eq!(plain[1].data, Some(b"hello world\n".to_vec()));

    let mut enc = flate2::write::GzEncoder::new(Vec::new(), flate2::Compression::default());
    enc.write_all(&tar_bytes).unwrap();
    let gz_bytes = enc.finish().unwrap();
    assert_eq!(gunzip(&gz_bytes), Ok(tar_bytes));

    let unpacked = unpack_source_archive(&gz_bytes).expect("gzipped tar unpacks");
    assert_eq!(unpacked.len(), 2);
    assert_eq!(unpacked[1].data, Some(b"hello world\n".to_vec()));

    assert!(gunzip(b"not gzip at all").is_err());
    assert!(unpack_source_archive(b"neither gzip nor tar data").is_err());
}

#[test]
fn quoted_values_are_escaped() {
    let mut d = PackageDesc::new();
    d.name = Some("we\"ird\npkg\\name\ttab".to_string());
    let info = PkgInfo::new(&d, 0, Arch::any);
    let text = render_pkginfo(&info);
    assert!(text.starts_with("name = \"we\\\"ird\\npkg\\\\name\\ttab\"\n"));

    let m = Manifest::from_nodes(
        &vec![TreeNode { path: "pkg/odd\"name".to_string(), mode: 0o644, data: Some(b"x".to_vec()) }],
        "T\r1",
    );
    let rendered = render_manifest(&m);
    assert!(rendered.contains("path = \"./odd\\\"name\"\n"));
    assert!(rendered.contains("time = \"T\\r1\"\n"));
}

#[test]
fn unpackable_paths_abort_packing() {
    let nodes = vec![
        TreeNode { path: "pkg".to_string(), mode: 0o755, data: None },
        TreeNode { path: "pkg/../escape".to_string(), mode: 0o644, data: Some(b"x".to_vec()) },
    ];
    match build_archive(&nodes) {
        Err(mpm::error::BuildError::Io(_)) => {},
        other => panic!("expected the path to be rejected, got {:?}", other),
    }
}
