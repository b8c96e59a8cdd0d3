use mpm::desc::{Arch, PackageBuild, PackageDesc, PkgInfo};
use mpm::desc::archive_file_name;

fn named_desc() -> PackageDesc {
    let mut d = PackageDesc::new();
    d.name = Some("foo".to_string());
    d
}

#[test]
fn test_new_pkgbuild() {
    let pkg_build = PackageBuild::new();
    assert_eq!(pkg_build.package, None);
    assert_eq!(pkg_build.clean, None);
}

#[test]
fn test_new_empty_pkgdesc() {
    let build_file = PackageDesc::new();
    assert_eq!(build_file.name, None);
    assert_eq!(build_file.vers, None);
    assert_eq!(build_file.build, None);
}

#[test]
fn pkgbuild_sections_come_back() {
    let pb = PackageBuild { package: Some(named_desc()), clean: None };
    assert_eq!(pb.clone().package(), Some(named_desc()));
    assert_eq!(pb.clean(), None);
}

#[test]
fn archive_name_with_version_and_release() {
    let mut d = named_desc();
    d.vers = Some("1.0".to_string());
    d.rel = Some("1".to_string());
    d.arch = Some(vec![Arch::x86_64]);
    assert_eq!(archive_file_name(&d, Arch::any), "foo-1.0-1-x86_64.pkg.tar");
}

#[test]
fn archive_name_without_version_or_release() {
    let mut d = named_desc();
    d.arch = Some(vec![Arch::x86_64]);
    assert_eq!(archive_file_name(&d, Arch::any), "foo-x86_64.pkg.tar");
}

#[test]
fn archive_name_needs_both_version_and_release() {
    let mut d = named_desc();
    d.vers = Some("1.0".to_string());
    d.arch = Some(vec![Arch::x86_64]);
    assert_eq!(archive_file_name(&d, Arch::any), "foo-x86_64.pkg.tar");
}

#[test]
fn archive_name_falls_back_to_host_arch() {
    let d = named_desc();
    assert_eq!(archive_file_name(&d, Arch::aarch64), "foo-aarch64.pkg.tar");
    let mut e = named_desc();
    e.arch = Some(Vec::new());
    assert_eq!(archive_file_name(&e, Arch::i686), "foo-i686.pkg.tar");
}

#[test]
fn archive_name_without_name_uses_sentinel() {
    let d = PackageDesc::new();
    assert_eq!(archive_file_name(&d, Arch::x86_64), "Unknown-x86_64.pkg.tar");
}

#[test]
fn pkginfo_snapshots_descriptor_fields() {
    let mut d = named_desc();
    d.vers = Some("2.3".to_string());
    d.desc = Some("a tool".to_string());
    d.deps = Some(vec!["libc".to_string()]);
    d.arch = Some(vec![Arch::arm]);
    let info = PkgInfo::new(&d, 42, Arch::any);
    assert_eq!(info.name, "foo");
    assert_eq!(info.vers, "2.3");
    assert_eq!(info.desc, "a tool");
    assert_eq!(info.size, 42);
    assert_eq!(info.arch, vec![Arch::arm]);
    assert_eq!(info.deps, vec!["libc".to_string()]);
    assert_eq!(info.builddate, "Unknown");
    assert_eq!(info.url, "Unknown");
    assert_eq!(info.license, "Unknown");
    assert_eq!(info.provides, "Unknown");
    assert_eq!(info.conflicts, Vec::<String>::new());
    assert_eq!(info.maintainers, Vec::<String>::new());
}

#[test]
fn pkginfo_empty_descriptor_uses_sentinels() {
    let info = PkgInfo::new(&PackageDesc::new(), 0, Arch::powerpc);
    assert_eq!(info.name, "Unknown");
    assert_eq!(info.desc, "");
    assert_eq!(info.arch, vec![Arch::powerpc]);
}

#[test]
fn pkginfo_update_size_changes_only_size() {
    let mut info = PkgInfo::new(&named_desc(), 1, Arch::any);
    info.update_size(99);
    assert_eq!(info.size, 99);
    assert_eq!(info.name, "foo");
}

#[test]
fn set_builddate_stamps_descriptor() {
    let mut d = named_desc();
    d.set_builddate("01022003040506".to_string());
    assert_eq!(d.builddate, Some("01022003040506".to_string()));
    assert_eq!(d.name, Some("foo".to_string()));
}

#[test]
fn arch_names_render() {
    assert_eq!(Arch::x86_64.as_str(), "x86_64");
    assert_eq!(Arch::i686.as_str(), "i686");
    assert_eq!(Arch::arm.as_str(), "arm");
    assert_eq!(Arch::aarch64.as_str(), "aarch64");
    assert_eq!(Arch::powerpc.as_str(), "powerpc");
    assert_eq!(Arch::any.as_str(), "any");
}
