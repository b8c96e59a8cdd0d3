use vstd::prelude::*;

use crate::text::push_char;

verus! {

// ---------------------------------------------------------------------------
// Architectures
// ---------------------------------------------------------------------------

/// The machine architectures a package may declare.
#[allow(non_camel_case_types)]
#[derive(Debug, Clone, Copy, PartialEq, Eq, Structural, Hash)]
pub enum Arch {
    x86_64,
    i686,
    arm,
    aarch64,
    powerpc,
    any,
}

/// The textual name of an architecture.
pub open spec fn arch_name(a: Arch) -> Seq<char> {
    match a {
        Arch::x86_64 => "x86_64"@,
        Arch::i686 => "i686"@,
        Arch::arm => "arm"@,
        Arch::aarch64 => "aarch64"@,
        Arch::powerpc => "powerpc"@,
        Arch::any => "any"@,
    }
}

impl Arch {
    /// The textual name of the architecture.
    pub fn as_str(&self) -> (r: &'static str)
        ensures
            r@ == arch_name(*self),
    {
        match self {
            Arch::x86_64 => "x86_64",
            Arch::i686 => "i686",
            Arch::arm => "arm",
            Arch::aarch64 => "aarch64",
            Arch::powerpc => "powerpc",
            Arch::any => "any",
        }
    }
}

// ---------------------------------------------------------------------------
// Copy helpers
// ---------------------------------------------------------------------------

/// Copies a vector of strings.
pub fn clone_string_vec(v: &Vec<String>) -> (r: Vec<String>)
    ensures
        r@ == v@,
{
    let mut out: Vec<String> = Vec::new();
    let n = v.len();
    let mut i: usize = 0;
    while i < n
        invariant
            n == v.len(),
            i <= n,
            out@ == v@.take(i as int),
        decreases n - i,
    {
        out.push(v[i].clone());
        proof {
            assert(out@ =~= v@.take(i + 1));
        }
        i = i + 1;
    }
    proof {
        assert(v@.take(n as int) =~= v@);
    }
    out
}

/// Copies a vector of architectures.
pub fn clone_arch_vec(v: &Vec<Arch>) -> (r: Vec<Arch>)
    ensures
        r@ == v@,
{
    let mut out: Vec<Arch> = Vec::new();
    let n = v.len();
    let mut i: usize = 0;
    while i < n
        invariant
            n == v.len(),
            i <= n,
            out@ == v@.take(i as int),
        decreases n - i,
    {
        out.push(v[i]);
        proof {
            assert(out@ =~= v@.take(i + 1));
        }
        i = i + 1;
    }
    proof {
        assert(v@.take(n as int) =~= v@);
    }
    out
}

// ---------------------------------------------------------------------------
// The package descriptor
// ---------------------------------------------------------------------------

/// The declarative description of a package to be built. Loaded once per
/// build invocation from external configuration; mutated only to stamp the
/// build timestamp; read-only thereafter.
///
/// When a digest list is present, its entry at position `i` corresponds to
/// the source entry at position `i`; the sentinel value `SKIP` disables
/// verification for that entry.
#[derive(Debug, Clone, PartialEq)]
pub struct PackageDesc {
    pub name: Option<String>,
    pub vers: Option<String>,
    pub rel: Option<String>,
    pub build: Option<Vec<String>>,
    pub builddate: Option<String>,
    pub desc: Option<String>,
    pub package: Option<Vec<String>>,
    pub makedeps: Option<Vec<String>>,
    pub deps: Option<Vec<String>>,
    pub arch: Option<Vec<Arch>>,
    pub url: Option<String>,
    pub source: Option<Vec<String>>,
    pub sha256: Option<Vec<String>>,
    pub sha512: Option<Vec<String>>,
    pub license: Option<String>,
    pub provides: Option<String>,
    pub conflicts: Option<Vec<String>>,
    pub maintainers: Option<Vec<String>>,
}

/// The descriptor with every field absent.
pub open spec fn empty_desc() -> PackageDesc {
    (PackageDesc {
        name: None,
        vers: None,
        rel: None,
        build: None,
        builddate: None,
        desc: None,
        package: None,
        makedeps: None,
        deps: None,
        arch: None,
        url: None,
        source: None,
        sha256: None,
        sha512: None,
        license: None,
        provides: None,
        conflicts: None,
        maintainers: None,
    })
}

impl PackageDesc {
    /// A blank descriptor: every field absent.
    pub fn new() -> (r: PackageDesc)
        ensures
            r == empty_desc(),
    {
        PackageDesc {
            name: None,
            vers: None,
            rel: None,
            build: None,
            builddate: None,
            desc: None,
            package: None,
            makedeps: None,
            deps: None,
            arch: None,
            url: None,
            source: None,
            sha256: None,
            sha512: None,
            license: None,
            provides: None,
            conflicts: None,
            maintainers: None,
        }
    }

    /// Stamps the descriptor with the given build timestamp; every other
    /// field is left as it was.
    pub fn set_builddate(&mut self, stamp: String)
        ensures
            *final(self) == (PackageDesc { builddate: Some(stamp), ..*old(self) }),
    {
        self.builddate = Some(stamp);
    }
}

// ---------------------------------------------------------------------------
// The clean descriptor
// ---------------------------------------------------------------------------

/// An optional script list used to reset a dirty build environment; it is
/// invoked only by the clean operation.
#[derive(Debug, Clone, PartialEq)]
pub struct CleanDesc {
    pub script: Option<Vec<String>>,
}

impl CleanDesc {
    /// A blank clean descriptor: no script.
    pub fn new() -> (r: CleanDesc)
        ensures
            r.script is None,
    {
        CleanDesc { script: None }
    }
}

// ---------------------------------------------------------------------------
// A whole package build file
// ---------------------------------------------------------------------------

/// The two sections a package build file may declare.
#[derive(Debug, Clone, PartialEq)]
pub struct PackageBuild {
    pub package: Option<PackageDesc>,
    pub clean: Option<CleanDesc>,
}

impl PackageBuild {
    /// A blank build file: neither section present.
    pub fn new() -> (r: PackageBuild)
        ensures
            r.package is None,
            r.clean is None,
    {
        PackageBuild { package: None, clean: None }
    }

    /// The package section, if declared.
    pub fn package(self) -> (r: Option<PackageDesc>)
        ensures
            r == self.package,
    {
        self.package
    }

    /// The clean section, if declared.
    pub fn clean(self) -> (r: Option<CleanDesc>)
        ensures
            r == self.clean,
    {
        self.clean
    }
}

// ---------------------------------------------------------------------------
// The archive file name
// ---------------------------------------------------------------------------

/// The name of a field's value, or the sentinel for an absent one.
pub open spec fn name_or_unknown(v: Option<String>) -> Seq<char> {
    match v {
        Some(s) => s@,
        None => "Unknown"@,
    }
}

/// The architecture recorded for the package: the first declared one, or the
/// caller-supplied host architecture when the descriptor declares none.
pub open spec fn spec_chosen_arch(d: &PackageDesc, host: Arch) -> Arch {
    match d.arch {
        Some(list) => if list@.len() > 0 {
            list@[0]
        } else {
            host
        },
        None => host,
    }
}

/// The archive file name: `<name>[-<version>-<release>]-<architecture>.pkg.tar`.
/// The version/release segment appears only when both are present.
pub open spec fn spec_archive_file_name(d: &PackageDesc, host: Arch) -> Seq<char> {
    name_or_unknown(d.name) + (if d.vers is Some && d.rel is Some {
        "-"@ + d.vers->Some_0@ + "-"@ + d.rel->Some_0@
    } else {
        Seq::<char>::empty()
    }) + "-"@ + arch_name(spec_chosen_arch(d, host)) + ".pkg.tar"@
}

/// Builds the archive file name for the descriptor. The host architecture is
/// the fallback when the descriptor declares none.
pub fn archive_file_name(d: &PackageDesc, host: Arch) -> (r: String)
    ensures
        r@ == spec_archive_file_name(d, host),
{
    let mut out: String = match &d.name {
        Some(n) => n.clone(),
        None => String::from_str("Unknown"),
    };
    match (&d.vers, &d.rel) {
        (Some(vers), Some(rel)) => {
            push_char(&mut out, '-');
            out.append(vers.as_str());
            push_char(&mut out, '-');
            out.append(rel.as_str());
        },
        _ => {},
    }
    push_char(&mut out, '-');
    let chosen: Arch = match &d.arch {
        Some(list) => {
            if list.len() > 0 {
                list[0]
            } else {
                host
            }
        },
        None => host,
    };
    out.append(chosen.as_str());
    out.append(".pkg.tar");
    proof {
        reveal_strlit("-");
        assert("-"@ =~= seq!['-']);
        assert(out@ =~= spec_archive_file_name(d, host));
    }
    out
}

// ---------------------------------------------------------------------------
// The package metadata record
// ---------------------------------------------------------------------------

/// The immutable metadata snapshot written into the package tree before
/// archiving: descriptor identity fields, the computed total package size,
/// and the build timestamp.
#[derive(Debug, Clone, PartialEq)]
pub struct PkgInfo {
    pub name: String,
    pub vers: String,
    pub desc: String,
    pub builddate: String,
    pub url: String,
    pub size: u64,
    pub arch: Vec<Arch>,
    pub license: String,
    pub conflicts: Vec<String>,
    pub provides: String,
    pub deps: Vec<String>,
    pub maintainers: Vec<String>,
}

/// The value of an optional string field, or the `Unknown` sentinel.
fn string_or_unknown(v: &Option<String>) -> (r: String)
    ensures
        r@ == name_or_unknown(*v),
{
    match v {
        Some(s) => s.clone(),
        None => String::from_str("Unknown"),
    }
}

/// The list's contents, or an empty list when absent.
pub open spec fn list_or_empty(v: Option<Vec<String>>) -> Seq<String> {
    match v {
        Some(l) => l@,
        None => Seq::empty(),
    }
}

/// The declared strings of an optional list, or an empty list when absent.
fn strings_or_empty(v: &Option<Vec<String>>) -> (r: Vec<String>)
    ensures
        r@ == list_or_empty(*v),
{
    match v {
        Some(l) => clone_string_vec(l),
        None => Vec::new(),
    }
}

impl PkgInfo {
    /// Snapshots the descriptor's identity fields, the computed package size
    /// and the build timestamp. Absent optional strings fall back to the
    /// `Unknown` sentinel (the description to an empty string); absent lists
    /// fall back to empty lists; an absent architecture list falls back to
    /// the host architecture.
    pub fn new(build_file: &PackageDesc, size: u64, host: Arch) -> (r: PkgInfo)
        ensures
            r.name@ == name_or_unknown(build_file.name),
            r.vers@ == name_or_unknown(build_file.vers),
            (build_file.desc matches Some(d) ==> r.desc@ == d@),
            (build_file.desc is None ==> r.desc@ == Seq::<char>::empty()),
            r.builddate@ == name_or_unknown(build_file.builddate),
            r.url@ == name_or_unknown(build_file.url),
            r.size == size,
            (build_file.arch matches Some(a) ==> r.arch@ == a@),
            (build_file.arch is None ==> r.arch@ =~= seq![host]),
            r.license@ == name_or_unknown(build_file.license),
            r.conflicts@ == list_or_empty(build_file.conflicts),
            r.provides@ == name_or_unknown(build_file.provides),
            r.deps@ == list_or_empty(build_file.deps),
            r.maintainers@ == list_or_empty(build_file.maintainers),
    {
        PkgInfo {
            name: string_or_unknown(&build_file.name),
            vers: string_or_unknown(&build_file.vers),
            desc: match &build_file.desc {
                Some(d) => d.clone(),
                None => String::new(),
            },
            builddate: string_or_unknown(&build_file.builddate),
            url: string_or_unknown(&build_file.url),
            size: size,
            arch: match &build_file.arch {
                Some(a) => clone_arch_vec(a),
                None => {
                    let mut one: Vec<Arch> = Vec::new();
                    one.push(host);
                    one
                },
            },
            license: string_or_unknown(&build_file.license),
            conflicts: strings_or_empty(&build_file.conflicts),
            provides: string_or_unknown(&build_file.provides),
            deps: strings_or_empty(&build_file.deps),
            maintainers: strings_or_empty(&build_file.maintainers),
        }
    }

    /// Replaces the recorded total package size.
    pub fn update_size(&mut self, size: u64)
        ensures
            *final(self) == (PkgInfo { size: size, ..*old(self) }),
    {
        self.size = size;
    }
}

} // verus!
