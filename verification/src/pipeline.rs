use vstd::prelude::*;
use vstd::pervasive::unreached;

use crate::archive::{all_packable, storable_modes, archive_items, build_archive, gunzip_of, node_item,
    tar_bytes_of, untar_of, unpack_source_archive, ArchiveItem};
use crate::desc::{list_or_empty, name_or_unknown, spec_archive_file_name,
    archive_file_name, Arch, PackageDesc, PkgInfo};
use crate::digest::{sha256_hex_of, spec_computed_digest, spec_match_verdict, DigestVerdict};
use crate::error::BuildError;
use crate::manifest::{manifest_model, pkg_size, spec_pkg_size, Manifest, TreeNode};
use crate::render::{arch_names, entries_text, kv_list, kv_number, kv_quoted, pkginfo_text, render_manifest,
    render_pkginfo};
use crate::script::{join_script, joined_script};
use crate::source::{classify_source, spec_after_last_slash, spec_is_git, spec_is_remote,
    SourceKind};

verus! {

// ---------------------------------------------------------------------------
// The build context
// ---------------------------------------------------------------------------

/// The directories one build works in, threaded explicitly instead of
/// relying on process environment: where the package tree is assembled and
/// where the sources are staged.
#[derive(Debug, Clone, PartialEq)]
pub struct BuildContext {
    pub pkg_dir: String,
    pub src_dir: String,
}

impl BuildContext {
    /// A context over the two given directories.
    pub fn new(pkg_dir: String, src_dir: String) -> (r: BuildContext)
        ensures
            r.pkg_dir == pkg_dir,
            r.src_dir == src_dir,
    {
        BuildContext { pkg_dir, src_dir }
    }
}

// ---------------------------------------------------------------------------
// Actions and events
// ---------------------------------------------------------------------------

/// What the pipeline asks the surrounding program to do next. Every action
/// but the two terminal ones is answered with an `Event`.
#[derive(Debug)]
pub enum Action {
    /// Export these variables into the process environment for child scripts.
    SetEnv(Vec<(String, String)>),
    /// Create the directory if it is absent.
    CreateDir(String),
    /// Report whether a valid repository sits at the path.
    CheckRepo(String),
    /// Clone the URL into the source tree.
    CloneRepo(String),
    /// Incrementally fetch the default remote of the repository at the path.
    FetchRepo(String),
    /// Download the URL; answer with the response status and body, and write
    /// the body to a local file named by the URL's final path segment.
    Download(String),
    /// Read the named local file; answer with its bytes.
    ReadFile(String),
    /// Write these nodes under the given directory.
    WriteTree(String, Vec<TreeNode>),
    /// Run the command as one shell invocation, in the given directory.
    RunScript(Option<String>, String),
    /// Answer with the current UTC timestamp, formatted for the metadata.
    GetStamp,
    /// Return to the directory the build was invoked from.
    RestoreDir,
    /// Walk the directory; answer with its nodes in walk order, the root
    /// included.
    ReadTree(String),
    /// Write the text to the file at the path.
    WriteText(String, String),
    /// Write the bytes to the file at the path.
    WriteBinary(String, Vec<u8>),
    /// Terminal: the archive with this name was written.
    Finished(String),
    /// Terminal: the build failed with this error.
    Abort(BuildError),
}

/// What the surrounding program reports back for the pipeline's last action.
#[derive(Debug)]
pub enum Event {
    /// The action completed.
    Completed,
    /// Whether a valid repository sits at the checked path.
    RepoExists(bool),
    /// The HTTP status and body of the download.
    Response(u32, Vec<u8>),
    /// The bytes of the read file.
    FileData(Vec<u8>),
    /// The nodes of the walked directory.
    TreeData(Vec<TreeNode>),
    /// The requested timestamp.
    StampData(String),
    /// The action failed with this error.
    Failure(BuildError),
}

// ---------------------------------------------------------------------------
// Stages
// ---------------------------------------------------------------------------

/// Where the pipeline stands: each stage awaits the outcome of the action it
/// asked for. Stages are strictly sequential; the first error in any stage
/// moves directly to `Failed`.
#[derive(Debug)]
pub enum Stage {
    /// Awaiting the environment export.
    Env,
    /// Awaiting creation of the package directory.
    Dirs,
    /// Awaiting the repository check for the source at this index (a
    /// version-controlled source, with its URL).
    RepoCheck(usize, String),
    /// Awaiting completion of the clone or fetch for this source index.
    Vcs(usize),
    /// Awaiting the download of this source index: its URL and the local
    /// file name it resolves to.
    Http(usize, String, String),
    /// Awaiting the bytes of this pre-staged local source: its file name.
    LocalRead(usize, String),
    /// Awaiting the write of the unpacked source tree for this index.
    SourceWrite(usize),
    /// Awaiting completion of the build script.
    BuildRun,
    /// Awaiting completion of the package script.
    PackageRun,
    /// Awaiting the build timestamp.
    DateStamp,
    /// Awaiting the return to the invocation directory.
    Restore,
    /// Awaiting the package tree walk that sizes the package.
    SizeTree,
    /// Awaiting the write of the metadata record.
    InfoWrite,
    /// Awaiting the manifest-generation timestamp.
    ManifestStamp,
    /// Awaiting the package tree walk for the manifest, holding that
    /// timestamp.
    ManifestTree(String),
    /// Awaiting the write of the manifest.
    ManifestWrite,
    /// Awaiting the package tree walk for the archive.
    ArchiveTree,
    /// Awaiting the write of the archive with this file name.
    ArchiveWrite(String),
    /// Terminal: the archive with this name was written.
    Done(String),
    /// Terminal: the build failed.
    Failed(BuildError),
}

// ---------------------------------------------------------------------------
// The pipeline
// ---------------------------------------------------------------------------

/// One build in progress: the descriptor, the directories it works in, the
/// host architecture fallback, and the stage it stands in.
pub struct Pipeline {
    pub desc: PackageDesc,
    pub ctx: BuildContext,
    pub host: Arch,
    pub stage: Stage,
}

/// Every source-phase stage points at a declared source entry.
pub open spec fn wf(p: &Pipeline) -> bool {
    match p.stage {
        Stage::RepoCheck(i, _) => in_sources(&p.desc, i as int),
        Stage::Vcs(i) => in_sources(&p.desc, i as int),
        Stage::Http(i, _, _) => in_sources(&p.desc, i as int),
        Stage::LocalRead(i, _) => in_sources(&p.desc, i as int),
        Stage::SourceWrite(i) => in_sources(&p.desc, i as int),
        _ => true,
    }
}

/// True when the descriptor declares a source entry at this index.
pub open spec fn in_sources(d: &PackageDesc, i: int) -> bool {
    d.source matches Some(s) && i < s@.len()
}

/// Which events a stage can consume: the one kind answering its pending
/// action, or a failure report. Terminal stages consume nothing.
pub open spec fn expects(stage: &Stage, ev: &Event) -> bool {
    match stage {
        Stage::Done(_) => false,
        Stage::Failed(_) => false,
        _ => match ev {
            Event::Failure(_) => true,
            Event::Completed => match stage {
                Stage::Env | Stage::Dirs | Stage::Vcs(_) | Stage::SourceWrite(_)
                    | Stage::BuildRun | Stage::PackageRun | Stage::Restore
                    | Stage::InfoWrite | Stage::ManifestWrite | Stage::ArchiveWrite(_) => true,
                _ => false,
            },
            Event::RepoExists(_) => stage is RepoCheck,
            Event::Response(_, _) => stage is Http,
            Event::FileData(_) => stage is LocalRead,
            Event::TreeData(_) => stage is SizeTree || stage is ManifestTree
                || stage is ArchiveTree,
            Event::StampData(_) => stage is DateStamp || stage is ManifestStamp,
        },
    }
}

// ---------------------------------------------------------------------------
// Specification of the transitions
// ---------------------------------------------------------------------------

/// The descriptor, directories and host fallback never change across a step
/// (the one exception: stamping the build date).
pub open spec fn same_config(desc: PackageDesc, ctx: BuildContext, host: Arch, post: &Pipeline)
    -> bool {
    post.desc == desc && post.ctx == ctx && post.host == host
}

/// The failed outcome: the stage records exactly the error, and the program
/// is asked to abort with it.
pub open spec fn failed_post(
    desc: PackageDesc,
    ctx: BuildContext,
    host: Arch,
    post: &Pipeline,
    a: &Action,
    e: BuildError,
) -> bool {
    &&& same_config(desc, ctx, host, post)
    &&& (post.stage matches Stage::Failed(e1) && e1 == e)
    &&& (a matches Action::Abort(e2) && e2 == e)
}

/// The environment variables exported for child scripts: the package and
/// source directories, and the version and release when declared.
pub open spec fn spec_env_vars(d: &PackageDesc, c: &BuildContext) -> Seq<(Seq<char>, Seq<char>)> {
    seq![("pkg_dir"@, c.pkg_dir@), ("src_dir"@, c.src_dir@)] + (match d.vers {
        Some(v) => seq![("pkg_vers"@, v@)],
        None => Seq::empty(),
    }) + (match d.rel {
        Some(r) => seq![("pkg_rel"@, r@)],
        None => Seq::empty(),
    })
}

/// Entering the build stage: the build script runs in the source tree as one
/// shell invocation; with no build script the package stage follows at once.
pub open spec fn build_entry_post(
    desc: PackageDesc,
    ctx: BuildContext,
    host: Arch,
    post: &Pipeline,
    a: &Action,
) -> bool {
    match desc.build {
        Some(lines) => {
            &&& same_config(desc, ctx, host, post)
            &&& post.stage is BuildRun
            &&& (a matches Action::RunScript(d, c) && (d matches Some(sd) && sd@ == ctx.src_dir@)
                && c@ == joined_script(lines.deep_view()))
        },
        None => package_entry_post(desc, ctx, host, post, a),
    }
}

/// Entering the package stage: the package script starts in the source tree,
/// where the build stage left the working directory; with no package script
/// the date stamp follows at once.
pub open spec fn package_entry_post(
    desc: PackageDesc,
    ctx: BuildContext,
    host: Arch,
    post: &Pipeline,
    a: &Action,
) -> bool {
    match desc.package {
        Some(lines) => {
            &&& same_config(desc, ctx, host, post)
            &&& post.stage is PackageRun
            &&& (a matches Action::RunScript(d, c) && (d matches Some(sd) && sd@ == ctx.src_dir@)
                && c@ == joined_script(lines.deep_view()))
        },
        None => {
            &&& same_config(desc, ctx, host, post)
            &&& post.stage is DateStamp
            &&& a is GetStamp
        },
    }
}

/// Dispatching the source entry at index `i`: a `git+` source asks for the
/// repository check; a remote source asks for the download; anything else
/// asks for the local file's bytes. Past the last entry the build stage
/// follows. Resolution is strictly sequential: entry `i` completes or fails
/// before entry `i + 1` begins.
pub open spec fn dispatch_post(
    desc: PackageDesc,
    ctx: BuildContext,
    host: Arch,
    i: int,
    post: &Pipeline,
    a: &Action,
) -> bool {
    if in_sources(&desc, i) {
        let s = desc.source->Some_0@[i]@;
        &&& same_config(desc, ctx, host, post)
        &&& if spec_is_git(s) {
            &&& (post.stage matches Stage::RepoCheck(j, u) && j == i && u@ == s.skip(4))
            &&& (a matches Action::CheckRepo(d) && d@ == ctx.src_dir@)
        } else if spec_is_remote(s) {
            &&& (post.stage matches Stage::Http(j, u, f) && j == i && u@ == s
                && f@ == spec_after_last_slash(s))
            &&& (a matches Action::Download(u2) && u2@ == s)
        } else {
            &&& (post.stage matches Stage::LocalRead(j, nm) && j == i && nm@ == s)
            &&& (a matches Action::ReadFile(n2) && n2@ == s)
        }
    } else {
        build_entry_post(desc, ctx, host, post, a)
    }
}

/// What unpacking a downloaded artifact yields: the gzip path when the bytes
/// are a gzip stream, else the plain tar path.
pub open spec fn spec_unpack(bytes: Seq<u8>) -> Option<Seq<ArchiveItem>> {
    match gunzip_of(bytes) {
        Some(d) => untar_of(d),
        None => untar_of(bytes),
    }
}

/// Consuming a download response: a non-success status is terminal, carrying
/// the status and URL; then the digest gate runs, and only a passing file is
/// unpacked and handed over to be written into the source tree.
pub open spec fn http_post(
    desc: PackageDesc,
    ctx: BuildContext,
    host: Arch,
    i: usize,
    url: String,
    fname: String,
    status: u32,
    body: Vec<u8>,
    post: &Pipeline,
    a: &Action,
) -> bool {
    if status != 200 {
        failed_post(desc, ctx, host, post, a, BuildError::HttpNoFile(status, url))
    } else {
        match spec_match_verdict(&desc, i as int, body@) {
            DigestVerdict::Missing => {
                &&& same_config(desc, ctx, host, post)
                &&& (post.stage matches Stage::Failed(e)
                    && (e matches BuildError::NoHash(f) && f@ == fname@)
                    && (a matches Action::Abort(e2) && e2 == e))
            },
            DigestVerdict::Mismatch => {
                &&& same_config(desc, ctx, host, post)
                &&& (post.stage matches Stage::Failed(e)
                    && (e matches BuildError::HashMismatch(f, h) && f@ == fname@
                        && h@ == spec_computed_digest(&desc, body@))
                    && (a matches Action::Abort(e2) && e2 == e))
            },
            DigestVerdict::Pass => match spec_unpack(body@) {
                Some(items) => {
                    &&& same_config(desc, ctx, host, post)
                    &&& (post.stage matches Stage::SourceWrite(j) && j == i)
                    &&& (a matches Action::WriteTree(d, ns) && d@ == ctx.src_dir@
                        && ns@.map_values(|n: TreeNode| node_item(n)) == items)
                },
                None => {
                    &&& same_config(desc, ctx, host, post)
                    &&& (post.stage matches Stage::Failed(e) && e is Io
                        && (a matches Action::Abort(e2) && e2 == e))
                },
            },
        }
    }
}

/// Consuming a local file's bytes: the digest gate runs, and a passing file
/// lets the next source entry begin. A local file is not unpacked.
pub open spec fn local_post(
    desc: PackageDesc,
    ctx: BuildContext,
    host: Arch,
    i: usize,
    fname: String,
    body: Vec<u8>,
    post: &Pipeline,
    a: &Action,
) -> bool {
    match spec_match_verdict(&desc, i as int, body@) {
        DigestVerdict::Missing => {
            &&& same_config(desc, ctx, host, post)
            &&& (post.stage matches Stage::Failed(e)
                && (e matches BuildError::NoHash(f) && f@ == fname@)
                && (a matches Action::Abort(e2) && e2 == e))
        },
        DigestVerdict::Mismatch => {
            &&& same_config(desc, ctx, host, post)
            &&& (post.stage matches Stage::Failed(e)
                && (e matches BuildError::HashMismatch(f, h) && f@ == fname@
                    && h@ == spec_computed_digest(&desc, body@))
                && (a matches Action::Abort(e2) && e2 == e))
        },
        DigestVerdict::Pass => dispatch_post(desc, ctx, host, i + 1, post, a),
    }
}

/// The size recorded for the package: the summed file sizes, or zero when
/// they do not fit in 64 bits.
pub open spec fn spec_size_or_zero(nodes: Seq<TreeNode>) -> u64 {
    if spec_pkg_size(nodes) <= u64::MAX {
        spec_pkg_size(nodes) as u64
    } else {
        0u64
    }
}

/// The strings of a list, viewed.
pub open spec fn deep_of(s: Seq<String>) -> Seq<Seq<char>> {
    s.map_values(|x: String| x@)
}

/// The text of the metadata record for a descriptor, a computed size and the
/// host fallback.
pub open spec fn spec_info_text(desc: &PackageDesc, size: u64, host: Arch) -> Seq<char> {
    kv_quoted("name = "@, name_or_unknown(desc.name)) + kv_quoted(
        "vers = "@,
        name_or_unknown(desc.vers),
    ) + kv_quoted(
        "desc = "@,
        match desc.desc {
            Some(d) => d@,
            None => Seq::empty(),
        },
    ) + kv_quoted("builddate = "@, name_or_unknown(desc.builddate)) + kv_quoted(
        "url = "@,
        name_or_unknown(desc.url),
    ) + kv_number("size = "@, size as int) + kv_list(
        "arch = "@,
        arch_names(
            match desc.arch {
                Some(a) => a@,
                None => seq![host],
            },
        ),
    ) + kv_quoted("license = "@, name_or_unknown(desc.license)) + kv_list(
        "conflicts = "@,
        deep_of(list_or_empty(desc.conflicts)),
    ) + kv_quoted("provides = "@, name_or_unknown(desc.provides)) + kv_list(
        "deps = "@,
        deep_of(list_or_empty(desc.deps)),
    ) + kv_list("maintainers = "@, deep_of(list_or_empty(desc.maintainers)))
}

/// Consuming the sizing walk: the metadata record is rendered from the
/// stamped descriptor, the computed size and the host fallback, and asked to
/// be written at the package tree's top level.
pub open spec fn info_post(
    desc: PackageDesc,
    ctx: BuildContext,
    host: Arch,
    nodes: Vec<TreeNode>,
    post: &Pipeline,
    a: &Action,
) -> bool {
    &&& same_config(desc, ctx, host, post)
    &&& post.stage is InfoWrite
    &&& (a matches Action::WriteText(p, text) && p@ == ctx.pkg_dir@ + "/PKGINFO"@
        && text@ == spec_info_text(&desc, spec_size_or_zero(nodes@), host))
}

/// Consuming the manifest walk: the manifest is rendered from the walked
/// nodes and the generation timestamp, and asked to be written at the
/// package tree's top level.
pub open spec fn manifest_post(
    desc: PackageDesc,
    ctx: BuildContext,
    host: Arch,
    stamp: String,
    nodes: Vec<TreeNode>,
    post: &Pipeline,
    a: &Action,
) -> bool {
    &&& same_config(desc, ctx, host, post)
    &&& post.stage is ManifestWrite
    &&& (a matches Action::WriteText(p, text) && p@ == ctx.pkg_dir@ + "/MANIFEST"@
        && text@ == entries_text(manifest_model(nodes@, stamp@)))
}

/// Consuming the archive walk: the tree is packed into a tar stream holding
/// every node but the root, and asked to be written under the computed
/// archive file name. Packing fails only when some stripped path is not
/// packable, and that failure is terminal. With packable paths and storable
/// modes, the written stream unpacks back to exactly the stripped non-root
/// entries.
pub open spec fn archive_post(
    desc: PackageDesc,
    ctx: BuildContext,
    host: Arch,
    nodes: Vec<TreeNode>,
    post: &Pipeline,
    a: &Action,
) -> bool {
    &&& same_config(desc, ctx, host, post)
    &&& {
        ||| (!all_packable(nodes@) && (post.stage matches Stage::Failed(e) && e is Io
            && (a matches Action::Abort(e2) && e2 == e)))
        ||| ((post.stage matches Stage::ArchiveWrite(nm)
                && nm@ == spec_archive_file_name(&desc, host))
            && (a matches Action::WriteBinary(n2, bytes)
                && n2@ == spec_archive_file_name(&desc, host)
                && bytes@ == tar_bytes_of(archive_items(nodes@))
                && (all_packable(nodes@) && storable_modes(nodes@)
                    ==> untar_of(bytes@) == Some(archive_items(nodes@)))))
    }
}

/// True when the descriptor declares, at the entry's index, exactly the
/// SHA-256 digest of the body, with no SHA-512 list taking precedence.
pub open spec fn declared_sha256_matches(d: &PackageDesc, i: int, body: Seq<u8>) -> bool {
    &&& d.sha512 is None
    &&& (d.sha256 matches Some(l) && 0 <= i < l@.len()
        && l.deep_view()[i] == sha256_hex_of(body))
}

/// A good download extracts: when the declared digest at the entry's index
/// is exactly the body's SHA-256 digest and the body unpacks, consuming the
/// successful response hands the unpacked tree over to be written into the
/// source tree. Computed digests are never empty, so a matching declaration
/// can never fall into the missing-digest branch.
pub open spec fn good_digest_extracts(pre: &Pipeline, ev: &Event, post: &Pipeline, a: &Action)
    -> bool {
    (pre.stage matches Stage::Http(i, u, f) && (ev matches Event::Response(st, body)
        && st == 200
        && declared_sha256_matches(&pre.desc, i as int, body@)
        && spec_unpack(body@) is Some))
    ==> (post.stage is SourceWrite && a is WriteTree)
}

/// The descriptor after stamping the build date.
pub open spec fn stamped(d: PackageDesc, s: String) -> PackageDesc {
    (PackageDesc { builddate: Some(s), ..d })
}

/// The whole transition relation of one step: what the next stage and the
/// next action are for every stage and event. An error event from any stage
/// is terminal, first error wins.
pub open spec fn step_post(pre: Pipeline, ev: Event, post: Pipeline, a: Action) -> bool {
    match ev {
        Event::Failure(e) => failed_post(pre.desc, pre.ctx, pre.host, &post, &a, e),
        _ => match pre.stage {
            Stage::Env => {
                &&& same_config(pre.desc, pre.ctx, pre.host, &post)
                &&& post.stage is Dirs
                &&& (a matches Action::CreateDir(d) && d@ == pre.ctx.pkg_dir@)
            },
            Stage::Dirs => dispatch_post(pre.desc, pre.ctx, pre.host, 0, &post, &a),
            Stage::RepoCheck(i, url) => (ev matches Event::RepoExists(b) && {
                &&& same_config(pre.desc, pre.ctx, pre.host, &post)
                &&& (post.stage matches Stage::Vcs(j) && j == i)
                &&& if !b {
                    a matches Action::CloneRepo(u) && u@ == url@
                } else {
                    a matches Action::FetchRepo(d) && d@ == pre.ctx.src_dir@
                }
            }),
            Stage::Vcs(i) => dispatch_post(pre.desc, pre.ctx, pre.host, i + 1, &post, &a),
            Stage::Http(i, url, fname) => (ev matches Event::Response(status, body)
                && http_post(pre.desc, pre.ctx, pre.host, i, url, fname, status, body, &post, &a)),
            Stage::LocalRead(i, fname) => (ev matches Event::FileData(body)
                && local_post(pre.desc, pre.ctx, pre.host, i, fname, body, &post, &a)),
            Stage::SourceWrite(i) => dispatch_post(pre.desc, pre.ctx, pre.host, i + 1, &post, &a),
            Stage::BuildRun => package_entry_post(pre.desc, pre.ctx, pre.host, &post, &a),
            Stage::PackageRun => {
                &&& same_config(pre.desc, pre.ctx, pre.host, &post)
                &&& post.stage is DateStamp
                &&& a is GetStamp
            },
            Stage::DateStamp => (ev matches Event::StampData(s) && {
                &&& post.desc == stamped(pre.desc, s)
                &&& post.ctx == pre.ctx && post.host == pre.host
                &&& post.stage is Restore
                &&& a is RestoreDir
            }),
            Stage::Restore => {
                &&& same_config(pre.desc, pre.ctx, pre.host, &post)
                &&& post.stage is SizeTree
                &&& (a matches Action::ReadTree(d) && d@ == pre.ctx.pkg_dir@)
            },
            Stage::SizeTree => (ev matches Event::TreeData(nodes)
                && info_post(pre.desc, pre.ctx, pre.host, nodes, &post, &a)),
            Stage::InfoWrite => {
                &&& same_config(pre.desc, pre.ctx, pre.host, &post)
                &&& post.stage is ManifestStamp
                &&& a is GetStamp
            },
            Stage::ManifestStamp => (ev matches Event::StampData(s) && {
                &&& same_config(pre.desc, pre.ctx, pre.host, &post)
                &&& (post.stage matches Stage::ManifestTree(st) && st@ == s@)
                &&& (a matches Action::ReadTree(d) && d@ == pre.ctx.pkg_dir@)
            }),
            Stage::ManifestTree(stamp) => (ev matches Event::TreeData(nodes)
                && manifest_post(pre.desc, pre.ctx, pre.host, stamp, nodes, &post, &a)),
            Stage::ManifestWrite => {
                &&& same_config(pre.desc, pre.ctx, pre.host, &post)
                &&& post.stage is ArchiveTree
                &&& (a matches Action::ReadTree(d) && d@ == pre.ctx.pkg_dir@)
            },
            Stage::ArchiveTree => (ev matches Event::TreeData(nodes)
                && archive_post(pre.desc, pre.ctx, pre.host, nodes, &post, &a)),
            Stage::ArchiveWrite(name) => {
                &&& same_config(pre.desc, pre.ctx, pre.host, &post)
                &&& (post.stage matches Stage::Done(n) && n@ == name@)
                &&& (a matches Action::Finished(n2) && n2@ == name@)
            },
            Stage::Done(_) => false,
            Stage::Failed(_) => false,
        },
    }
}

// ---------------------------------------------------------------------------
// The executable pipeline
// ---------------------------------------------------------------------------

impl Pipeline {
    /// A fresh pipeline over a descriptor, its working directories and the
    /// host architecture fallback, standing before its first action.
    pub fn new(desc: PackageDesc, ctx: BuildContext, host: Arch) -> (p: Pipeline)
        ensures
            p.desc == desc,
            p.ctx == ctx,
            p.host == host,
            p.stage is Env,
            wf(&p),
    {
        Pipeline { desc, ctx, host, stage: Stage::Env }
    }

    /// The pipeline's first action: exporting the environment variables that
    /// child scripts reference.
    pub fn first_action(&self) -> (a: Action)
        requires
            self.stage is Env,
        ensures
            (a matches Action::SetEnv(vars)
                && vars@.map_values(|p: (String, String)| (p.0@, p.1@))
                    == spec_env_vars(&self.desc, &self.ctx)),
    {
        let mut vars: Vec<(String, String)> = Vec::new();
        vars.push((String::from_str("pkg_dir"), self.ctx.pkg_dir.clone()));
        vars.push((String::from_str("src_dir"), self.ctx.src_dir.clone()));
        if let Some(v) = &self.desc.vers {
            vars.push((String::from_str("pkg_vers"), v.clone()));
        }
        if let Some(r) = &self.desc.rel {
            vars.push((String::from_str("pkg_rel"), r.clone()));
        }
        proof {
            assert(vars@.map_values(|p: (String, String)| (p.0@, p.1@))
                =~= spec_env_vars(&self.desc, &self.ctx));
        }
        Action::SetEnv(vars)
    }

    /// Whether the pipeline can consume this event now. Terminal pipelines
    /// consume nothing.
    pub fn accepts(&self, ev: &Event) -> (r: bool)
        ensures
            r == expects(&self.stage, ev),
    {
        match &self.stage {
            Stage::Done(_) => false,
            Stage::Failed(_) => false,
            stage => match ev {
                Event::Failure(_) => true,
                Event::Completed => match stage {
                    Stage::Env | Stage::Dirs | Stage::Vcs(_) | Stage::SourceWrite(_)
                        | Stage::BuildRun | Stage::PackageRun | Stage::Restore
                        | Stage::InfoWrite | Stage::ManifestWrite
                        | Stage::ArchiveWrite(_) => true,
                    _ => false,
                },
                Event::RepoExists(_) => matches!(stage, Stage::RepoCheck(_, _)),
                Event::Response(_, _) => matches!(stage, Stage::Http(_, _, _)),
                Event::FileData(_) => matches!(stage, Stage::LocalRead(_, _)),
                Event::TreeData(_) => matches!(stage, Stage::SizeTree)
                    || matches!(stage, Stage::ManifestTree(_))
                    || matches!(stage, Stage::ArchiveTree),
                Event::StampData(_) => matches!(stage, Stage::DateStamp)
                    || matches!(stage, Stage::ManifestStamp),
            },
        }
    }

    /// Consumes the outcome of the pending action and answers with the next
    /// action: the heart of the build orchestration. Every stage is gated on
    /// the success of the one before it; the first error is terminal.
    pub fn step(self, ev: Event) -> (r: (Pipeline, Action))
        requires
            wf(&self),
            expects(&self.stage, &ev),
        ensures
            step_post(self, ev, r.0, r.1),
            good_digest_extracts(&self, &ev, &r.0, &r.1),
            wf(&r.0),
    {
        let Pipeline { mut desc, ctx, host, stage } = self;
        let ev = match ev {
            Event::Failure(e) => {
                return fail_now(desc, ctx, host, e);
            },
            other => other,
        };
        match (stage, ev) {
            (Stage::Env, Event::Completed) => {
                let a = Action::CreateDir(ctx.pkg_dir.clone());
                (Pipeline { desc, ctx, host, stage: Stage::Dirs }, a)
            },
            (Stage::Dirs, Event::Completed) => dispatch_source(desc, ctx, host, 0),
            (Stage::RepoCheck(i, url), Event::RepoExists(b)) => {
                let a = if !b {
                    Action::CloneRepo(url)
                } else {
                    Action::FetchRepo(ctx.src_dir.clone())
                };
                (Pipeline { desc, ctx, host, stage: Stage::Vcs(i) }, a)
            },
            (Stage::Vcs(i), Event::Completed) => {
                proof {
                    let srcs = desc.source->Some_0;
                    assert(srcs.len() == srcs@.len());
                }
                dispatch_source(desc, ctx, host, i + 1)
            },
            (Stage::Http(i, url, fname), Event::Response(status, body)) => {
                if status != 200 {
                    return fail_now(desc, ctx, host, BuildError::HttpNoFile(status, url));
                }
                if let Err(e) = desc.match_hash(i, fname.as_str(), body.as_slice()) {
                    return fail_now(desc, ctx, host, e);
                }
                match unpack_source_archive(body.as_slice()) {
                    Ok(nodes) => {
                        let a = Action::WriteTree(ctx.src_dir.clone(), nodes);
                        (Pipeline { desc, ctx, host, stage: Stage::SourceWrite(i) }, a)
                    },
                    Err(e) => fail_now(desc, ctx, host, e),
                }
            },
            (Stage::LocalRead(i, fname), Event::FileData(body)) => {
                if let Err(e) = desc.match_hash(i, fname.as_str(), body.as_slice()) {
                    return fail_now(desc, ctx, host, e);
                }
                proof {
                    let srcs = desc.source->Some_0;
                    assert(srcs.len() == srcs@.len());
                }
                dispatch_source(desc, ctx, host, i + 1)
            },
            (Stage::SourceWrite(i), Event::Completed) => {
                proof {
                    let srcs = desc.source->Some_0;
                    assert(srcs.len() == srcs@.len());
                }
                dispatch_source(desc, ctx, host, i + 1)
            },
            (Stage::BuildRun, Event::Completed) => enter_package(desc, ctx, host),
            (Stage::PackageRun, Event::Completed) => {
                (Pipeline { desc, ctx, host, stage: Stage::DateStamp }, Action::GetStamp)
            },
            (Stage::DateStamp, Event::StampData(s)) => {
                desc.set_builddate(s);
                (Pipeline { desc, ctx, host, stage: Stage::Restore }, Action::RestoreDir)
            },
            (Stage::Restore, Event::Completed) => {
                let a = Action::ReadTree(ctx.pkg_dir.clone());
                (Pipeline { desc, ctx, host, stage: Stage::SizeTree }, a)
            },
            (Stage::SizeTree, Event::TreeData(nodes)) => {
                let size = match pkg_size(&nodes) {
                    Some(s) => s,
                    None => 0,
                };
                let info = PkgInfo::new(&desc, size, host);
                let text = render_pkginfo(&info);
                proof {
                    lemma_deep_view_strings(info.conflicts);
                    lemma_deep_view_strings(info.deps);
                    lemma_deep_view_strings(info.maintainers);
                    assert(pkginfo_text(&info) == spec_info_text(&desc, size, host));
                }
                let path = ctx.pkg_dir.clone().concat("/PKGINFO");
                let a = Action::WriteText(path, text);
                (Pipeline { desc, ctx, host, stage: Stage::InfoWrite }, a)
            },
            (Stage::InfoWrite, Event::Completed) => {
                (Pipeline { desc, ctx, host, stage: Stage::ManifestStamp }, Action::GetStamp)
            },
            (Stage::ManifestStamp, Event::StampData(s)) => {
                let a = Action::ReadTree(ctx.pkg_dir.clone());
                (Pipeline { desc, ctx, host, stage: Stage::ManifestTree(s) }, a)
            },
            (Stage::ManifestTree(stamp), Event::TreeData(nodes)) => {
                let m = Manifest::from_nodes(&nodes, stamp.as_str());
                let text = render_manifest(&m);
                let path = ctx.pkg_dir.clone().concat("/MANIFEST");
                let a = Action::WriteText(path, text);
                (Pipeline { desc, ctx, host, stage: Stage::ManifestWrite }, a)
            },
            (Stage::ManifestWrite, Event::Completed) => {
                let a = Action::ReadTree(ctx.pkg_dir.clone());
                (Pipeline { desc, ctx, host, stage: Stage::ArchiveTree }, a)
            },
            (Stage::ArchiveTree, Event::TreeData(nodes)) => {
                match build_archive(&nodes) {
                    Ok(bytes) => {
                        let name = archive_file_name(&desc, host);
                        let a = Action::WriteBinary(name.clone(), bytes);
                        (Pipeline { desc, ctx, host, stage: Stage::ArchiveWrite(name) }, a)
                    },
                    Err(e) => fail_now(desc, ctx, host, e),
                }
            },
            (Stage::ArchiveWrite(name), Event::Completed) => {
                let a = Action::Finished(name.clone());
                (Pipeline { desc, ctx, host, stage: Stage::Done(name) }, a)
            },
            _ => unreached(),
        }
    }
}

/// Moves the pipeline to its failed state, asking the program to abort with
/// the error.
fn fail_now(desc: PackageDesc, ctx: BuildContext, host: Arch, e: BuildError)
    -> (r: (Pipeline, Action))
    ensures
        failed_post(desc, ctx, host, &r.0, &r.1, e),
        wf(&r.0),
{
    let a = Action::Abort(e.dup());
    (Pipeline { desc, ctx, host, stage: Stage::Failed(e) }, a)
}

/// Dispatches the source entry at index `i`, or enters the build stage past
/// the last entry.
fn dispatch_source(desc: PackageDesc, ctx: BuildContext, host: Arch, i: usize)
    -> (r: (Pipeline, Action))
    ensures
        dispatch_post(desc, ctx, host, i as int, &r.0, &r.1),
        wf(&r.0),
{
    let in_range = match &desc.source {
        Some(srcs) => i < srcs.len(),
        None => false,
    };
    if !in_range {
        return enter_build(desc, ctx, host);
    }
    let kind = match &desc.source {
        Some(srcs) => classify_source(srcs[i].as_str()),
        None => unreached(),
    };
    match kind {
        SourceKind::Git(url) => {
            let a = Action::CheckRepo(ctx.src_dir.clone());
            (Pipeline { desc, ctx, host, stage: Stage::RepoCheck(i, url) }, a)
        },
        SourceKind::Remote(url, fname) => {
            let a = Action::Download(url.clone());
            (Pipeline { desc, ctx, host, stage: Stage::Http(i, url, fname) }, a)
        },
        SourceKind::Local(name) => {
            let a = Action::ReadFile(name.clone());
            (Pipeline { desc, ctx, host, stage: Stage::LocalRead(i, name) }, a)
        },
    }
}

/// Enters the build stage, or falls through to the package stage when no
/// build script is declared.
fn enter_build(desc: PackageDesc, ctx: BuildContext, host: Arch) -> (r: (Pipeline, Action))
    ensures
        build_entry_post(desc, ctx, host, &r.0, &r.1),
        wf(&r.0),
{
    let cmd = match &desc.build {
        Some(lines) => Some(join_script(lines)),
        None => None,
    };
    match cmd {
        Some(c) => {
            let a = Action::RunScript(Some(ctx.src_dir.clone()), c);
            (Pipeline { desc, ctx, host, stage: Stage::BuildRun }, a)
        },
        None => enter_package(desc, ctx, host),
    }
}

/// Enters the package stage, or falls through to the date stamp when no
/// package script is declared.
fn enter_package(desc: PackageDesc, ctx: BuildContext, host: Arch) -> (r: (Pipeline, Action))
    ensures
        package_entry_post(desc, ctx, host, &r.0, &r.1),
        wf(&r.0),
{
    let cmd = match &desc.package {
        Some(lines) => Some(join_script(lines)),
        None => None,
    };
    match cmd {
        Some(c) => {
            let a = Action::RunScript(Some(ctx.src_dir.clone()), c);
            (Pipeline { desc, ctx, host, stage: Stage::PackageRun }, a)
        },
        None => {
            (Pipeline { desc, ctx, host, stage: Stage::DateStamp }, Action::GetStamp)
        },
    }
}

/// The strings of a vector, viewed in depth, are its elements' views.
proof fn lemma_deep_view_strings(v: Vec<String>)
    ensures
        v.deep_view() == deep_of(v@),
{
    assert(v.deep_view() =~= deep_of(v@));
}

// ---------------------------------------------------------------------------
// Laws of the pipeline
// ---------------------------------------------------------------------------

/// The first error wins: a failure reported from any stage moves the
/// pipeline directly to its failed state, carrying exactly that error, and
/// the program is asked to abort. No stage is retried.
pub proof fn lemma_first_error_wins(pre: Pipeline, e: BuildError, post: Pipeline, a: Action)
    requires
        step_post(pre, Event::Failure(e), post, a),
    ensures
        post.stage matches Stage::Failed(e1) && e1 == e,
        a matches Action::Abort(e2) && e2 == e,
        post.desc == pre.desc,
{
}

/// The clone-vs-fetch decision: for a version-controlled source, a missing
/// repository at the source path is cloned, and an existing one is fetched
/// incrementally instead — decided before any network activity.
pub proof fn lemma_clone_vs_fetch(pre: Pipeline, b: bool, post: Pipeline, a: Action)
    requires
        pre.stage is RepoCheck,
        step_post(pre, Event::RepoExists(b), post, a),
    ensures
        !b ==> (pre.stage matches Stage::RepoCheck(i, url)
            && (a matches Action::CloneRepo(u) && u@ == url@)),
        b ==> (a matches Action::FetchRepo(d) && d@ == pre.ctx.src_dir@),
{
}

/// The source entry a stage is resolving, when it stands in the source phase.
pub open spec fn source_index(stage: &Stage) -> Option<int> {
    match stage {
        Stage::RepoCheck(i, _) => Some(*i as int),
        Stage::Vcs(i) => Some(*i as int),
        Stage::Http(i, _, _) => Some(*i as int),
        Stage::LocalRead(i, _) => Some(*i as int),
        Stage::SourceWrite(i) => Some(*i as int),
        _ => None,
    }
}

/// Sources resolve strictly in order: while the pipeline stays in the source
/// phase, a step never moves it to an earlier entry, and the next entry
/// begins only once the one before it is fully resolved.
pub proof fn lemma_sources_in_order(pre: Pipeline, ev: Event, post: Pipeline, a: Action)
    requires
        step_post(pre, ev, post, a),
        source_index(&pre.stage) is Some,
        source_index(&post.stage) is Some,
    ensures
        source_index(&post.stage)->Some_0 >= source_index(&pre.stage)->Some_0,
        source_index(&post.stage)->Some_0 <= source_index(&pre.stage)->Some_0 + 1,
{
}

/// The digest gate is exact for downloaded sources: consuming a successful
/// response fails with a digest mismatch precisely when the computed digest
/// differs from the declared, non-sentinel one at the entry's index.
pub proof fn lemma_digest_mismatch_iff(
    pre: Pipeline,
    status: u32,
    body: Vec<u8>,
    post: Pipeline,
    a: Action,
)
    requires
        pre.stage is Http,
        status == 200,
        step_post(pre, Event::Response(status, body), post, a),
    ensures
        (post.stage matches Stage::Failed(e) && e is HashMismatch)
            <==> spec_match_verdict(&pre.desc, source_index(&pre.stage)->Some_0, body@)
                is Mismatch,
{
}

/// The digest gate is equally exact for pre-staged local sources.
pub proof fn lemma_digest_mismatch_iff_local(pre: Pipeline, body: Vec<u8>, post: Pipeline, a: Action)
    requires
        pre.stage is LocalRead,
        step_post(pre, Event::FileData(body), post, a),
    ensures
        (post.stage matches Stage::Failed(e) && e is HashMismatch)
            <==> spec_match_verdict(&pre.desc, source_index(&pre.stage)->Some_0, body@)
                is Mismatch,
{
}

/// The digest gate guards extraction: when the computed digest of a
/// downloaded file differs from the declared one, the build fails with the
/// mismatch error and no extraction or source-tree write is ever asked for.
pub proof fn lemma_mismatch_blocks_extraction(
    pre: Pipeline,
    status: u32,
    body: Vec<u8>,
    post: Pipeline,
    a: Action,
)
    requires
        (pre.stage matches Stage::Http(i, u, f)
            && status == 200
            && !(spec_match_verdict(&pre.desc, i as int, body@) is Pass)),
        step_post(pre, Event::Response(status, body), post, a),
    ensures
        post.stage is Failed,
        !(a matches Action::WriteTree(d, n)),
{
}

} // verus!
