use vstd::prelude::*;

use std::io::Read;

use crate::error::BuildError;
use crate::ext::{spec_strip_parent, strip_parent};
use crate::manifest::{not_root, TreeNode};
use crate::text::{lemma_filter_push, split_char};

verus! {

// ---------------------------------------------------------------------------
// The archive model
// ---------------------------------------------------------------------------

/// The mathematical content of one archive entry: its stored path, its
/// permission bits, and its bytes (a directory entry carries none).
pub struct ArchiveItem {
    pub path: Seq<char>,
    pub mode: u32,
    pub data: Option<Seq<u8>>,
}

/// A path the packer accepts and stores unchanged: non-empty, relative, in
/// normal form (no empty, `.` or `..` component), with no nul byte and no
/// backslash (the packer would reject the former and rewrite the latter).
/// Longer paths than a plain header holds are fine: they go through the
/// long-name extension.
pub open spec fn packable(path: Seq<char>) -> bool {
    &&& path.len() > 0
    &&& (forall|k: int| 0 <= k < split_char(path, '/').len() ==> {
        let comp = #[trigger] split_char(path, '/')[k];
        comp.len() > 0 && comp != "."@ && comp != ".."@
    })
    &&& (forall|j: int| 0 <= j < path.len() ==> path[j] != '\0' && path[j] != '\\')
}

/// Every node of the walked tree but its root packs under its stripped path.
pub open spec fn all_packable(nodes: Seq<TreeNode>) -> bool {
    forall|j: int| 0 <= j < nodes.len() ==> ((#[trigger] nodes[j]).path@ != "pkg"@
        ==> packable(spec_strip_parent(nodes[j].path@)))
}

/// A mode the tar header stores without loss: it fits in the header's seven
/// octal digits.
pub open spec fn mode_storable(mode: u32) -> bool {
    mode < 0o10000000
}

/// Every node of the walked tree but its root carries a storable mode.
pub open spec fn storable_modes(nodes: Seq<TreeNode>) -> bool {
    forall|j: int| 0 <= j < nodes.len() ==> ((#[trigger] nodes[j]).path@ != "pkg"@
        ==> mode_storable(nodes[j].mode))
}

/// Entries a finished stream reproduces exactly: packable paths (stored
/// unchanged) and storable modes.
pub open spec fn round_trippable(items: Seq<ArchiveItem>) -> bool {
    forall|k: int| 0 <= k < items.len() ==> (packable((#[trigger] items[k]).path)
        && mode_storable(items[k].mode))
}

/// The archive entry a tree node stands for.
pub open spec fn node_item(n: TreeNode) -> ArchiveItem {
    (ArchiveItem {
        path: n.path@,
        mode: n.mode,
        data: match n.data {
            Some(d) => Some(d@),
            None => None,
        },
    })
}

/// What a tar packer holds: the entries appended so far, in order.
pub uninterp spec fn packed_entries(p: TarPacker) -> Seq<ArchiveItem>;

/// The bytes of the finished tar stream holding exactly these entries. The
/// packer fixes every header field the entries do not carry (timestamps,
/// ownership), so the stream is a function of the entries alone.
pub uninterp spec fn tar_bytes_of(items: Seq<ArchiveItem>) -> Seq<u8>;

/// The entries stored in a tar stream, or nothing when the bytes do not
/// parse as one. The result is a function of the bytes alone.
pub uninterp spec fn untar_of(bytes: Seq<u8>) -> Option<Seq<ArchiveItem>>;

/// The bytes a gzip stream decompresses to, or nothing when the bytes are
/// not a gzip stream. The result is a function of the bytes alone.
pub uninterp spec fn gunzip_of(bytes: Seq<u8>) -> Option<Seq<u8>>;

// ---------------------------------------------------------------------------
// The trusted tar packer
// ---------------------------------------------------------------------------

/// An in-memory tar stream under construction. The underlying writer comes
/// from the `tar` crate and is opaque to the verifier; the wrappers below
/// describe it through `packed_entries`.
#[verifier::external_body]
pub struct TarPacker {
    inner: tar::Builder<Vec<u8>>,
}

impl TarPacker {
    /// Relies on the `tar` crate's Builder over an empty byte buffer: a new
    /// stream holds no entries.
    #[verifier::external_body]
    pub fn new() -> (r: TarPacker)
        ensures
            packed_entries(r) == Seq::<ArchiveItem>::empty(),
    {
        TarPacker { inner: tar::Builder::new(Vec::new()) }
    }

    /// Relies on the `tar` crate's `append_data`: on success the stream gains
    /// one file entry with the given path, mode and bytes. Every other header
    /// field is fixed here, so the entry adds nothing else to the stream.
    /// Writing goes into an in-memory buffer, so appending fails only when
    /// the path is rejected: a packable path always succeeds.
    #[verifier::external_body]
    pub fn append_file(&mut self, path: &str, mode: u32, data: &[u8])
        -> (r: Result<(), BuildError>)
        ensures
            r is Ok ==> packed_entries(*final(self)) == packed_entries(*old(self)).push(
                ArchiveItem { path: path@, mode: mode, data: Some(data@) },
            ),
            r matches Err(e) ==> e is Io,
            r is Err ==> !packable(path@),
    {
        let mut header = tar::Header::new_gnu();
        header.set_mode(mode);
        header.set_mtime(0);
        header.set_size(data.len() as u64);
        match self.inner.append_data(&mut header, path, data) {
            Ok(()) => Ok(()),
            Err(e) => Err(BuildError::Io(e.to_string())),
        }
    }

    /// Relies on the `tar` crate's `append_data`: on success the stream gains
    /// one directory entry with the given path and mode. As with files, a
    /// packable path always succeeds.
    #[verifier::external_body]
    pub fn append_dir(&mut self, path: &str, mode: u32) -> (r: Result<(), BuildError>)
        ensures
            r is Ok ==> packed_entries(*final(self)) == packed_entries(*old(self)).push(
                ArchiveItem { path: path@, mode: mode, data: None },
            ),
            r matches Err(e) ==> e is Io,
            r is Err ==> !packable(path@),
    {
        let mut header = tar::Header::new_gnu();
        header.set_entry_type(tar::EntryType::dir());
        header.set_mode(mode);
        header.set_mtime(0);
        header.set_size(0);
        match self.inner.append_data(&mut header, path, std::io::empty()) {
            Ok(()) => Ok(()),
            Err(e) => Err(BuildError::Io(e.to_string())),
        }
    }

    /// Relies on the `tar` crate's `into_inner`: it finalizes the stream and
    /// hands back the bytes holding exactly the appended entries. Finalizing
    /// only writes the terminating blocks into the in-memory buffer, which
    /// cannot fail. Relies further on the crate's reader: a stream whose
    /// entries all carry packable paths (stored unchanged, long names through
    /// the long-name extension) and storable modes reads back as exactly the
    /// appended entries, in order.
    #[verifier::external_body]
    pub fn finish(self) -> (r: Result<Vec<u8>, BuildError>)
        ensures
            r is Ok,
            r matches Ok(b) ==> b@ == tar_bytes_of(packed_entries(self)),
            (r matches Ok(b) ==> (round_trippable(packed_entries(self))
                ==> untar_of(b@) == Some(packed_entries(self)))),
    {
        match self.inner.into_inner() {
            Ok(bytes) => Ok(bytes),
            Err(e) => Err(BuildError::Io(e.to_string())),
        }
    }
}

// ---------------------------------------------------------------------------
// Trusted unpacking primitives
// ---------------------------------------------------------------------------

/// Relies on the `tar` crate's Archive reader: it yields the stored entries
/// in order, with their paths, modes and bytes, and fails on bytes that are
/// not a tar stream.
#[verifier::external_body]
pub fn untar(bytes: &[u8]) -> (r: Result<Vec<TreeNode>, BuildError>)
    ensures
        (r matches Ok(v) ==> untar_of(bytes@)
            == Some(v@.map_values(|n: TreeNode| node_item(n)))),
        (r matches Err(e) ==> untar_of(bytes@) is None && e is Io),
{
    let run = || -> std::io::Result<Vec<TreeNode>> {
        let mut out = Vec::new();
        for ent in tar::Archive::new(bytes).entries()? {
            let mut ent = ent?;
            let path = ent.path()?.to_string_lossy().into_owned();
            let mode = ent.header().mode()?;
            let data = if ent.header().entry_type().is_dir() { None } else { let mut d = Vec::new(); ent.read_to_end(&mut d)?; Some(d) };
            out.push(TreeNode { path, mode, data });
        }
        Ok(out)
    };
    run().map_err(|e| BuildError::Io(e.to_string()))
}

/// Relies on the `flate2` crate's GzDecoder: reading it to the end yields
/// the decompressed bytes, and fails on bytes that are not a gzip stream.
#[verifier::external_body]
pub fn gunzip(bytes: &[u8]) -> (r: Result<Vec<u8>, BuildError>)
    ensures
        (r matches Ok(v) ==> gunzip_of(bytes@) == Some(v@)),
        (r is Err ==> gunzip_of(bytes@) is None),
{
    let mut decoder = flate2::read::GzDecoder::new(bytes);
    let mut out: Vec<u8> = Vec::new();
    match std::io::Read::read_to_end(&mut decoder, &mut out) {
        Ok(_) => Ok(out),
        Err(e) => Err(BuildError::Io(e.to_string())),
    }
}

// ---------------------------------------------------------------------------
// Verified archive logic
// ---------------------------------------------------------------------------

/// The entries owed for a walked package tree: one per node in walk order,
/// the tree's own root excluded, each stored under its path with the root
/// segment stripped.
pub open spec fn archive_items(nodes: Seq<TreeNode>) -> Seq<ArchiveItem> {
    nodes.filter(not_root()).map_values(
        |n: TreeNode| ArchiveItem {
            path: spec_strip_parent(n.path@),
            mode: n.mode,
            data: match n.data {
                Some(d) => Some(d@),
                None => None,
            },
        },
    )
}

/// Packs a walked package tree into a tar stream: every file and
/// subdirectory, in walk order, stored with the tree-root segment stripped
/// from its path; the stream is finalized as the terminal step. Success is
/// owed whenever every stripped path is packable; a rejected path aborts
/// with an I/O error. The round trip holds: with packable paths and storable
/// modes, unpacking the produced stream reproduces exactly the stripped
/// non-root entries, paths, modes and bytes alike.
pub fn build_archive(nodes: &Vec<TreeNode>) -> (r: Result<Vec<u8>, BuildError>)
    ensures
        r matches Ok(b) ==> b@ == tar_bytes_of(archive_items(nodes@)),
        r matches Err(e) ==> e is Io,
        all_packable(nodes@) ==> r is Ok,
        (all_packable(nodes@) && storable_modes(nodes@) ==> (r matches Ok(b)
            && untar_of(b@) == Some(archive_items(nodes@)))),
{
    let mut packer = TarPacker::new();
    let n = nodes.len();
    let mut i: usize = 0;
    proof {
        assert(nodes@.take(0).filter(not_root()) =~= Seq::<TreeNode>::empty());
        assert(packed_entries(packer) =~= archive_items(nodes@.take(0)));
    }
    while i < n
        invariant
            n == nodes.len(),
            i <= n,
            packed_entries(packer) == archive_items(nodes@.take(i as int)),
        decreases n - i,
    {
        let ghost before = nodes@.take(i as int);
        let ghost cur = nodes@[i as int];
        proof {
            assert(nodes@.take(i + 1) =~= before.push(cur));
            lemma_filter_push(before, cur, not_root());
        }
        let node = &nodes[i];
        if !crate::text::str_eq(node.path.as_str(), "pkg") {
            let stored = strip_parent(node.path.as_str());
            let outcome = match &node.data {
                Some(d) => packer.append_file(stored.as_str(), node.mode, d.as_slice()),
                None => packer.append_dir(stored.as_str(), node.mode),
            };
            if let Err(e) = outcome {
                proof {
                    assert(!packable(spec_strip_parent(nodes@[i as int].path@)));
                    assert(!all_packable(nodes@));
                }
                return Err(e);
            }
            proof {
                assert(packed_entries(packer) =~= archive_items(nodes@.take(i + 1)));
            }
        }
        i = i + 1;
    }
    proof {
        assert(nodes@.take(n as int) =~= nodes@);
        if all_packable(nodes@) && storable_modes(nodes@) {
            let prop = |nd: TreeNode| nd.path@ != "pkg"@
                ==> (packable(spec_strip_parent(nd.path@)) && mode_storable(nd.mode));
            assert(forall|j: int| 0 <= j < nodes@.len() ==> prop(#[trigger] nodes@[j]));
            crate::text::lemma_filter_preserves(nodes@, not_root(), prop);
            let kept = nodes@.filter(not_root());
            assert forall|k: int| 0 <= k < archive_items(nodes@).len()
                implies packable((#[trigger] archive_items(nodes@)[k]).path)
                    && mode_storable(archive_items(nodes@)[k].mode) by {
                nodes@.lemma_filter_pred(not_root(), k);
                assert(prop(kept[k]));
                assert(archive_items(nodes@)[k].path == spec_strip_parent(kept[k].path@));
                assert(archive_items(nodes@)[k].mode == kept[k].mode);
            }
            assert(round_trippable(archive_items(nodes@)));
        }
    }
    packer.finish()
}

/// Archive soundness: the packed entries never include the tree's own root,
/// they follow walk order, and each stores its node's path with the root
/// segment stripped, its mode, and — for a file — exactly its bytes.
pub proof fn lemma_archive_items_sound(nodes: Seq<TreeNode>)
    ensures
        forall|j: int| 0 <= j < archive_items(nodes).len()
            ==> (#[trigger] nodes.filter(not_root())[j]).path@ != "pkg"@,
        forall|j: int| 0 <= j < archive_items(nodes).len()
            ==> (#[trigger] archive_items(nodes)[j]).path
                == spec_strip_parent(nodes.filter(not_root())[j].path@),
        forall|j: int| 0 <= j < archive_items(nodes).len()
            ==> ((#[trigger] nodes.filter(not_root())[j]).data matches Some(d)
                ==> archive_items(nodes)[j].data == Some(d@)),
{
    let kept = nodes.filter(not_root());
    assert forall|j: int| 0 <= j < kept.len() implies (#[trigger] kept[j]).path@ != "pkg"@ by {
        nodes.lemma_filter_pred(not_root(), j);
    }
}

/// The unpacking outcome owed for the bytes of one archive stream.
pub open spec fn untar_outcome(r: Result<Vec<TreeNode>, BuildError>, bytes: Seq<u8>) -> bool {
    match untar_of(bytes) {
        Some(items) => r matches Ok(v) && v@.map_values(|n: TreeNode| node_item(n)) == items,
        None => r matches Err(e) && e is Io,
    }
}

/// Unpacks a downloaded source artifact: gzip-decompression is attempted
/// first, and bytes that are not a gzip stream are read as an uncompressed
/// tar stream. Bytes that parse neither way are a terminal I/O error.
pub fn unpack_source_archive(bytes: &[u8]) -> (r: Result<Vec<TreeNode>, BuildError>)
    ensures
        (gunzip_of(bytes@) matches Some(d) ==> untar_outcome(r, d)),
        gunzip_of(bytes@) is None ==> untar_outcome(r, bytes@),
{
    match gunzip(bytes) {
        Ok(d) => untar(d.as_slice()),
        Err(_) => untar(bytes),
    }
}

} // verus!
