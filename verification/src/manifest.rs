use vstd::prelude::*;

use crate::digest::{sha256_hex_of, sha_256};
use crate::ext::{prepend_path, spec_prepend_path, spec_strip_parent, strip_parent};
use crate::text::lemma_filter_push;

verus! {

// ---------------------------------------------------------------------------
// Tree nodes
// ---------------------------------------------------------------------------

/// One node of a file tree handed to the library: its `/`-separated path,
/// its permission bits, and its full contents when it is a file (a directory
/// carries no contents).
#[derive(Debug, Clone, PartialEq)]
pub struct TreeNode {
    pub path: String,
    pub mode: u32,
    pub data: Option<Vec<u8>>,
}

/// Keeps the nodes that are not the package tree's own root.
pub open spec fn not_root() -> spec_fn(TreeNode) -> bool {
    |n: TreeNode| n.path@ != "pkg"@
}

// ---------------------------------------------------------------------------
// Manifest entries
// ---------------------------------------------------------------------------

/// One recorded entry of the package manifest: the root-relative path, the
/// shared generation timestamp, and — for files — the byte size and SHA-256
/// checksum. Directories record path and permission bits only.
#[derive(Debug, Clone, PartialEq)]
pub struct ManifestEntry {
    pub path: String,
    pub time: String,
    pub size: u64,
    pub checksum: String,
    pub mode: u32,
}

/// The mathematical content of one manifest entry.
pub struct EntryModel {
    pub path: Seq<char>,
    pub time: Seq<char>,
    pub size: int,
    pub checksum: Seq<char>,
    pub mode: u32,
}

/// What one entry records.
pub open spec fn entry_model(e: ManifestEntry) -> EntryModel {
    (EntryModel {
        path: e.path@,
        time: e.time@,
        size: e.size as int,
        checksum: e.checksum@,
        mode: e.mode,
    })
}

/// The entry owed for one tree node: its path stripped of the root segment
/// and marked relative, the shared timestamp, and for a file its byte length
/// and the SHA-256 digest of its bytes.
pub open spec fn node_entry(n: TreeNode, stamp: Seq<char>) -> EntryModel {
    (EntryModel {
        path: spec_prepend_path(spec_strip_parent(n.path@)),
        time: stamp,
        size: match n.data {
            Some(d) => d@.len() as int,
            None => 0,
        },
        checksum: match n.data {
            Some(d) => sha256_hex_of(d@),
            None => Seq::empty(),
        },
        mode: n.mode,
    })
}

/// The manifest owed for a walked tree: one entry per node in walk order,
/// the tree's own root excluded.
pub open spec fn manifest_model(nodes: Seq<TreeNode>, stamp: Seq<char>) -> Seq<EntryModel> {
    nodes.filter(not_root()).map_values(|n: TreeNode| node_entry(n, stamp))
}

/// The recorded manifest: an ordered sequence of entries, one per non-root
/// tree node, in filesystem walk order.
#[derive(Debug, Clone, PartialEq)]
pub struct Manifest {
    pub entries: Vec<ManifestEntry>,
}

impl Manifest {
    /// An empty manifest.
    pub fn new() -> (r: Manifest)
        ensures
            r.entries@ =~= Seq::<ManifestEntry>::empty(),
    {
        Manifest { entries: Vec::new() }
    }

    /// Records the manifest of a walked package tree: every node but the
    /// tree's own root, in walk order, each stamped with the one shared
    /// generation timestamp.
    pub fn from_nodes(nodes: &Vec<TreeNode>, stamp: &str) -> (r: Manifest)
        ensures
            r.entries@.map_values(|e: ManifestEntry| entry_model(e))
                == manifest_model(nodes@, stamp@),
    {
        let mut entries: Vec<ManifestEntry> = Vec::new();
        let n = nodes.len();
        let mut i: usize = 0;
        proof {
            assert(nodes@.take(0).filter(not_root()) =~= Seq::<TreeNode>::empty());
            assert(entries@.map_values(|e: ManifestEntry| entry_model(e))
                =~= manifest_model(nodes@.take(0), stamp@));
        }
        while i < n
            invariant
                n == nodes.len(),
                i <= n,
                entries@.map_values(|e: ManifestEntry| entry_model(e))
                    == manifest_model(nodes@.take(i as int), stamp@),
            decreases n - i,
        {
            let ghost before = nodes@.take(i as int);
            let ghost cur = nodes@[i as int];
            proof {
                assert(nodes@.take(i + 1) =~= before.push(cur));
                lemma_filter_push(before, cur, not_root());
            }
            let node = &nodes[i];
            if !crate::text::str_eq(node.path.as_str(), "pkg") {
                let rel = strip_parent(node.path.as_str());
                let path = prepend_path(rel.as_str());
                let entry = match &node.data {
                    Some(d) => ManifestEntry {
                        path: path,
                        time: stamp.to_owned(),
                        size: d.len() as u64,
                        checksum: sha_256(d.as_slice()),
                        mode: node.mode,
                    },
                    None => ManifestEntry {
                        path: path,
                        time: stamp.to_owned(),
                        size: 0,
                        checksum: String::new(),
                        mode: node.mode,
                    },
                };
                proof {
                    assert(entry_model(entry) == node_entry(cur, stamp@));
                }
                entries.push(entry);
                proof {
                    assert(entries@.map_values(|e: ManifestEntry| entry_model(e))
                        =~= manifest_model(before, stamp@).push(node_entry(cur, stamp@)));
                    assert(before.filter(not_root()).push(cur)
                        .map_values(|nd: TreeNode| node_entry(nd, stamp@))
                        =~= manifest_model(before, stamp@).push(node_entry(cur, stamp@)));
                }
            } else {
                proof {
                    assert(!(not_pkg_node(cur)));
                }
            }
            i = i + 1;
        }
        proof {
            assert(nodes@.take(n as int) =~= nodes@);
        }
        Manifest { entries }
    }
}

/// True of a node that is not the package tree's own root.
pub open spec fn not_pkg_node(n: TreeNode) -> bool {
    not_root()(n)
}

/// Manifest soundness: no entry records the tree's own root, and every file
/// entry's recorded size is the file's byte length while its checksum is the
/// SHA-256 digest of those same bytes.
pub proof fn lemma_manifest_sound(nodes: Seq<TreeNode>, stamp: Seq<char>)
    ensures
        forall|j: int| 0 <= j < manifest_model(nodes, stamp).len()
            ==> #[trigger] manifest_model(nodes, stamp)[j]
                == node_entry(nodes.filter(not_root())[j], stamp),
        forall|j: int| 0 <= j < manifest_model(nodes, stamp).len()
            ==> (#[trigger] nodes.filter(not_root())[j]).path@ != "pkg"@,
        forall|j: int| 0 <= j < manifest_model(nodes, stamp).len()
            ==> ((#[trigger] nodes.filter(not_root())[j]).data matches Some(d)
                ==> manifest_model(nodes, stamp)[j].size == d@.len()
                    && manifest_model(nodes, stamp)[j].checksum == sha256_hex_of(d@)),
{
    let kept = nodes.filter(not_root());
    assert forall|j: int| 0 <= j < kept.len() implies (#[trigger] kept[j]).path@ != "pkg"@ by {
        nodes.lemma_filter_pred(not_root(), j);
    }
}

// ---------------------------------------------------------------------------
// Total package size
// ---------------------------------------------------------------------------

/// The total size of the files under the package tree, the root excluded:
/// the sum of every file node's byte length.
pub open spec fn spec_pkg_size(nodes: Seq<TreeNode>) -> int
    decreases nodes.len(),
{
    if nodes.len() == 0 {
        0
    } else {
        spec_pkg_size(nodes.drop_last()) + (match nodes.last().data {
            Some(d) => if nodes.last().path@ != "pkg"@ {
                d@.len() as int
            } else {
                0
            },
            None => 0,
        })
    }
}

/// The size never decreases as more of the walk is counted.
proof fn lemma_pkg_size_mono(nodes: Seq<TreeNode>, i: int)
    requires
        0 <= i <= nodes.len(),
    ensures
        spec_pkg_size(nodes.take(i)) <= spec_pkg_size(nodes),
    decreases nodes.len() - i,
{
    if i == nodes.len() {
        assert(nodes.take(i) =~= nodes);
    } else {
        lemma_pkg_size_mono(nodes, i + 1);
        assert(nodes.take(i + 1).drop_last() =~= nodes.take(i));
        assert(nodes.take(i + 1).last() == nodes[i]);
        assert(spec_pkg_size(nodes.take(i)) <= spec_pkg_size(nodes.take(i + 1)));
    }
}

/// Sums the file sizes under the package tree, root-exclusive. Returns
/// nothing when the total does not fit in 64 bits.
pub fn pkg_size(nodes: &Vec<TreeNode>) -> (r: Option<u64>)
    ensures
        match r {
            Some(s) => s == spec_pkg_size(nodes@),
            None => spec_pkg_size(nodes@) > u64::MAX,
        },
{
    let mut total: u64 = 0;
    let n = nodes.len();
    let mut i: usize = 0;
    proof {
        assert(nodes@.take(0) =~= Seq::<TreeNode>::empty());
    }
    while i < n
        invariant
            n == nodes.len(),
            i <= n,
            total == spec_pkg_size(nodes@.take(i as int)),
        decreases n - i,
    {
        let ghost before = nodes@.take(i as int);
        proof {
            assert(nodes@.take(i + 1).drop_last() =~= before);
            assert(nodes@.take(i + 1).last() == nodes@[i as int]);
        }
        let node = &nodes[i];
        if let Some(d) = &node.data {
            if !crate::text::str_eq(node.path.as_str(), "pkg") {
                let len = d.len() as u64;
                if total > u64::MAX - len {
                    proof {
                        lemma_pkg_size_mono(nodes@, i + 1);
                    }
                    return None;
                }
                total = total + len;
            }
        }
        i = i + 1;
    }
    proof {
        assert(nodes@.take(n as int) =~= nodes@);
    }
    Some(total)
}

} // verus!
