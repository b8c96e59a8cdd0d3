use vstd::prelude::*;

use crate::error::BuildError;
use crate::text::{join_char, join_with, split_char, split_on, str_eq, rfind_char, copy_range};

verus! {

// ---------------------------------------------------------------------------
// Path stripping
// ---------------------------------------------------------------------------

/// Keeps the components that are not the package-tree root segment `pkg`.
pub open spec fn not_pkg() -> spec_fn(Seq<char>) -> bool {
    |p: Seq<char>| p != "pkg"@
}

/// The path with every component equal to the package-tree root segment
/// (`pkg`) removed. Components are the `/`-separated pieces of the path.
pub open spec fn spec_strip_parent(path: Seq<char>) -> Seq<char> {
    join_char(split_char(path, '/').filter(not_pkg()), '/')
}

/// Removes every `pkg` component from a `/`-separated path. The package
/// tree is rooted at the hard-coded `pkg` directory, and recorded paths must
/// not carry that segment.
pub fn strip_parent(path: &str) -> (r: String)
    ensures
        r@ == spec_strip_parent(path@),
{
    let parts = split_on(path, '/');
    let n = parts.len();
    let mut kept: Vec<String> = Vec::new();
    let mut i: usize = 0;
    proof {
        assert(parts.deep_view().take(0).filter(not_pkg()) =~= kept.deep_view());
    }
    while i < n
        invariant
            n == parts.len(),
            i <= n,
            parts.deep_view() == split_char(path@, '/'),
            kept.deep_view() == parts.deep_view().take(i as int).filter(not_pkg()),
        decreases n - i,
    {
        let ghost before = parts.deep_view().take(i as int);
        let ghost cur = parts.deep_view()[i as int];
        proof {
            assert(parts.deep_view().take(i + 1) =~= before.push(cur));
            assert(cur == parts@[i as int]@);
            crate::text::lemma_filter_push(before, cur, not_pkg());
        }
        if !str_eq(parts[i].as_str(), "pkg") {
            proof {
                assert(not_pkg()(cur));
                assert(parts.deep_view().take(i + 1).filter(not_pkg())
                    == before.filter(not_pkg()).push(cur));
            }
            let piece = parts[i].clone();
            kept.push(piece);
            proof {
                assert(kept.deep_view() =~= before.filter(not_pkg()).push(cur));
            }
        } else {
            proof {
                assert(!not_pkg()(cur));
                assert(parts.deep_view().take(i + 1).filter(not_pkg())
                    == before.filter(not_pkg()));
            }
        }
        i = i + 1;
    }
    proof {
        assert(parts.deep_view().take(n as int) =~= parts.deep_view());
    }
    join_with(&kept, '/')
}

/// Filtering separator-free components keeps them separator-free, and keeps
/// none equal to the root segment.
proof fn lemma_filter_components(parts: Seq<Seq<char>>)
    requires
        forall|k: int| 0 <= k < parts.len() ==> !(#[trigger] parts[k]).contains('/'),
    ensures
        forall|k: int| 0 <= k < parts.filter(not_pkg()).len()
            ==> !(#[trigger] parts.filter(not_pkg())[k]).contains('/'),
        forall|k: int| 0 <= k < parts.filter(not_pkg()).len()
            ==> #[trigger] parts.filter(not_pkg())[k] != "pkg"@,
{
    assert forall|k: int| 0 <= k < parts.filter(not_pkg()).len()
        implies #[trigger] parts.filter(not_pkg())[k] != "pkg"@ by {
        parts.lemma_filter_pred(not_pkg(), k);
    }
    crate::text::lemma_filter_preserves(parts, not_pkg(), |p: Seq<char>| !p.contains('/'));
}

/// No recorded path carries the package tree's own root segment: after
/// stripping, no `/`-component of the result equals `pkg`.
pub proof fn lemma_strip_parent_no_root(path: Seq<char>)
    ensures
        forall|k: int| 0 <= k < split_char(spec_strip_parent(path), '/').len()
            ==> #[trigger] split_char(spec_strip_parent(path), '/')[k] != "pkg"@,
{
    let parts = split_char(path, '/');
    let kept = parts.filter(not_pkg());
    crate::text::lemma_split_components_free(path, '/');
    lemma_filter_components(parts);
    if kept.len() == 0 {
        let out = join_char(kept, '/');
        assert(out =~= Seq::<char>::empty());
        crate::text::lemma_find_char(out, '/');
        assert(split_char(out, '/') == seq![out]);
        assert forall|k: int| 0 <= k < split_char(out, '/').len()
            implies #[trigger] split_char(out, '/')[k] != "pkg"@ by {
            reveal_strlit("pkg");
            assert(split_char(out, '/')[k].len() == 0);
        }
    } else {
        crate::text::lemma_split_join(kept, '/');
    }
}

/// The path marked as relative: `./` prepended.
pub open spec fn spec_prepend_path(path: Seq<char>) -> Seq<char> {
    "./"@ + path
}

/// Prepends `./` to a path, marking it as relative to the tree root.
pub fn prepend_path(path: &str) -> (r: String)
    ensures
        r@ == spec_prepend_path(path@),
{
    let out = String::from_str("./");
    out.concat(path)
}

// ---------------------------------------------------------------------------
// Configuration-file name checking
// ---------------------------------------------------------------------------

/// The extension of the final `/`-component of the path: the part after the
/// last dot, provided that dot is neither the component's first character nor
/// absent.
pub open spec fn spec_extension(path: Seq<char>) -> Option<Seq<char>> {
    let name = split_char(path, '/').last();
    let dot = last_dot(name);
    if dot > 1 {
        Some(name.subrange(dot, name.len() as int))
    } else {
        None
    }
}

/// The position just after the last `.` in `name`, or `0` when there is none.
pub open spec fn last_dot(name: Seq<char>) -> int {
    if exists|j: int| 0 <= j < name.len() && name[j] == '.' {
        (choose|j: int| 0 <= j < name.len() && name[j] == '.'
            && forall|k: int| j < k < name.len() ==> name[k] != '.') + 1
    } else {
        0
    }
}

/// The last `/`-component of the path.
pub fn last_component(path: &str) -> (r: String)
    ensures
        r@ == split_char(path@, '/').last(),
{
    let parts = split_on(path, '/');
    proof {
        crate::text::lemma_find_char(path@, '/');
        assert(split_char(path@, '/').len() > 0);
    }
    let n = parts.len();
    parts[n - 1].clone()
}

/// True when the path names a file whose extension marks it as a
/// configuration file (`toml` or `tml`).
pub open spec fn spec_toml_name(path: Seq<char>) -> bool {
    match spec_extension(path) {
        Some(ext) => ext == "toml"@ || ext == "tml"@,
        None => false,
    }
}

/// Computes the extension of the path's final component.
pub fn extension_of(path: &str) -> (r: Option<String>)
    ensures
        match r {
            Some(e) => spec_extension(path@) == Some(e@),
            None => spec_extension(path@) is None,
        },
{
    let name = last_component(path);
    let ghost nv = name@;
    match rfind_char(name.as_str(), '.') {
        Some(i) => {
            if i == 0 {
                proof {
                    lemma_last_dot_is(nv, i as int);
                }
                None
            } else {
                let len = name.as_str().unicode_len();
                let ext = copy_range(name.as_str(), i + 1, len);
                proof {
                    lemma_last_dot_is(nv, i as int);
                }
                Some(ext)
            }
        },
        None => {
            proof {
                lemma_last_dot_none(nv);
            }
            None
        },
    }
}

/// With a last dot at `i`, `last_dot` returns `i + 1`.
proof fn lemma_last_dot_is(name: Seq<char>, i: int)
    requires
        0 <= i < name.len(),
        name[i] == '.',
        forall|k: int| i < k < name.len() ==> name[k] != '.',
    ensures
        last_dot(name) == i + 1,
{
    assert(exists|j: int| 0 <= j < name.len() && name[j] == '.');
    let j = choose|j: int| 0 <= j < name.len() && name[j] == '.'
        && forall|k: int| j < k < name.len() ==> name[k] != '.';
    assert(0 <= j < name.len() && name[j] == '.'
        && forall|k: int| j < k < name.len() ==> name[k] != '.') by {
        assert(0 <= i < name.len() && name[i] == '.'
            && forall|k: int| i < k < name.len() ==> name[k] != '.');
    }
    if j < i {
        assert(name[i] != '.');
    } else if j > i {
        assert(name[j] != '.');
    }
}

/// Without any dot, `last_dot` returns `0`.
proof fn lemma_last_dot_none(name: Seq<char>)
    requires
        forall|k: int| 0 <= k < name.len() ==> name[k] != '.',
    ensures
        last_dot(name) == 0,
{
    if exists|j: int| 0 <= j < name.len() && name[j] == '.' {
        let j = choose|j: int| 0 <= j < name.len() && name[j] == '.';
        assert(name[j] != '.');
    }
}

/// Decides whether the named configuration file is acceptable: a directory
/// is never acceptable, and a file must carry a `toml` or `tml` extension.
/// Returns the not-a-recognized-config-file error otherwise. The caller
/// supplies whether the path names a directory.
pub fn assert_toml(file: &str, is_dir: bool) -> (r: Result<(), BuildError>)
    ensures
        match r {
            Ok(()) => !is_dir && spec_toml_name(file@),
            Err(e) => (is_dir || !spec_toml_name(file@))
                && (e matches BuildError::NonToml(f) && f@ == file@),
        },
{
    if is_dir {
        return Err(BuildError::NonToml(file.to_owned()));
    }
    match extension_of(file) {
        Some(ext) => {
            if str_eq(ext.as_str(), "toml") || str_eq(ext.as_str(), "tml") {
                Ok(())
            } else {
                Err(BuildError::NonToml(file.to_owned()))
            }
        },
        None => Err(BuildError::NonToml(file.to_owned())),
    }
}

} // verus!
