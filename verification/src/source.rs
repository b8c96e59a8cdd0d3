use vstd::prelude::*;

use crate::text::{copy_range, rfind_char, spec_contains, spec_starts_with, starts_with_str,
    contains_substr};

verus! {

// ---------------------------------------------------------------------------
// Classifying source specifiers
// ---------------------------------------------------------------------------

/// What one source specifier asks for.
#[derive(Debug, Clone, PartialEq)]
pub enum SourceKind {
    /// A version-controlled tree: the URL to clone or fetch.
    Git(String),
    /// A remote file: the URL, and the local file name it downloads to (the
    /// final path segment of the URL).
    Remote(String, String),
    /// A pre-staged local file name.
    Local(String),
}

/// True when the specifier asks for a version-controlled source.
pub open spec fn spec_is_git(s: Seq<char>) -> bool {
    spec_starts_with(s, "git+"@)
}

/// True when the specifier is a remote file (it carries a scheme separator).
pub open spec fn spec_is_remote(s: Seq<char>) -> bool {
    spec_contains(s, "://"@)
}

/// Reports whether a specifier names a remote file to be downloaded: true
/// exactly when it carries the scheme separator.
pub fn is_web_get(url: &str) -> (r: bool)
    ensures
        r == spec_is_remote(url@),
{
    contains_substr(url, "://")
}

/// The part of the string after its last `/`; the whole string when it has
/// no `/`.
pub open spec fn spec_after_last_slash(s: Seq<char>) -> Seq<char> {
    if exists|j: int| 0 <= j < s.len() && s[j] == '/' {
        let i = choose|i: int| 0 <= i < s.len() && s[i] == '/'
            && forall|k: int| i < k < s.len() ==> s[k] != '/';
        s.subrange(i + 1, s.len() as int)
    } else {
        s
    }
}

/// The local file name a URL downloads to: the final path segment.
pub fn url_file_name(url: &str) -> (r: String)
    ensures
        r@ == spec_after_last_slash(url@),
{
    match rfind_char(url, '/') {
        Some(i) => {
            let len = url.unicode_len();
            let r = copy_range(url, i + 1, len);
            proof {
                lemma_after_last_slash_is(url@, i as int);
            }
            r
        },
        None => {
            proof {
                if exists|j: int| 0 <= j < url@.len() && url@[j] == '/' {
                    let j = choose|j: int| 0 <= j < url@.len() && url@[j] == '/';
                    assert(url@[j] != '/');
                }
            }
            url.to_owned()
        },
    }
}

/// With a last `/` at `i`, the segment after it is the suffix from `i + 1`.
proof fn lemma_after_last_slash_is(s: Seq<char>, i: int)
    requires
        0 <= i < s.len(),
        s[i] == '/',
        forall|k: int| i < k < s.len() ==> s[k] != '/',
    ensures
        spec_after_last_slash(s) == s.subrange(i + 1, s.len() as int),
{
    assert(exists|j: int| 0 <= j < s.len() && s[j] == '/');
    let j = choose|j: int| 0 <= j < s.len() && s[j] == '/'
        && forall|k: int| j < k < s.len() ==> s[k] != '/';
    assert(0 <= j < s.len() && s[j] == '/'
        && forall|k: int| j < k < s.len() ==> s[k] != '/') by {
        assert(0 <= i < s.len() && s[i] == '/'
            && forall|k: int| i < k < s.len() ==> s[k] != '/');
    }
    if j < i {
        assert(s[i] != '/');
    } else if j > i {
        assert(s[j] != '/');
    }
}

/// Classifies one source specifier. A `git+` prefix asks for version
/// control, with the prefix stripped from the URL; a scheme separator
/// (`://`) marks a remote file to download and verify; anything else names a
/// pre-staged local file, still subject to verification.
pub fn classify_source(s: &str) -> (k: SourceKind)
    ensures
        spec_is_git(s@) ==> (k matches SourceKind::Git(u) && u@ == s@.skip(4)),
        !spec_is_git(s@) && spec_is_remote(s@) ==> (k matches SourceKind::Remote(u, f)
            && u@ == s@ && f@ == spec_after_last_slash(s@)),
        !spec_is_git(s@) && !spec_is_remote(s@) ==> (k matches SourceKind::Local(n)
            && n@ == s@),
{
    if starts_with_str(s, "git+") {
        proof {
            reveal_strlit("git+");
        }
        let len = s.unicode_len();
        let url = copy_range(s, 4, len);
        SourceKind::Git(url)
    } else if is_web_get(s) {
        let f = url_file_name(s);
        SourceKind::Remote(s.to_owned(), f)
    } else {
        SourceKind::Local(s.to_owned())
    }
}

} // verus!
