use vstd::prelude::*;

use crate::desc::{arch_name, Arch, PkgInfo};
use crate::manifest::{entry_model, EntryModel, Manifest, ManifestEntry};
use crate::text::{dec_digits, push_char, push_decimal};

verus! {

// ---------------------------------------------------------------------------
// Building blocks
// ---------------------------------------------------------------------------

/// One character as it appears inside a quoted value: the quote, the
/// backslash, and the newline, tab and carriage-return controls carry a
/// backslash escape; every other character stands for itself.
pub open spec fn escaped_char(c: char) -> Seq<char> {
    if c == '"' {
        seq!['\\', '"']
    } else if c == '\\' {
        seq!['\\', '\\']
    } else if c == '\n' {
        seq!['\\', 'n']
    } else if c == '\t' {
        seq!['\\', 't']
    } else if c == '\r' {
        seq!['\\', 'r']
    } else {
        seq![c]
    }
}

/// The text with every character escaped for use inside a quoted value.
pub open spec fn escaped(s: Seq<char>) -> Seq<char>
    decreases s.len(),
{
    if s.len() == 0 {
        Seq::empty()
    } else {
        escaped(s.drop_last()) + escaped_char(s.last())
    }
}

/// The text escaped and wrapped in double quotes.
pub open spec fn quoted(s: Seq<char>) -> Seq<char> {
    seq!['"'] + escaped(s) + seq!['"']
}

/// Appends the text with its characters escaped.
pub fn push_escaped(out: &mut String, v: &str)
    ensures
        final(out)@ == old(out)@ + escaped(v@),
{
    let n = v.unicode_len();
    let mut i: usize = 0;
    proof {
        assert(old(out)@ + escaped(v@.take(0)) =~= old(out)@);
    }
    while i < n
        invariant
            n == v@.len(),
            i <= n,
            out@ == old(out)@ + escaped(v@.take(i as int)),
        decreases n - i,
    {
        let c = v.get_char(i);
        proof {
            assert(v@.take(i + 1).drop_last() =~= v@.take(i as int));
            assert(v@.take(i + 1).last() == v@[i as int]);
        }
        if c == '"' {
            push_char(out, '\\');
            push_char(out, '"');
        } else if c == '\\' {
            push_char(out, '\\');
            push_char(out, '\\');
        } else if c == '\n' {
            push_char(out, '\\');
            push_char(out, 'n');
        } else if c == '\t' {
            push_char(out, '\\');
            push_char(out, 't');
        } else if c == '\r' {
            push_char(out, '\\');
            push_char(out, 'r');
        } else {
            push_char(out, c);
        }
        proof {
            assert(out@ =~= old(out)@ + escaped(v@.take(i + 1)));
        }
        i = i + 1;
    }
    proof {
        assert(v@.take(n as int) =~= v@);
    }
}

/// One key line holding a quoted string.
pub open spec fn kv_quoted(key: Seq<char>, v: Seq<char>) -> Seq<char> {
    key + quoted(v) + seq!['\n']
}

/// One key line holding a decimal number.
pub open spec fn kv_number(key: Seq<char>, n: int) -> Seq<char> {
    key + dec_digits(n) + seq!['\n']
}

/// The items quoted and separated by commas.
pub open spec fn comma_list(items: Seq<Seq<char>>) -> Seq<char>
    decreases items.len(),
{
    if items.len() == 0 {
        Seq::empty()
    } else if items.len() == 1 {
        quoted(items[0])
    } else {
        quoted(items[0]) + seq![',', ' '] + comma_list(items.drop_first())
    }
}

/// One key line holding a bracketed list of quoted items.
pub open spec fn kv_list(key: Seq<char>, items: Seq<Seq<char>>) -> Seq<char> {
    key + seq!['['] + comma_list(items) + seq![']', '\n']
}

/// Listing one more item appends a comma (when something was already there)
/// and the quoted item.
proof fn lemma_comma_push(items: Seq<Seq<char>>, x: Seq<char>)
    ensures
        items.len() == 0 ==> comma_list(items.push(x)) == quoted(x),
        items.len() > 0 ==> comma_list(items.push(x))
            == comma_list(items) + seq![',', ' '] + quoted(x),
    decreases items.len(),
{
    if items.len() == 0 {
        assert(comma_list(items.push(x)) == quoted(items.push(x)[0]));
        assert(items.push(x)[0] == x);
    } else if items.len() == 1 {
        assert(items.push(x).drop_first() =~= seq![x]);
        assert(comma_list(seq![x]) == quoted(x));
    } else {
        lemma_comma_push(items.drop_first(), x);
        assert(items.push(x).drop_first() =~= items.drop_first().push(x));
        assert(quoted(items[0]) + seq![',', ' ']
            + (comma_list(items.drop_first()) + seq![',', ' '] + quoted(x))
            =~= (quoted(items[0]) + seq![',', ' '] + comma_list(items.drop_first()))
                + seq![',', ' '] + quoted(x));
    }
}

/// Appends `key` and the quoted, escaped value, ending the line.
fn push_kv_quoted(out: &mut String, key: &str, v: &str)
    ensures
        final(out)@ == old(out)@ + kv_quoted(key@, v@),
{
    out.append(key);
    push_char(out, '"');
    push_escaped(out, v);
    push_char(out, '"');
    push_char(out, '\n');
    proof {
        assert(final(out)@ =~= old(out)@ + kv_quoted(key@, v@));
    }
}

/// Appends `key` and the decimal value, ending the line.
fn push_kv_number(out: &mut String, key: &str, n: u64)
    ensures
        final(out)@ == old(out)@ + kv_number(key@, n as int),
{
    out.append(key);
    push_decimal(n, out);
    push_char(out, '\n');
    proof {
        assert(final(out)@ =~= old(out)@ + kv_number(key@, n as int));
    }
}

/// Appends the quoted, comma-separated items between brackets.
fn push_item_list(out: &mut String, items: &Vec<String>)
    ensures
        final(out)@ == old(out)@ + seq!['['] + comma_list(items.deep_view()) + seq![']'],
{
    push_char(out, '[');
    let n = items.len();
    let mut i: usize = 0;
    while i < n
        invariant
            n == items.len(),
            i <= n,
            out@ == old(out)@ + seq!['['] + comma_list(items.deep_view().take(i as int)),
        decreases n - i,
    {
        let ghost before = items.deep_view().take(i as int);
        let ghost cur = items.deep_view()[i as int];
        if i > 0 {
            push_char(out, ',');
            push_char(out, ' ');
        }
        push_char(out, '"');
        push_escaped(out, items[i].as_str());
        push_char(out, '"');
        proof {
            lemma_comma_push(before, cur);
            assert(before.push(cur) =~= items.deep_view().take(i + 1));
            if i > 0 {
                assert(out@ =~= old(out)@ + seq!['[']
                    + (comma_list(before) + seq![',', ' '] + quoted(cur)));
            } else {
                assert(out@ =~= old(out)@ + seq!['['] + quoted(cur));
            }
        }
        i = i + 1;
    }
    push_char(out, ']');
    proof {
        assert(items.deep_view().take(n as int) =~= items.deep_view());
        assert(out@ =~= old(out)@ + seq!['['] + comma_list(items.deep_view()) + seq![']']);
    }
}

/// Appends `key` and the bracketed list of quoted items, ending the line.
fn push_kv_list(out: &mut String, key: &str, items: &Vec<String>)
    ensures
        final(out)@ == old(out)@ + kv_list(key@, items.deep_view()),
{
    out.append(key);
    push_item_list(out, items);
    push_char(out, '\n');
    proof {
        assert(final(out)@ =~= old(out)@ + kv_list(key@, items.deep_view()));
    }
}

// ---------------------------------------------------------------------------
// The metadata record text
// ---------------------------------------------------------------------------

/// The architecture names of a declared list.
pub open spec fn arch_names(a: Seq<Arch>) -> Seq<Seq<char>> {
    a.map_values(|x: Arch| arch_name(x))
}

/// The text of the persisted metadata record: one line per field.
pub open spec fn pkginfo_text(p: &PkgInfo) -> Seq<char> {
    kv_quoted("name = "@, p.name@) + kv_quoted("vers = "@, p.vers@) + kv_quoted(
        "desc = "@,
        p.desc@,
    ) + kv_quoted("builddate = "@, p.builddate@) + kv_quoted("url = "@, p.url@) + kv_number(
        "size = "@,
        p.size as int,
    ) + kv_list("arch = "@, arch_names(p.arch@)) + kv_quoted("license = "@, p.license@) + kv_list(
        "conflicts = "@,
        p.conflicts.deep_view(),
    ) + kv_quoted("provides = "@, p.provides@) + kv_list("deps = "@, p.deps.deep_view()) + kv_list(
        "maintainers = "@,
        p.maintainers.deep_view(),
    )
}

/// Renders the metadata record for writing into the package tree.
pub fn render_pkginfo(p: &PkgInfo) -> (r: String)
    ensures
        r@ == pkginfo_text(p),
{
    let mut out = String::new();
    push_kv_quoted(&mut out, "name = ", p.name.as_str());
    push_kv_quoted(&mut out, "vers = ", p.vers.as_str());
    push_kv_quoted(&mut out, "desc = ", p.desc.as_str());
    push_kv_quoted(&mut out, "builddate = ", p.builddate.as_str());
    push_kv_quoted(&mut out, "url = ", p.url.as_str());
    push_kv_number(&mut out, "size = ", p.size);
    let mut names: Vec<String> = Vec::new();
    let n = p.arch.len();
    let mut i: usize = 0;
    while i < n
        invariant
            n == p.arch.len(),
            i <= n,
            names@.len() == i,
            forall|j: int| 0 <= j < i ==> names@[j]@ == arch_name(p.arch@[j]),
        decreases n - i,
    {
        names.push(p.arch[i].as_str().to_owned());
        i = i + 1;
    }
    proof {
        assert(names.deep_view() =~= arch_names(p.arch@));
    }
    push_kv_list(&mut out, "arch = ", &names);
    push_kv_quoted(&mut out, "license = ", p.license.as_str());
    push_kv_list(&mut out, "conflicts = ", &p.conflicts);
    push_kv_quoted(&mut out, "provides = ", p.provides.as_str());
    push_kv_list(&mut out, "deps = ", &p.deps);
    push_kv_list(&mut out, "maintainers = ", &p.maintainers);
    proof {
        assert(out@ =~= pkginfo_text(p));
    }
    out
}

// ---------------------------------------------------------------------------
// The manifest text
// ---------------------------------------------------------------------------

/// The text of one manifest entry: a section header and one line per field.
pub open spec fn entry_text(e: EntryModel) -> Seq<char> {
    "[[entries]]\n"@ + kv_quoted("path = "@, e.path) + kv_quoted("time = "@, e.time) + kv_number(
        "size = "@,
        e.size,
    ) + kv_quoted("checksum = "@, e.checksum) + kv_number("mode = "@, e.mode as int)
}

/// The text of a whole manifest: its entries' texts in order.
pub open spec fn entries_text(entries: Seq<EntryModel>) -> Seq<char>
    decreases entries.len(),
{
    if entries.len() == 0 {
        Seq::empty()
    } else {
        entries_text(entries.drop_last()) + entry_text(entries.last())
    }
}

/// Renders the manifest for writing into the package tree.
pub fn render_manifest(m: &Manifest) -> (r: String)
    ensures
        r@ == entries_text(m.entries@.map_values(|e: ManifestEntry| entry_model(e))),
{
    let mut out = String::new();
    let n = m.entries.len();
    let ghost models = m.entries@.map_values(|e: ManifestEntry| entry_model(e));
    let mut i: usize = 0;
    while i < n
        invariant
            n == m.entries.len(),
            models == m.entries@.map_values(|e: ManifestEntry| entry_model(e)),
            i <= n,
            out@ == entries_text(models.take(i as int)),
        decreases n - i,
    {
        let ghost start = out@;
        let e = &m.entries[i];
        out.append("[[entries]]\n");
        push_kv_quoted(&mut out, "path = ", e.path.as_str());
        push_kv_quoted(&mut out, "time = ", e.time.as_str());
        push_kv_number(&mut out, "size = ", e.size);
        push_kv_quoted(&mut out, "checksum = ", e.checksum.as_str());
        push_kv_number(&mut out, "mode = ", e.mode as u64);
        proof {
            assert(models.take(i + 1).drop_last() =~= models.take(i as int));
            assert(models.take(i + 1).last() == models[i as int]);
            assert(models[i as int] == entry_model(m.entries@[i as int]));
            assert(out@ =~= start + entry_text(models[i as int]));
        }
        i = i + 1;
    }
    proof {
        assert(models.take(n as int) =~= models);
    }
    out
}

} // verus!
