use vstd::prelude::*;

verus! {

// ---------------------------------------------------------------------------
// Appending characters
// ---------------------------------------------------------------------------

/// Relies on std's String::push: appends the given character to the end of
/// the string.
#[verifier::external_body]
pub fn push_char(s: &mut String, c: char)
    ensures
        final(s)@ == old(s)@.push(c),
{
    s.push(c);
}

// ---------------------------------------------------------------------------
// Equality and containment
// ---------------------------------------------------------------------------

/// Character-for-character equality of two string slices.
pub fn str_eq(a: &str, b: &str) -> (r: bool)
    ensures
        r == (a@ == b@),
{
    let a_len = a.unicode_len();
    let b_len = b.unicode_len();
    if a_len != b_len {
        assert(a@ != b@) by {
            assert(a@.len() != b@.len());
        }
        return false;
    }
    let mut i: usize = 0;
    while i < a_len
        invariant
            a_len == a@.len(),
            b_len == b@.len(),
            a_len == b_len,
            i <= a_len,
            forall|j: int| 0 <= j < i ==> a@[j] == b@[j],
        decreases a_len - i,
    {
        if a.get_char(i) != b.get_char(i) {
            return false;
        }
        i = i + 1;
    }
    proof {
        assert(a@ =~= b@);
    }
    true
}

/// True when the pattern occurs in `s` starting at position `i`.
pub open spec fn matches_at(s: Seq<char>, pat: Seq<char>, i: int) -> bool {
    0 <= i && i + pat.len() <= s.len() && s.subrange(i, i + pat.len() as int) == pat
}

/// True when the pattern occurs somewhere in `s`.
pub open spec fn spec_contains(s: Seq<char>, pat: Seq<char>) -> bool {
    exists|i: int| matches_at(s, pat, i)
}

/// Substring search: reports whether `pat` occurs anywhere in `s`.
pub fn contains_substr(s: &str, pat: &str) -> (r: bool)
    ensures
        r == spec_contains(s@, pat@),
{
    let s_len = s.unicode_len();
    let pat_len = pat.unicode_len();
    if pat_len == 0 {
        assert(matches_at(s@, pat@, 0)) by {
            assert(s@.subrange(0, 0) =~= pat@);
        }
        return true;
    }
    if pat_len > s_len {
        assert(!spec_contains(s@, pat@)) by {
            assert(forall|i: int| !matches_at(s@, pat@, i));
        }
        return false;
    }
    let mut i: usize = 0;
    while i <= s_len - pat_len
        invariant
            s_len == s@.len(),
            pat_len == pat@.len(),
            0 < pat_len <= s_len,
            i <= s_len - pat_len + 1,
            forall|k: int| 0 <= k < i ==> !matches_at(s@, pat@, k),
        decreases s_len - pat_len + 1 - i,
    {
        let mut j: usize = 0;
        let mut hit = true;
        while j < pat_len
            invariant
                s_len == s@.len(),
                pat_len == pat@.len(),
                i + pat_len <= s_len,
                j <= pat_len,
                hit ==> forall|t: int| 0 <= t < j ==> s@[i + t] == pat@[t],
                !hit ==> !matches_at(s@, pat@, i as int),
            decreases pat_len - j,
        {
            if s.get_char(i + j) != pat.get_char(j) {
                assert(!matches_at(s@, pat@, i as int)) by {
                    if matches_at(s@, pat@, i as int) {
                        assert(forall|t: int| 0 <= t < pat@.len() ==>
                            #[trigger] s@.subrange(i as int, i + pat@.len() as int)[t]
                                == s@[i + t]);
                    }
                }
                hit = false;
                j = pat_len;
            } else {
                j = j + 1;
            }
        }
        if hit {
            assert(matches_at(s@, pat@, i as int)) by {
                assert(s@.subrange(i as int, i + pat@.len() as int) =~= pat@);
            }
            return true;
        }
        i = i + 1;
    }
    assert(forall|k: int| !matches_at(s@, pat@, k));
    false
}

/// True when `pre` is a prefix of `s`.
pub open spec fn spec_starts_with(s: Seq<char>, pre: Seq<char>) -> bool {
    pre.len() <= s.len() && s.subrange(0, pre.len() as int) == pre
}

/// Reports whether the string begins with the given prefix.
pub fn starts_with_str(s: &str, pre: &str) -> (r: bool)
    ensures
        r == spec_starts_with(s@, pre@),
{
    let s_len = s.unicode_len();
    let pre_len = pre.unicode_len();
    if pre_len > s_len {
        return false;
    }
    let mut j: usize = 0;
    while j < pre_len
        invariant
            s_len == s@.len(),
            pre_len == pre@.len(),
            pre_len <= s_len,
            j <= pre_len,
            forall|t: int| 0 <= t < j ==> s@[t] == pre@[t],
        decreases pre_len - j,
    {
        if s.get_char(j) != pre.get_char(j) {
            assert(!spec_starts_with(s@, pre@)) by {
                if spec_starts_with(s@, pre@) {
                    assert(forall|t: int| 0 <= t < pre@.len() ==>
                        s@[t] == s@.subrange(0, pre@.len() as int)[t]);
                }
            }
            return false;
        }
        j = j + 1;
    }
    assert(s@.subrange(0, pre@.len() as int) =~= pre@);
    true
}

/// The position of the last occurrence of `c` in `s`, if any.
pub fn rfind_char(s: &str, c: char) -> (r: Option<usize>)
    ensures
        match r {
            Some(i) => i < s@.len() && s@[i as int] == c
                && forall|j: int| i < j < s@.len() ==> s@[j] != c,
            None => forall|j: int| 0 <= j < s@.len() ==> s@[j] != c,
        },
{
    let s_len = s.unicode_len();
    let mut i: usize = s_len;
    while i > 0
        invariant
            s_len == s@.len(),
            i <= s_len,
            forall|j: int| i <= j < s@.len() ==> s@[j] != c,
        decreases i,
    {
        i = i - 1;
        if s.get_char(i) == c {
            return Some(i);
        }
    }
    None
}

/// An owned copy of the characters of `s` from `from` (inclusive) to `to`
/// (exclusive).
pub fn copy_range(s: &str, from: usize, to: usize) -> (r: String)
    requires
        from <= to <= s@.len(),
    ensures
        r@ == s@.subrange(from as int, to as int),
{
    s.substring_char(from, to).to_owned()
}

// ---------------------------------------------------------------------------
// Splitting and joining on a separator character
// ---------------------------------------------------------------------------

/// The position of the first occurrence of `c` in `s`, or `-1` when absent.
pub open spec fn find_char(s: Seq<char>, c: char) -> int
    decreases s.len(),
{
    if s.len() == 0 {
        -1
    } else if s[0] == c {
        0
    } else {
        let r = find_char(s.drop_first(), c);
        if r < 0 {
            -1
        } else {
            r + 1
        }
    }
}

/// What `find_char` returns: the least position holding `c`, or `-1`.
pub proof fn lemma_find_char(s: Seq<char>, c: char)
    ensures
        -1 <= find_char(s, c) < s.len(),
        find_char(s, c) >= 0 ==> s[find_char(s, c)] == c
            && forall|j: int| 0 <= j < find_char(s, c) ==> s[j] != c,
        find_char(s, c) < 0 ==> forall|j: int| 0 <= j < s.len() ==> s[j] != c,
    decreases s.len(),
{
    if s.len() == 0 {
    } else if s[0] == c {
    } else {
        lemma_find_char(s.drop_first(), c);
        let r = find_char(s.drop_first(), c);
        if r >= 0 {
            assert(forall|j: int| 1 <= j < r + 1 ==> s[j] == s.drop_first()[j - 1]);
        } else {
            assert(forall|j: int| 1 <= j < s.len() ==> s[j] == s.drop_first()[j - 1]);
        }
    }
}

/// `find_char` returns `k` exactly when `k` holds `c` and nothing before it
/// does.
pub proof fn lemma_find_char_is(s: Seq<char>, c: char, k: int)
    requires
        0 <= k < s.len(),
        s[k] == c,
        forall|j: int| 0 <= j < k ==> s[j] != c,
    ensures
        find_char(s, c) == k,
{
    lemma_find_char(s, c);
    let f = find_char(s, c);
    if f < 0 {
        assert(s[k] != c);
    } else if f < k {
        assert(s[f] != c);
    } else if f > k {
        assert(s[k] != c);
    }
}

/// The components of `s` separated by `c`. A string without the separator is
/// one component; each separator ends a component, so `n` separators give
/// `n + 1` components, empty ones included.
pub open spec fn split_char(s: Seq<char>, c: char) -> Seq<Seq<char>>
    decreases s.len(),
{
    let i = find_char(s, c);
    if i < 0 {
        seq![s]
    } else if 0 <= i < s.len() {
        seq![s.subrange(0, i)] + split_char(s.subrange(i + 1, s.len() as int), c)
    } else {
        // find_char stays within bounds; this arm is never taken.
        seq![s]
    }
}

/// The components joined back with `c` between them.
pub open spec fn join_char(parts: Seq<Seq<char>>, c: char) -> Seq<char>
    decreases parts.len(),
{
    if parts.len() == 0 {
        Seq::empty()
    } else if parts.len() == 1 {
        parts[0]
    } else {
        parts[0] + seq![c] + join_char(parts.drop_first(), c)
    }
}

/// Joining after appending one more component appends a separator (when
/// something was already there) and the component.
pub proof fn lemma_join_push(parts: Seq<Seq<char>>, p: Seq<char>, c: char)
    ensures
        parts.len() == 0 ==> join_char(parts.push(p), c) == p,
        parts.len() > 0 ==> join_char(parts.push(p), c) == join_char(parts, c) + seq![c] + p,
    decreases parts.len(),
{
    if parts.len() == 0 {
        assert(join_char(parts.push(p), c) == parts.push(p)[0]);
        assert(parts.push(p)[0] == p);
    } else if parts.len() == 1 {
        assert(parts.push(p).drop_first() =~= seq![p]);
        assert(join_char(seq![p], c) == p);
    } else {
        lemma_join_push(parts.drop_first(), p, c);
        assert(parts.push(p).drop_first() =~= parts.drop_first().push(p));
        assert(join_char(parts.push(p), c)
            == parts[0] + seq![c] + join_char(parts.drop_first().push(p), c));
        assert(parts[0] + seq![c]
            + (join_char(parts.drop_first(), c) + seq![c] + p)
            =~= (parts[0] + seq![c] + join_char(parts.drop_first(), c)) + seq![c] + p);
    }
}

/// Splits `s` into its `c`-separated components.
pub fn split_on(s: &str, c: char) -> (r: Vec<String>)
    ensures
        r.deep_view() == split_char(s@, c),
{
    let s_len = s.unicode_len();
    let mut out: Vec<String> = Vec::new();
    let mut start: usize = 0;
    let mut i: usize = 0;
    proof {
        assert(s@.subrange(0, s_len as int) =~= s@);
        assert(out.deep_view() =~= Seq::<Seq<char>>::empty());
        assert(out.deep_view() + split_char(s@, c) =~= split_char(s@, c));
    }
    while i < s_len
        invariant
            s_len == s@.len(),
            start <= i <= s_len,
            forall|j: int| start <= j < i ==> s@[j] != c,
            split_char(s@, c) == out.deep_view()
                + split_char(s@.subrange(start as int, s_len as int), c),
        decreases s_len - i,
    {
        if s.get_char(i) == c {
            let piece = copy_range(s, start, i);
            proof {
                let tail = s@.subrange(start as int, s_len as int);
                let k = i - start;
                assert(tail[k] == c);
                assert(forall|j: int| 0 <= j < k ==> tail[j] == s@[start + j] && tail[j] != c);
                lemma_find_char_is(tail, c, k as int);
                assert(tail.subrange(0, k as int) =~= s@.subrange(start as int, i as int));
                assert(tail.subrange(k + 1, tail.len() as int)
                    =~= s@.subrange(i + 1, s_len as int));
                assert(split_char(tail, c) == seq![piece@]
                    + split_char(s@.subrange(i + 1, s_len as int), c));
                assert(out.deep_view().push(piece@) + split_char(s@.subrange(i + 1, s_len as int), c)
                    =~= out.deep_view() + (seq![piece@]
                        + split_char(s@.subrange(i + 1, s_len as int), c)));
            }
            out.push(piece);
            proof {
                assert(out.deep_view() =~= out.deep_view().subrange(0, out.deep_view().len() - 1).push(piece@));
            }
            start = i + 1;
        }
        i = i + 1;
    }
    let piece = copy_range(s, start, s_len);
    proof {
        let tail = s@.subrange(start as int, s_len as int);
        lemma_find_char(tail, c);
        if find_char(tail, c) >= 0 {
            assert(tail[find_char(tail, c)] != c);
        }
        assert(split_char(tail, c) == seq![tail]);
        assert(out.deep_view().push(piece@) =~= out.deep_view() + seq![tail]);
    }
    out.push(piece);
    proof {
        assert(out.deep_view() =~= out.deep_view().subrange(0, out.deep_view().len() - 1).push(out.deep_view().last()));
    }
    out
}

/// Joins the parts with `c` between consecutive parts.
pub fn join_with(parts: &Vec<String>, c: char) -> (r: String)
    ensures
        r@ == join_char(parts.deep_view(), c),
{
    let mut out = String::new();
    let n = parts.len();
    let mut i: usize = 0;
    while i < n
        invariant
            n == parts.len(),
            i <= n,
            out@ == join_char(parts.deep_view().take(i as int), c),
        decreases n - i,
    {
        if i > 0 {
            push_char(&mut out, c);
        }
        let ghost before = parts.deep_view().take(i as int);
        out.append(parts[i].as_str());
        proof {
            lemma_join_push(before, parts.deep_view()[i as int], c);
            assert(before.push(parts.deep_view()[i as int])
                =~= parts.deep_view().take(i + 1));
        }
        i = i + 1;
    }
    proof {
        assert(parts.deep_view().take(n as int) =~= parts.deep_view());
    }
    out
}

/// No component of a split contains the separator.
pub proof fn lemma_split_components_free(s: Seq<char>, c: char)
    ensures
        forall|k: int| 0 <= k < split_char(s, c).len()
            ==> !(#[trigger] split_char(s, c)[k]).contains(c),
    decreases s.len(),
{
    lemma_find_char(s, c);
    let i = find_char(s, c);
    if i < 0 {
        assert(split_char(s, c) == seq![s]);
        assert(!s.contains(c)) by {
            if s.contains(c) {
                let j = choose|j: int| 0 <= j < s.len() && s[j] == c;
                assert(s[j] != c);
            }
        }
        assert(forall|k: int| 0 <= k < split_char(s, c).len()
            ==> split_char(s, c)[k] == s);
    } else {
        let pre = s.subrange(0, i);
        let rest = s.subrange(i + 1, s.len() as int);
        assert(split_char(s, c) == seq![pre] + split_char(rest, c));
        assert(!pre.contains(c)) by {
            if pre.contains(c) {
                let j = choose|j: int| 0 <= j < pre.len() && pre[j] == c;
                assert(s[j] == pre[j]);
            }
        }
        lemma_split_components_free(rest, c);
        assert forall|k: int| 0 <= k < split_char(s, c).len()
            implies !(#[trigger] split_char(s, c)[k]).contains(c) by {
            if k == 0 {
                assert(split_char(s, c)[k] == pre);
            } else {
                assert(split_char(s, c)[k] == split_char(rest, c)[k - 1]);
            }
        }
    }
}

/// Splitting a join of separator-free components gives the components back.
pub proof fn lemma_split_join(parts: Seq<Seq<char>>, c: char)
    requires
        parts.len() > 0,
        forall|k: int| 0 <= k < parts.len() ==> !(#[trigger] parts[k]).contains(c),
    ensures
        split_char(join_char(parts, c), c) == parts,
    decreases parts.len(),
{
    let s = join_char(parts, c);
    if parts.len() == 1 {
        assert(s == parts[0]);
        lemma_find_char(s, c);
        if find_char(s, c) >= 0 {
            assert(s.contains(c)) by {
                assert(s[find_char(s, c)] == c);
            }
        }
        assert(split_char(s, c) == seq![s]);
        assert(seq![s] =~= parts);
    } else {
        let head = parts[0];
        let tail = join_char(parts.drop_first(), c);
        assert(s == head + seq![c] + tail);
        let hl = head.len() as int;
        assert(s[hl] == c) by {
            assert((head + seq![c])[hl] == c);
        }
        assert(forall|j: int| 0 <= j < hl ==> s[j] == head[j]);
        assert(forall|j: int| 0 <= j < hl ==> s[j] != c) by {
            if exists|j: int| 0 <= j < hl && s[j] == c {
                let j = choose|j: int| 0 <= j < hl && s[j] == c;
                assert(head.contains(c)) by {
                    assert(head[j] == c);
                }
            }
        }
        lemma_find_char_is(s, c, hl);
        assert(split_char(s, c) == seq![s.subrange(0, hl)]
            + split_char(s.subrange(hl + 1, s.len() as int), c));
        assert(s.subrange(0, hl) =~= head);
        assert(s.subrange(hl + 1, s.len() as int) =~= tail);
        assert(forall|k: int| 0 <= k < parts.drop_first().len()
            ==> #[trigger] parts.drop_first()[k] == parts[k + 1]);
        lemma_split_join(parts.drop_first(), c);
        assert(seq![head] + parts.drop_first() =~= parts);
    }
}

/// A property of every element survives filtering.
pub proof fn lemma_filter_preserves<A>(s: Seq<A>, pred: spec_fn(A) -> bool, prop: spec_fn(A) -> bool)
    requires
        forall|i: int| 0 <= i < s.len() ==> prop(#[trigger] s[i]),
    ensures
        forall|i: int| 0 <= i < s.filter(pred).len() ==> prop(#[trigger] s.filter(pred)[i]),
    decreases s.len(),
{
    if s.len() > 0 {
        let head = s.drop_last();
        assert(s =~= head.push(s.last()));
        assert(forall|i: int| 0 <= i < head.len() ==> head[i] == s[i]);
        lemma_filter_preserves(head, pred, prop);
        lemma_filter_push(head, s.last(), pred);
        let kept = s.filter(pred);
        assert forall|i: int| 0 <= i < kept.len() implies prop(#[trigger] kept[i]) by {
            if pred(s.last()) {
                assert(kept == head.filter(pred).push(s.last()));
                if i < kept.len() - 1 {
                    assert(kept[i] == head.filter(pred)[i]);
                } else {
                    assert(kept[i] == s.last());
                }
            } else {
                assert(kept == head.filter(pred));
            }
        }
    }
}

/// Filtering after appending one element keeps the element exactly when the
/// predicate holds of it.
pub proof fn lemma_filter_push<A>(s: Seq<A>, x: A, pred: spec_fn(A) -> bool)
    ensures
        pred(x) ==> (s.push(x)).filter(pred) == s.filter(pred).push(x),
        !pred(x) ==> (s.push(x)).filter(pred) == s.filter(pred),
{
    reveal(Seq::filter);
    let sx = s.push(x);
    assert(sx.len() > 0);
    assert(sx.drop_last() =~= s);
    assert(sx.last() == x);
    assert(sx.filter(pred) == if pred(sx.last()) {
        sx.drop_last().filter(pred).push(sx.last())
    } else {
        sx.drop_last().filter(pred)
    });
}

// ---------------------------------------------------------------------------
// Decimal rendering
// ---------------------------------------------------------------------------

/// The character for one decimal digit value.
pub open spec fn digit_char(d: int) -> char {
    ((d + 48) as u8) as char
}

/// The decimal digits of `n`, most significant first.
pub open spec fn dec_digits(n: int) -> Seq<char>
    decreases n,
{
    if n < 10 {
        seq![digit_char(if n >= 0 { n } else { 0 })]
    } else {
        dec_digits(n / 10).push(digit_char(n % 10))
    }
}

/// Appends the decimal rendering of `n` to `out`.
pub fn push_decimal(n: u64, out: &mut String)
    ensures
        final(out)@ == old(out)@ + dec_digits(n as int),
    decreases n,
{
    if n >= 10 {
        push_decimal(n / 10, out);
    }
    let d: u8 = (n % 10) as u8;
    push_char(out, (48 + d) as char);
    proof {
        if n >= 10 {
            assert(dec_digits(n as int) == dec_digits(n as int / 10).push(digit_char(n as int % 10)));
            assert(old(out)@ + dec_digits(n as int)
                =~= (old(out)@ + dec_digits(n as int / 10)).push(digit_char(n as int % 10)));
        } else {
            assert(dec_digits(n as int) == seq![digit_char(n as int)]);
            assert(old(out)@ + dec_digits(n as int) =~= old(out)@.push(digit_char(n as int)));
        }
    }
}

/// The decimal rendering of `n`.
pub fn u64_to_string(n: u64) -> (r: String)
    ensures
        r@ == dec_digits(n as int),
{
    let mut out = String::new();
    push_decimal(n, &mut out);
    proof {
        assert(Seq::<char>::empty() + dec_digits(n as int) =~= dec_digits(n as int));
    }
    out
}

} // verus!
