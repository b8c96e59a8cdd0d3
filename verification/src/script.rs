use vstd::prelude::*;

use crate::desc::CleanDesc;
use crate::text::push_char;

verus! {

// ---------------------------------------------------------------------------
// Script joining
// ---------------------------------------------------------------------------

/// The command lines joined into one shell command: a statement separator
/// ends every line, and a space stands between consecutive lines. Running
/// the joined text as a single shell invocation lets environment exports,
/// directory changes and other shell state persist across lines.
pub open spec fn joined_script(lines: Seq<Seq<char>>) -> Seq<char>
    decreases lines.len(),
{
    if lines.len() == 0 {
        Seq::empty()
    } else if lines.len() == 1 {
        lines[0] + seq![';']
    } else {
        lines[0] + seq![';', ' '] + joined_script(lines.drop_first())
    }
}

/// Joining one more line appends a space (when something was already there),
/// the line, and the separator.
pub proof fn lemma_joined_push(lines: Seq<Seq<char>>, l: Seq<char>)
    ensures
        lines.len() == 0 ==> joined_script(lines.push(l)) == l + seq![';'],
        lines.len() > 0 ==> joined_script(lines.push(l))
            == joined_script(lines) + seq![' '] + l + seq![';'],
    decreases lines.len(),
{
    if lines.len() == 0 {
        assert(lines.push(l)[0] == l);
    } else if lines.len() == 1 {
        assert(lines.push(l).drop_first() =~= seq![l]);
        assert(joined_script(seq![l]) == l + seq![';']);
        assert(lines[0] + seq![';', ' '] + (l + seq![';'])
            =~= (lines[0] + seq![';']) + seq![' '] + l + seq![';']);
    } else {
        lemma_joined_push(lines.drop_first(), l);
        assert(lines.push(l).drop_first() =~= lines.drop_first().push(l));
        assert(lines[0] + seq![';', ' ']
            + (joined_script(lines.drop_first()) + seq![' '] + l + seq![';'])
            =~= (lines[0] + seq![';', ' '] + joined_script(lines.drop_first()))
                + seq![' '] + l + seq![';']);
    }
}

/// Joins an ordered list of command lines into the single shell command that
/// executes them in one invocation.
pub fn join_script(lines: &Vec<String>) -> (r: String)
    ensures
        r@ == joined_script(lines.deep_view()),
{
    let mut out = String::new();
    let n = lines.len();
    let mut i: usize = 0;
    proof {
        assert(lines.deep_view().take(0) =~= Seq::<Seq<char>>::empty());
    }
    while i < n
        invariant
            n == lines.len(),
            i <= n,
            out@ == joined_script(lines.deep_view().take(i as int)),
        decreases n - i,
    {
        let ghost before = lines.deep_view().take(i as int);
        let ghost cur = lines.deep_view()[i as int];
        if i > 0 {
            push_char(&mut out, ' ');
        }
        out.append(lines[i].as_str());
        push_char(&mut out, ';');
        proof {
            lemma_joined_push(before, cur);
            assert(before.push(cur) =~= lines.deep_view().take(i + 1));
            if i > 0 {
                assert(out@ =~= joined_script(before) + seq![' '] + cur + seq![';']);
            } else {
                assert(out@ =~= cur + seq![';']);
            }
        }
        i = i + 1;
    }
    proof {
        assert(lines.deep_view().take(n as int) =~= lines.deep_view());
    }
    out
}

/// The single shell command for the clean script, when one is declared.
pub fn clean_command(c: &CleanDesc) -> (r: Option<String>)
    ensures
        match r {
            Some(cmd) => c.script matches Some(s) && cmd@ == joined_script(s.deep_view()),
            None => c.script is None,
        },
{
    match &c.script {
        Some(s) => Some(join_script(s)),
        None => None,
    }
}

} // verus!
