//! `gitree switch` and `gitree root`: the text they print.

use vstd::prelude::*;

use crate::error::{ErrorView, Result};
use crate::paths::path_join;
use crate::repo::Wrapper;
use crate::text::{push_str, replace, replace_str};
use crate::types::{branch_name_error, WorktreePath};

verus! {

/// `s` in single quotes, each `'` written as `'\''` (POSIX shell quoting).
pub open spec fn shell_quoted(s: Seq<char>) -> Seq<char> {
    "'"@ + replace(s, "'"@, "'\\''"@) + "'"@
}

/// Shell-escapes a path for use in a `cd '...'` command.
///
/// Replaces any single quote `'` with `'\''` (the standard POSIX escaping
/// pattern) and wraps the entire string in single quotes.
pub fn shell_escape(s: &str) -> (r: String)
    ensures
        r@ == shell_quoted(s@),
{
    proof {
        reveal_strlit("'");
    }
    let escaped = replace_str(s, "'", "'\\''");
    let mut r = String::new();
    push_str(&mut r, "'");
    push_str(&mut r, escaped.as_str());
    push_str(&mut r, "'");
    r
}

/// The line `gitree switch` prints for a worktree at `path`:
/// `cd '<path>'` and a newline.
pub fn cd_line(path: &str) -> (r: String)
    ensures
        r@ == "cd "@ + shell_quoted(path@) + "\n"@,
{
    let mut r = String::new();
    push_str(&mut r, "cd ");
    let q = shell_escape(path);
    push_str(&mut r, q.as_str());
    push_str(&mut r, "\n");
    r
}

/// The worktree `gitree switch <branch>` changes to: the validated branch's
/// directory in the wrapper.  Whether it exists is for the caller to check.
pub fn switch_target(wrapper: &Wrapper, branch: &str) -> (r: Result<WorktreePath>)
    ensures
        match branch_name_error(branch@) {
            None => r matches Ok(p) && p@ == path_join(wrapper@, branch@),
            Some(m) => r matches Err(e) && e@ == ErrorView::Other(m),
        },
{
    match crate::types::BranchName::new(branch) {
        Ok(b) => Ok(wrapper.worktree_path(b.as_str())),
        Err(e) => Err(e),
    }
}


/// `p` before the value `o` holds, if it holds one.
pub open spec fn prepend(p: Seq<char>, o: Option<Seq<char>>) -> Option<Seq<char>> {
    match o {
        Some(v) => Some(p + v),
        None => None,
    }
}

/// The value a POSIX shell gives the word `w` when `w` is made of
/// single-quoted runs and backslash-escaped characters only (`quoted`:
/// whether a single-quoted run is open); `None` for any other word.
pub open spec fn sh_word_value(w: Seq<char>, quoted: bool) -> Option<Seq<char>>
    decreases w.len(),
{
    if w.len() == 0 {
        if quoted {
            None
        } else {
            Some(Seq::empty())
        }
    } else if quoted {
        if w[0] == '\'' {
            sh_word_value(w.drop_first(), false)
        } else {
            prepend(seq![w[0]], sh_word_value(w.drop_first(), true))
        }
    } else if w[0] == '\'' {
        sh_word_value(w.drop_first(), true)
    } else if w[0] == '\\' && w.len() >= 2 {
        prepend(seq![w[1]], sh_word_value(w.skip(2), false))
    } else {
        None
    }
}

proof fn lemma_quoted_run(s: Seq<char>, t: Seq<char>)
    ensures
        sh_word_value(replace(s, "'"@, "'\\''"@) + "'"@ + t, true) == prepend(
            s,
            sh_word_value(t, false),
        ),
    decreases s.len(),
{
    reveal_strlit("'");
    reveal_strlit("'\\''");
    let q = "'"@;
    let to = "'\\''"@;
    let x = sh_word_value(t, false);
    if s.len() == 0 {
        let w = q + t;
        assert(replace(s, q, to) == s);
        assert(replace(s, q, to) + q + t =~= w);
        assert(w.drop_first() =~= t);
        assert(w[0] == '\'');
        match x {
            Some(v) => assert(s + v =~= v),
            None => {},
        }
    } else if s[0] == '\'' {
        assert(s.subrange(0, 1) =~= q);
        let r = replace(s.skip(1), q, to);
        assert(replace(s, q, to) == to + r);
        let w = to + r + q + t;
        lemma_quoted_run(s.skip(1), t);
        let w1 = w.drop_first();
        let w2 = w1.skip(2);
        assert(w[0] == '\'');
        assert(w1[0] == '\\');
        assert(w1[1] == '\'');
        assert(w2[0] == '\'');
        assert(w2.drop_first() =~= r + q + t);
        assert(sh_word_value(w2, false) == sh_word_value(w2.drop_first(), true));
        assert(sh_word_value(w1, false) == prepend(seq!['\''], sh_word_value(w2, false)));
        assert(sh_word_value(w, true) == sh_word_value(w1, false));
        assert(replace(s, q, to) + q + t =~= w);
        match x {
            Some(v) => assert(seq!['\''] + (s.skip(1) + v) =~= s + v),
            None => {},
        }
    } else {
        assert(s.subrange(0, 1) != q) by {
            assert(s.subrange(0, 1)[0] == s[0]);
        }
        let r = replace(s.drop_first(), q, to);
        assert(replace(s, q, to) == seq![s[0]] + r);
        let w = seq![s[0]] + r + q + t;
        lemma_quoted_run(s.drop_first(), t);
        assert(w[0] == s[0]);
        assert(w.drop_first() =~= r + q + t);
        assert(replace(s, q, to) + q + t =~= w);
        match x {
            Some(v) => assert(seq![s[0]] + (s.drop_first() + v) =~= s + v),
            None => {},
        }
    }
}

/// A shell-quoted path reads back, in a POSIX shell, as exactly the path:
/// spaces, quotes and dollar signs included.
pub proof fn lemma_shell_quoted_round_trip(s: Seq<char>)
    ensures
        sh_word_value(shell_quoted(s), false) == Some(s),
{
    reveal_strlit("'");
    let q = "'"@;
    let inner = replace(s, q, "'\\''"@);
    let w = shell_quoted(s);
    assert(w == q + inner + q);
    assert(w[0] == '\'');
    assert(w.drop_first() =~= inner + q + Seq::<char>::empty());
    lemma_quoted_run(s, Seq::empty());
    assert(sh_word_value(Seq::<char>::empty(), false) == Some(Seq::<char>::empty()));
    assert(s + Seq::<char>::empty() =~= s);
}

} // verus!
