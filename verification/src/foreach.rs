//! The decisions of `gitree foreach`, which runs a command in every
//! worktree: which worktrees take part, and what is shown and returned for
//! each run.

use vstd::prelude::*;

use crate::branch_glob::{glob_matches, BranchFilter};
use crate::error::{ErrorView, GitreeError, Result};
use crate::format::{branch_or_detached, shown_branch};
use crate::git::{entry_views, EntryView, WorktreeEntry};
use crate::text::{copy_str, decimal, opt_view, push_str, push_wide_decimal};

verus! {

/// Options for `gitree foreach`.
#[derive(Debug, Clone)]
pub struct ForeachOptions {
    /// The command to run (passed to `sh -c`).
    pub command: String,
    /// Run in parallel using threads.
    pub parallel: bool,
    /// Filter worktrees by branch glob pattern.
    pub only: Option<String>,
}

/// The branch a worktree is filtered by: its branch, or the empty string
/// when detached.
pub open spec fn filter_key(b: Option<Seq<char>>) -> Seq<char> {
    match b {
        Some(b) => b,
        None => Seq::empty(),
    }
}

/// Whether a worktree takes part: it is not bare and, with a pattern, its
/// branch matches it.
pub open spec fn takes_part(pattern: Option<Seq<char>>, e: EntryView) -> bool {
    !e.bare && match pattern {
        Some(p) => glob_matches(p, filter_key(e.branch)),
        None => true,
    }
}

/// The worktrees of `es` that take part, in order.
pub open spec fn participants(pattern: Option<Seq<char>>, es: Seq<EntryView>) -> Seq<EntryView>
    decreases es.len(),
{
    if es.len() == 0 {
        Seq::empty()
    } else if takes_part(pattern, es.last()) {
        participants(pattern, es.drop_last()).push(es.last())
    } else {
        participants(pattern, es.drop_last())
    }
}

/// The pattern of an optional filter.
pub open spec fn filter_pattern(f: Option<&BranchFilter>) -> Option<Seq<char>> {
    match f {
        Some(f) => Some(f.pattern()),
        None => None,
    }
}

/// The worktrees a command runs in: the non-bare ones whose branch (empty
/// when detached) matches `filter`, if there is one, in order.
pub fn select_worktrees(entries: &[WorktreeEntry], filter: Option<&BranchFilter>) -> (r: Vec<
    WorktreeEntry,
>)
    ensures
        entry_views(r@) == participants(filter_pattern(filter), entry_views(entries@)),
{
    let ghost pat = filter_pattern(filter);
    let ghost es = entry_views(entries@);
    let mut r: Vec<WorktreeEntry> = Vec::new();
    let mut i: usize = 0;
    assert(es.take(0) =~= Seq::<EntryView>::empty());
    assert(entry_views(r@) =~= Seq::<EntryView>::empty());
    while i < entries.len()
        invariant
            i <= entries@.len(),
            es == entry_views(entries@),
            pat == filter_pattern(filter),
            entry_views(r@) == participants(pat, es.take(i as int)),
        decreases entries.len() - i,
    {
        let e = &entries[i];
        let ghost t = es.take(i + 1);
        assert(t.drop_last() == es.take(i as int));
        assert(t.last() == e@);
        let keep = if e.bare {
            false
        } else {
            match filter {
                Some(f) => {
                    let key: &str = match &e.branch {
                        Some(b) => b.as_str(),
                        None => "",
                    };
                    proof {
                        reveal_strlit("");
                    }
                    assert(key@ == filter_key(e@.branch));
                    f.matches(key)
                },
                None => true,
            }
        };
        assert(keep == takes_part(pat, e@));
        if keep {
            let d = e.duplicate();
            proof {
                assert(entry_views(r@.push(d)) == entry_views(r@).push(d@));
            }
            r.push(d);
        }
        i = i + 1;
    }
    assert(es.take(es.len() as int) == es);
    r
}

/// The header shown before a worktree's output: `=== <branch> (<path>) ===`,
/// the branch being `(detached)` when there is none.
pub open spec fn header_text(e: EntryView) -> Seq<char> {
    "=== "@ + shown_branch(e.branch) + " ("@ + e.path + ") ==="@
}

/// The header shown before a worktree's output.
pub fn header(wt: &WorktreeEntry) -> (s: String)
    ensures
        s@ == header_text(wt@),
{
    let mut s = String::new();
    push_str(&mut s, "=== ");
    let b = branch_or_detached(&wt.branch);
    push_str(&mut s, b.as_str());
    push_str(&mut s, " (");
    push_str(&mut s, wt.path.as_str());
    push_str(&mut s, ") ===");
    s
}

/// An integer as `i32::to_string` writes it.
pub open spec fn signed_decimal(i: int) -> Seq<char> {
    if i < 0 {
        "-"@ + decimal((-i) as nat)
    } else {
        decimal(i as nat)
    }
}

/// The message of a command that failed in a worktree, with its exit code
/// (`-1` when it was ended by a signal and has none).
pub open spec fn failure_text(branch: Seq<char>, code: Option<i32>) -> Seq<char> {
    "command failed in '"@ + branch + "' with exit code "@ + signed_decimal(
        match code {
            Some(c) => c as int,
            None => -1,
        },
    )
}

/// The message of a command that failed in the worktree of `branch`.
pub fn failure_message(branch: &str, code: Option<i32>) -> (s: String)
    ensures
        s@ == failure_text(branch@, code),
{
    let c: i64 = match code {
        Some(c) => c as i64,
        None => -1,
    };
    let mut s = String::new();
    push_str(&mut s, "command failed in '");
    push_str(&mut s, branch);
    push_str(&mut s, "' with exit code ");
    if c < 0 {
        push_str(&mut s, "-");
        push_wide_decimal(&mut s, (-c) as u128);
    } else {
        push_wide_decimal(&mut s, c as u128);
    }
    s
}

/// The error of a command that failed in the worktree of `branch`
/// (sequential runs stop at the first one).
pub fn command_failed(branch: &str, code: Option<i32>) -> (e: GitreeError)
    ensures
        e@ == ErrorView::Other(failure_text(branch@, code)),
{
    GitreeError::Other(failure_message(branch, code))
}

/// The outcome of a parallel run from each worktree's error, if any: it
/// fails when any run failed.
pub fn parallel_outcome(errors: &[Option<String>]) -> (r: Result<()>)
    ensures
        (exists|i: int| 0 <= i < errors@.len() && #[trigger] errors@[i] is Some) ==> (r matches Err(
            e,
        ) && e@ == ErrorView::Other("one or more worktree commands failed"@)),
        (forall|i: int| 0 <= i < errors@.len() ==> #[trigger] errors@[i] is None) ==> r is Ok,
{
    let mut i: usize = 0;
    while i < errors.len()
        invariant
            i <= errors@.len(),
            forall|j: int| 0 <= j < i ==> #[trigger] errors@[j] is None,
        decreases errors.len() - i,
    {
        if errors[i].is_some() {
            let mut m = String::new();
            push_str(&mut m, "one or more worktree commands failed");
            return Err(GitreeError::Other(m));
        }
        i = i + 1;
    }
    Ok(())
}


/// Without a pattern, a command runs in exactly the worktrees that are not
/// bare; with one, only in worktrees that also match it.
pub proof fn lemma_participants_members(pattern: Option<Seq<char>>, es: Seq<EntryView>, e: EntryView)
    ensures
        participants(pattern, es).contains(e) <==> (es.contains(e) && takes_part(pattern, e)),
    decreases es.len(),
{
    if es.len() > 0 {
        lemma_participants_members(pattern, es.drop_last(), e);
        let p = participants(pattern, es.drop_last());
        if es.drop_last().contains(e) {
            let i = choose|i: int| 0 <= i < es.drop_last().len() && es.drop_last()[i] == e;
            assert(es[i] == e);
        }
        if es.contains(e) && e != es.last() {
            let i = choose|i: int| 0 <= i < es.len() && es[i] == e;
            assert(es.drop_last()[i] == e);
        }
        if takes_part(pattern, es.last()) {
            let q = p.push(es.last());
            assert(q.last() == es.last());
            if p.contains(e) {
                let i = choose|i: int| 0 <= i < p.len() && p[i] == e;
                assert(q[i] == e);
            }
            if q.contains(e) {
                let i = choose|i: int| 0 <= i < q.len() && q[i] == e;
                if i < p.len() {
                    assert(p[i] == e);
                }
            }
        }
    }
}

} // verus!
