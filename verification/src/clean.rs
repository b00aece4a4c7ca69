//! The decisions of `gitree clean`: which local branches are stale.

use vstd::prelude::*;

use crate::completions::{worktree_branch_names, worktree_branches};
use crate::error::{error_message, ErrorView, GitreeError};
use crate::git::{entry_views, lemma_not_in_members, names_not_in, not_in, WorktreeEntry};
use crate::text::{push_str, views};

verus! {

/// Options for `gitree clean`.
#[derive(Debug, Clone)]
pub struct CleanOptions {
    /// Delete stale branches without prompting.
    pub force: bool,
}

/// The stale branches: local branches with no branch of the same name on
/// origin and no worktree, in order.
pub open spec fn stale_branch_names(
    local: Seq<Seq<char>>,
    remote: Seq<Seq<char>>,
    es: Seq<crate::git::EntryView>,
) -> Seq<Seq<char>> {
    not_in(not_in(local, remote), worktree_branch_names(es))
}

/// The local branches whose remote counterpart is gone and that have no
/// active worktree.
pub fn stale_branches(local: &Vec<String>, remote: &Vec<String>, worktrees: &[WorktreeEntry]) -> (r:
    Vec<String>)
    ensures
        views(r@) == stale_branch_names(views(local@), views(remote@), entry_views(worktrees@)),
{
    let active = worktree_branches(worktrees);
    let gone = names_not_in(local, remote);
    names_not_in(&gone, &active)
}

/// The error `gitree clean` stops with when refreshing remote-tracking refs
/// failed with `e`.
pub fn fetch_failure(e: &GitreeError) -> (r: GitreeError)
    ensures
        r@ == ErrorView::Other(
            "could not refresh remote-tracking refs ("@ + error_message(e@)
                + ") — refusing to detect stale branches from outdated remote state"@,
        ),
{
    let mut m = String::new();
    push_str(&mut m, "could not refresh remote-tracking refs (");
    let msg = e.message();
    push_str(&mut m, msg.as_str());
    push_str(&mut m, ") — refusing to detect stale branches from outdated remote state");
    GitreeError::Other(m)
}


/// A stale branch is exactly a local branch that is neither on origin nor
/// checked out in a worktree.
pub proof fn lemma_stale_branch_members(
    local: Seq<Seq<char>>,
    remote: Seq<Seq<char>>,
    es: Seq<crate::git::EntryView>,
    x: Seq<char>,
)
    ensures
        stale_branch_names(local, remote, es).contains(x) <==> (local.contains(x) && !remote.contains(
            x,
        ) && !worktree_branch_names(es).contains(x)),
{
    lemma_not_in_members(local, remote, x);
    lemma_not_in_members(not_in(local, remote), worktree_branch_names(es), x);
}

} // verus!
