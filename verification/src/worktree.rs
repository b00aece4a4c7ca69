//! The decisions of `gitree add`, `remove`, `list`, `prune` and `where`.

use vstd::prelude::*;

use crate::error::{ErrorView, GitreeError, Result};
use crate::format::{ColorPolicy, PathPolicy};
use crate::git::{contains_name, entry_views, EntryView, WorktreeEntry};
use crate::text::{copy_str, opt_view, push_str, same_text, views};
use crate::types::{branch_name_error, BranchName};

verus! {

/// Options for `gitree add`.
#[derive(Debug, Clone)]
pub struct AddOptions {
    /// The branch name.
    pub branch: String,
    /// Whether to create a new branch.
    pub new: bool,
    /// The base ref when creating a new branch.
    pub base: Option<String>,
}

/// Options for `gitree remove`.
#[derive(Debug, Clone)]
pub struct RemoveOptions {
    /// The branch names (or directory forms, or worktree paths).
    pub branches: Vec<String>,
    /// Also delete the local branch after removing the worktree.
    pub delete_branch: bool,
    /// Force removal even if the worktree is dirty.
    pub force: bool,
}

/// Options for `gitree list`.
#[derive(Debug, Clone)]
pub struct ListOptions {
    /// Output as JSON.
    pub json: bool,
    /// Color policy.
    pub color: ColorPolicy,
    /// Path display policy.
    pub path: PathPolicy,
}

impl Default for ListOptions {
    fn default() -> (o: Self)
        ensures
            !o.json,
            o.color == ColorPolicy::Auto,
            o.path == PathPolicy::Relative,
    {
        ListOptions { json: false, color: ColorPolicy::Auto, path: PathPolicy::Relative }
    }
}

/// Some worktree in `es` has branch `b`.
pub open spec fn has_worktree_for(es: Seq<EntryView>, b: Seq<char>) -> bool {
    exists|i: int| 0 <= i < es.len() && #[trigger] es[i].branch == Some(b)
}

/// Validates the branch of `gitree add` and checks that it has no worktree
/// yet.
///
/// Fails with the branch-name error, or with
/// [`GitreeError::WorktreeExists`] when a worktree already has the branch.
pub fn add_preflight(opts: &AddOptions, worktrees: &[WorktreeEntry]) -> (r: Result<BranchName>)
    ensures
        match branch_name_error(opts.branch@) {
            Some(m) => r matches Err(e) && e@ == ErrorView::Other(m),
            None => if has_worktree_for(entry_views(worktrees@), opts.branch@) {
                r matches Err(e) && e@ == ErrorView::WorktreeExists(opts.branch@)
            } else {
                r matches Ok(b) && b@ == opts.branch@
            },
        },
{
    let branch = match BranchName::new(opts.branch.as_str()) {
        Ok(b) => b,
        Err(e) => return Err(e),
    };
    let mut i: usize = 0;
    while i < worktrees.len()
        invariant
            i <= worktrees@.len(),
            branch@ == opts.branch@,
            branch_name_error(opts.branch@) is None,
            forall|k: int| 0 <= k < i ==> worktrees@[k]@.branch != Some(opts.branch@),
        decreases worktrees.len() - i,
    {
        match &worktrees[i].branch {
            Some(b) => {
                if same_text(b.as_str(), branch.as_str()) {
                    assert(entry_views(worktrees@)[i as int].branch == Some(opts.branch@));
                    return Err(GitreeError::WorktreeExists(copy_str(opts.branch.as_str())));
                }
            },
            None => {},
        }
        i = i + 1;
    }
    assert(forall|k: int|
        0 <= k < worktrees@.len() ==> entry_views(worktrees@)[k].branch != Some(opts.branch@));
    Ok(branch)
}

/// For `gitree add` of an existing branch: the branch must exist locally or
/// on origin, else [`GitreeError::BranchNotFound`] names it.
pub fn require_branch(branch: &str, local: &Vec<String>, remote: &Vec<String>) -> (r: Result<()>)
    ensures
        if views(local@).contains(branch@) || views(remote@).contains(branch@) {
            r is Ok
        } else {
            r matches Err(e) && e@ == ErrorView::BranchNotFound(branch@)
        },
{
    if contains_name(local, branch) || contains_name(remote, branch) {
        Ok(())
    } else {
        Err(GitreeError::BranchNotFound(copy_str(branch)))
    }
}

/// The base ref a new branch starts from when none is given.
pub open spec fn base_ref_choice(
    inside_worktree: bool,
    head: Option<Seq<char>>,
    local: core::result::Result<Seq<Seq<char>>, ErrorView>,
) -> core::result::Result<Seq<char>, ErrorView> {
    if inside_worktree && head is Some {
        Ok(head->0)
    } else {
        match local {
            Err(e) => Err(e),
            Ok(l) => if l.contains("main"@) {
                Ok("main"@)
            } else if l.contains("master"@) {
                Ok("master"@)
            } else {
                Err(
                    ErrorView::Other(
                        "cannot determine base branch: neither 'main' nor 'master' exists. Use --base <ref>."@,
                    ),
                )
            },
        }
    }
}

/// Determines the base ref for a new branch.
///
/// Inside a worktree (the current directory, canonicalised, is not the
/// wrapper root) its HEAD is used when `git rev-parse HEAD` succeeded
/// (`head`).  Otherwise `main` is used, or `master` if `main` does not
/// exist, among the wrapper's local branches (`local`, the result of
/// listing them).
pub fn determine_base_ref(
    inside_worktree: bool,
    head: Option<String>,
    local: Result<Vec<String>>,
) -> (r: Result<String>)
    ensures
        match base_ref_choice(
            inside_worktree,
            opt_view(head),
            match local {
                Ok(l) => Ok(views(l@)),
                Err(e) => Err(e@),
            },
        ) {
            Ok(b) => r matches Ok(s) && s@ == b,
            Err(e) => r matches Err(x) && x@ == e,
        },
{
    if inside_worktree {
        match head {
            Some(h) => return Ok(h),
            None => {},
        }
    }
    let branches = match local {
        Ok(l) => l,
        Err(e) => return Err(e),
    };
    if contains_name(&branches, "main") {
        let mut s = String::new();
        push_str(&mut s, "main");
        return Ok(s);
    }
    if contains_name(&branches, "master") {
        let mut s = String::new();
        push_str(&mut s, "master");
        return Ok(s);
    }
    let mut m = String::new();
    push_str(
        &mut m,
        "cannot determine base branch: neither 'main' nor 'master' exists. Use --base <ref>.",
    );
    Err(GitreeError::Other(m))
}

/// The paths of the worktrees `git worktree prune` removes: prunable and
/// not locked, in order.
pub open spec fn stale_paths(es: Seq<EntryView>) -> Seq<Seq<char>>
    decreases es.len(),
{
    if es.len() == 0 {
        Seq::empty()
    } else {
        let prev = stale_paths(es.drop_last());
        if es.last().prunable && !es.last().locked {
            prev.push(es.last().path)
        } else {
            prev
        }
    }
}

/// The worktrees `gitree prune` reports as stale references.
pub fn stale_worktrees(worktrees: &[WorktreeEntry]) -> (r: Vec<String>)
    ensures
        views(r@) == stale_paths(entry_views(worktrees@)),
{
    let mut r: Vec<String> = Vec::new();
    let mut i: usize = 0;
    assert(entry_views(worktrees@).take(0) =~= Seq::<EntryView>::empty());
    assert(views(r@) =~= Seq::<Seq<char>>::empty());
    while i < worktrees.len()
        invariant
            i <= worktrees@.len(),
            views(r@) == stale_paths(entry_views(worktrees@).take(i as int)),
        decreases worktrees.len() - i,
    {
        let e = &worktrees[i];
        let ghost t = entry_views(worktrees@).take(i + 1);
        assert(t.drop_last() == entry_views(worktrees@).take(i as int));
        assert(t.last() == e@);
        if e.prunable && !e.locked {
            let c = copy_str(e.path.as_str());
            proof {
                assert(views(r@.push(c)) == views(r@).push(c@));
            }
            r.push(c);
        }
        i = i + 1;
    }
    assert(entry_views(worktrees@).take(worktrees@.len() as int) == entry_views(worktrees@));
    r
}

/// The report of `gitree prune`: a note when nothing was stale, else the
/// list of pruned paths.
pub open spec fn prune_report_text(paths: Seq<Seq<char>>) -> Seq<char> {
    if paths.len() == 0 {
        "No stale worktree references.\n"@
    } else {
        "Pruned stale worktree references:\n"@ + indented_lines(paths)
    }
}

/// Each path on its own line, indented by two spaces.
pub open spec fn indented_lines(paths: Seq<Seq<char>>) -> Seq<char>
    decreases paths.len(),
{
    if paths.len() == 0 {
        Seq::empty()
    } else {
        indented_lines(paths.drop_last()) + "  "@ + paths.last() + "\n"@
    }
}

/// Renders the report of `gitree prune` for the stale `paths`.
pub fn prune_report(paths: &Vec<String>) -> (s: String)
    ensures
        s@ == prune_report_text(views(paths@)),
{
    let mut s = String::new();
    if paths.len() == 0 {
        push_str(&mut s, "No stale worktree references.\n");
        return s;
    }
    push_str(&mut s, "Pruned stale worktree references:\n");
    let ghost head = s@;
    let mut i: usize = 0;
    assert(views(paths@).take(0) =~= Seq::<Seq<char>>::empty());
    while i < paths.len()
        invariant
            i <= paths@.len(),
            s@ == head + indented_lines(views(paths@).take(i as int)),
            head == "Pruned stale worktree references:\n"@,
        decreases paths.len() - i,
    {
        push_str(&mut s, "  ");
        push_str(&mut s, paths[i].as_str());
        push_str(&mut s, "\n");
        proof {
            let t = views(paths@).take(i + 1);
            assert(t.drop_last() == views(paths@).take(i as int));
            assert(t.last() == paths@[i as int]@);
        }
        i = i + 1;
    }
    assert(views(paths@).take(paths@.len() as int) == views(paths@));
    s
}

} // verus!
