//! The decisions of `gitree pull`: which worktree to fast-forward, when a
//! dirty worktree stops it, and what `--all` does with each worktree.

use vstd::prelude::*;

use crate::error::{DirtyEscape, ErrorView, GitreeError, Result};
use crate::git::{contains_name, entry_views, EntryView, WorktreeEntry};
use crate::text::{copy_str, decimal, push_decimal, push_str, same_text, views};

verus! {

/// Options for `gitree pull`.
#[derive(Debug, Clone)]
pub struct PullOptions {
    /// Fast-forward every worktree behind its origin branch.
    pub all: bool,
    /// Override the branch to fast-forward (default: main, fallback master).
    pub branch: Option<String>,
    /// Stash uncommitted changes before merging, pop afterwards.
    pub autostash: bool,
}

/// The branch `gitree pull` fast-forwards: the requested one, else `main`
/// when it is a local branch, else `master`.
pub open spec fn pull_branch_choice(requested: Option<Seq<char>>, local: Seq<Seq<char>>) -> Seq<
    char,
> {
    match requested {
        Some(b) => b,
        None => if local.contains("main"@) {
            "main"@
        } else {
            "master"@
        },
    }
}

/// The branch `gitree pull` fast-forwards, given the requested one and the
/// local branches.
pub fn pull_branch(requested: Option<&str>, local: &Vec<String>) -> (b: String)
    ensures
        b@ == pull_branch_choice(
            match requested {
                Some(r) => Some(r@),
                None => None,
            },
            views(local@),
        ),
{
    match requested {
        Some(r) => copy_str(r),
        None => {
            let mut s = String::new();
            if contains_name(local, "main") {
                push_str(&mut s, "main");
            } else {
                push_str(&mut s, "master");
            }
            s
        },
    }
}

/// The index of the first worktree on `branch`, if any.
pub fn find_worktree(worktrees: &[WorktreeEntry], branch: &str) -> (r: Option<usize>)
    ensures
        match r {
            Some(i) => i < worktrees@.len() && worktrees@[i as int]@.branch == Some(branch@)
                && forall|k: int| 0 <= k < i ==> worktrees@[k]@.branch != Some(branch@),
            None => forall|k: int|
                0 <= k < worktrees@.len() ==> worktrees@[k]@.branch != Some(branch@),
        },
{
    let mut i: usize = 0;
    while i < worktrees.len()
        invariant
            i <= worktrees@.len(),
            forall|k: int| 0 <= k < i ==> worktrees@[k]@.branch != Some(branch@),
        decreases worktrees.len() - i,
    {
        match &worktrees[i].branch {
            Some(b) => {
                if same_text(b.as_str(), branch) {
                    return Some(i);
                }
            },
            None => {},
        }
        i = i + 1;
    }
    None
}

/// Refuses to pull into a dirty worktree unless `autostash` is set:
/// [`GitreeError::DirtyWorktree`] names the branch and path, with
/// `--autostash` as the escape.
pub fn dirty_check(count: usize, branch: &str, path: &str, autostash: bool) -> (r: Result<()>)
    ensures
        if !autostash && count > 0 {
            r matches Err(e) && e@ == (ErrorView::DirtyWorktree {
                count: count as nat,
                branch: Some(branch@),
                path: Some(path@),
                escape: DirtyEscape::Autostash,
            })
        } else {
            r is Ok
        },
{
    if !autostash && count > 0 {
        Err(
            GitreeError::DirtyWorktree {
                count,
                branch: Some(copy_str(branch)),
                path: Some(copy_str(path)),
                escape: DirtyEscape::Autostash,
            },
        )
    } else {
        Ok(())
    }
}

/// The ref a branch is fast-forwarded to: `origin/<branch>`.
pub fn upstream_ref(branch: &str) -> (r: String)
    ensures
        r@ == "origin/"@ + branch@,
{
    let mut r = String::new();
    push_str(&mut r, "origin/");
    push_str(&mut r, branch);
    r
}

/// How a skipped dirty worktree is listed: `<branch> (<n> change(s))`.
pub fn dirty_note(branch: &str, count: usize) -> (s: String)
    ensures
        s@ == branch@ + " ("@ + decimal(count as nat) + " change(s))"@,
{
    let mut s = copy_str(branch);
    push_str(&mut s, " (");
    push_decimal(&mut s, count);
    push_str(&mut s, " change(s))");
    s
}

/// A line for each diverged branch.
pub open spec fn diverged_lines(bs: Seq<Seq<char>>) -> Seq<char>
    decreases bs.len(),
{
    if bs.len() == 0 {
        Seq::empty()
    } else {
        diverged_lines(bs.drop_last()) + "Skipped '"@ + bs.last()
            + "' — ahead of origin, not fast-forwardable.\n"@
    }
}

/// A line for each skipped dirty worktree.
pub open spec fn dirty_lines(ds: Seq<Seq<char>>) -> Seq<char>
    decreases ds.len(),
{
    if ds.len() == 0 {
        Seq::empty()
    } else {
        dirty_lines(ds.drop_last()) + "Skipped '"@ + ds.last()
            + "' — dirty worktree (use --autostash to stash and pull).\n"@
    }
}

/// The summary `gitree pull --all` ends with.
pub open spec fn pull_all_text(updated: nat, diverged: Seq<Seq<char>>, dirty: Seq<Seq<char>>) -> Seq<
    char,
> {
    diverged_lines(diverged) + dirty_lines(dirty) + "Updated "@ + decimal(updated)
        + " worktree(s).\n"@
}

/// Renders the summary of `gitree pull --all`.
pub fn pull_all_report(updated: usize, diverged: &Vec<String>, dirty: &Vec<String>) -> (s: String)
    ensures
        s@ == pull_all_text(updated as nat, views(diverged@), views(dirty@)),
{
    let mut s = String::new();
    let mut i: usize = 0;
    assert(views(diverged@).take(0) =~= Seq::<Seq<char>>::empty());
    while i < diverged.len()
        invariant
            i <= diverged@.len(),
            s@ == diverged_lines(views(diverged@).take(i as int)),
        decreases diverged.len() - i,
    {
        push_str(&mut s, "Skipped '");
        push_str(&mut s, diverged[i].as_str());
        push_str(&mut s, "' — ahead of origin, not fast-forwardable.\n");
        proof {
            let t = views(diverged@).take(i + 1);
            assert(t.drop_last() == views(diverged@).take(i as int));
            assert(t.last() == diverged@[i as int]@);
        }
        i = i + 1;
    }
    assert(views(diverged@).take(diverged@.len() as int) == views(diverged@));
    let ghost first = s@;
    let mut j: usize = 0;
    assert(views(dirty@).take(0) =~= Seq::<Seq<char>>::empty());
    while j < dirty.len()
        invariant
            j <= dirty@.len(),
            s@ == first + dirty_lines(views(dirty@).take(j as int)),
        decreases dirty.len() - j,
    {
        push_str(&mut s, "Skipped '");
        push_str(&mut s, dirty[j].as_str());
        push_str(&mut s, "' — dirty worktree (use --autostash to stash and pull).\n");
        proof {
            let t = views(dirty@).take(j + 1);
            assert(t.drop_last() == views(dirty@).take(j as int));
            assert(t.last() == dirty@[j as int]@);
        }
        j = j + 1;
    }
    assert(views(dirty@).take(dirty@.len() as int) == views(dirty@));
    push_str(&mut s, "Updated ");
    push_decimal(&mut s, updated);
    push_str(&mut s, " worktree(s).\n");
    s
}


// ---------------------------------------------------------------------------
// `pull --all`, one worktree at a time
// ---------------------------------------------------------------------------

/// What `gitree pull --all` does next with a worktree.
#[derive(Debug, Clone)]
pub enum PullAllAction {
    /// Not a candidate: bare, or no branch checked out.
    Ignore,
    /// Ask git how far the branch is ahead of and behind `origin/<branch>`.
    NeedCounts,
    /// Ahead of origin: not fast-forwardable; report the branch.
    Diverged(String),
    /// Not behind origin (a branch without an upstream counts as `(0, 0)`):
    /// nothing to do.
    UpToDate,
    /// Ask git how many uncommitted changes the worktree has.
    NeedDirtyCount,
    /// Dirty and no `--autostash`: skip it, with this note.
    SkipDirty(String),
    /// Fast-forward the worktree to this ref.
    Merge(String),
}

/// The mathematical value of a [`PullAllAction`].
pub enum PullAllActionView {
    Ignore,
    NeedCounts,
    Diverged(Seq<char>),
    UpToDate,
    NeedDirtyCount,
    SkipDirty(Seq<char>),
    Merge(Seq<char>),
}

impl View for PullAllAction {
    type V = PullAllActionView;

    open spec fn view(&self) -> PullAllActionView {
        match self {
            PullAllAction::Ignore => PullAllActionView::Ignore,
            PullAllAction::NeedCounts => PullAllActionView::NeedCounts,
            PullAllAction::Diverged(b) => PullAllActionView::Diverged(b@),
            PullAllAction::UpToDate => PullAllActionView::UpToDate,
            PullAllAction::NeedDirtyCount => PullAllActionView::NeedDirtyCount,
            PullAllAction::SkipDirty(n) => PullAllActionView::SkipDirty(n@),
            PullAllAction::Merge(r) => PullAllActionView::Merge(r@),
        }
    }
}

/// The note for a dirty worktree skipped on `branch`.
pub open spec fn dirty_note_text(branch: Seq<char>, count: nat) -> Seq<char> {
    branch + " ("@ + decimal(count) + " change(s))"@
}

/// What `gitree pull --all` does next with the worktree `wt`, given the
/// answers git gave so far (`counts`: ahead/behind of `origin/<branch>`;
/// `dirty`: the number of uncommitted changes):
///
/// - bare or detached worktrees are ignored;
/// - a git failure is the run's error;
/// - a branch ahead of origin is reported as diverged;
/// - a branch not behind (also one without an upstream) is left alone;
/// - a branch behind is fast-forwarded to `origin/<branch>` when
///   `autostash` is set or the worktree is clean, and skipped with a note
///   when it is dirty.
pub open spec fn pull_all_decision(
    wt: EntryView,
    counts: Option<core::result::Result<(usize, usize), ErrorView>>,
    dirty: Option<core::result::Result<usize, ErrorView>>,
    autostash: bool,
) -> core::result::Result<PullAllActionView, ErrorView> {
    if wt.bare || wt.branch is None {
        Ok(PullAllActionView::Ignore)
    } else {
        let b = wt.branch->0;
        match counts {
            None => Ok(PullAllActionView::NeedCounts),
            Some(Err(e)) => Err(e),
            Some(Ok((ahead, behind))) => if ahead > 0 {
                Ok(PullAllActionView::Diverged(b))
            } else if behind == 0 {
                Ok(PullAllActionView::UpToDate)
            } else if autostash {
                Ok(PullAllActionView::Merge("origin/"@ + b))
            } else {
                match dirty {
                    None => Ok(PullAllActionView::NeedDirtyCount),
                    Some(Err(e)) => Err(e),
                    Some(Ok(n)) => if n > 0 {
                        Ok(PullAllActionView::SkipDirty(dirty_note_text(b, n as nat)))
                    } else {
                        Ok(PullAllActionView::Merge("origin/"@ + b))
                    },
                }
            },
        }
    }
}

/// The view of an optional answer from git.
pub open spec fn answer_view<T>(a: Option<&Result<T>>) -> Option<core::result::Result<T, ErrorView>> {
    match a {
        Some(Ok(v)) => Some(Ok(*v)),
        Some(Err(e)) => Some(Err(e@)),
        None => None,
    }
}

/// The view of a step's outcome.
pub open spec fn action_result_view(r: Result<PullAllAction>) -> core::result::Result<
    PullAllActionView,
    ErrorView,
> {
    match r {
        Ok(a) => Ok(a@),
        Err(e) => Err(e@),
    }
}

/// What `gitree pull --all` does next with `wt` (see
/// [`pull_all_decision`]).
pub fn pull_all_next(
    wt: &WorktreeEntry,
    counts: Option<&Result<(usize, usize)>>,
    dirty: Option<&Result<usize>>,
    autostash: bool,
) -> (a: Result<PullAllAction>)
    ensures
        action_result_view(a) == pull_all_decision(
            wt@,
            answer_view(counts),
            answer_view(dirty),
            autostash,
        ),
{
    if wt.bare {
        return Ok(PullAllAction::Ignore);
    }
    let b = match &wt.branch {
        Some(b) => b.as_str(),
        None => return Ok(PullAllAction::Ignore),
    };
    let (ahead, behind) = match counts {
        None => return Ok(PullAllAction::NeedCounts),
        Some(Err(e)) => return Err(e.duplicate()),
        Some(Ok(c)) => *c,
    };
    if ahead > 0 {
        return Ok(PullAllAction::Diverged(copy_str(b)));
    }
    if behind == 0 {
        return Ok(PullAllAction::UpToDate);
    }
    if autostash {
        return Ok(PullAllAction::Merge(upstream_ref(b)));
    }
    match dirty {
        None => Ok(PullAllAction::NeedDirtyCount),
        Some(Err(e)) => Err(e.duplicate()),
        Some(Ok(n)) => if *n > 0 {
            Ok(PullAllAction::SkipDirty(dirty_note(b, *n)))
        } else {
            Ok(PullAllAction::Merge(upstream_ref(b)))
        },
    }
}

/// What a run of `gitree pull --all` has done so far: worktrees
/// fast-forwarded, branches reported as diverged, dirty worktrees skipped.
#[derive(Debug)]
pub struct PullAllTally {
    /// The number of worktrees fast-forwarded.
    pub updated: usize,
    /// The diverged branches, in order.
    pub diverged: Vec<String>,
    /// The notes of the skipped dirty worktrees, in order.
    pub dirty: Vec<String>,
}

/// The mathematical value of a [`PullAllTally`].
pub struct TallyView {
    pub updated: nat,
    pub diverged: Seq<Seq<char>>,
    pub dirty: Seq<Seq<char>>,
}

impl View for PullAllTally {
    type V = TallyView;

    open spec fn view(&self) -> TallyView {
        TallyView { updated: self.updated as nat, diverged: views(self.diverged@), dirty: views(self.dirty@) }
    }
}

/// The tally after a worktree's final action `a` (a merge counted once it
/// succeeded).
pub open spec fn tally_step(t: TallyView, a: PullAllActionView) -> TallyView {
    match a {
        PullAllActionView::Diverged(b) => TallyView { diverged: t.diverged.push(b), ..t },
        PullAllActionView::SkipDirty(n) => TallyView { dirty: t.dirty.push(n), ..t },
        PullAllActionView::Merge(_) => TallyView { updated: t.updated + 1, ..t },
        _ => t,
    }
}

impl PullAllTally {
    /// A run that has done nothing yet.
    pub fn new() -> (t: PullAllTally)
        ensures
            t@ == (TallyView { updated: 0, diverged: Seq::empty(), dirty: Seq::empty() }),
    {
        let t = PullAllTally { updated: 0, diverged: Vec::new(), dirty: Vec::new() };
        assert(t@.diverged =~= Seq::<Seq<char>>::empty());
        assert(t@.dirty =~= Seq::<Seq<char>>::empty());
        t
    }

    /// Records a worktree's final action (a merge once it succeeded).
    pub fn record(&mut self, a: &PullAllAction)
        requires
            old(self).updated < usize::MAX,
        ensures
            final(self)@ == tally_step(old(self)@, a@),
    {
        match a {
            PullAllAction::Diverged(b) => {
                let c = copy_str(b.as_str());
                proof {
                    assert(views(self.diverged@.push(c)) == views(self.diverged@).push(c@));
                }
                self.diverged.push(c);
            },
            PullAllAction::SkipDirty(n) => {
                let c = copy_str(n.as_str());
                proof {
                    assert(views(self.dirty@.push(c)) == views(self.dirty@).push(c@));
                }
                self.dirty.push(c);
            },
            PullAllAction::Merge(_) => {
                self.updated = self.updated + 1;
            },
            _ => {},
        }
    }

    /// The summary the run ends with.
    pub fn report(&self) -> (s: String)
        ensures
            s@ == pull_all_text(self@.updated, self@.diverged, self@.dirty),
    {
        pull_all_report(self.updated, &self.diverged, &self.dirty)
    }
}

// ---------------------------------------------------------------------------
// The law of a whole `pull --all` run
// ---------------------------------------------------------------------------

/// The action a worktree ends with when git answered every question: its
/// counts `ab` and its change count `dirty`.
pub open spec fn settled(wt: EntryView, ab: (usize, usize), dirty: usize, autostash: bool) -> PullAllActionView {
    let d = pull_all_decision(wt, Some(Ok(ab)), Some(Ok(dirty)), autostash);
    d->Ok_0
}

/// `wt` is fast-forwarded: a branch checked out, not ahead, behind, and
/// clean or stashed automatically.
pub open spec fn fast_forwarded(wt: EntryView, ab: (usize, usize), dirty: usize, autostash: bool) -> bool {
    !wt.bare && wt.branch is Some && ab.0 == 0 && ab.1 > 0 && (autostash || dirty == 0)
}

/// The tally of a whole run over `es`, where `abs[i]` and `dirties[i]` are
/// git's answers for `es[i]`.
pub open spec fn run_tally(
    es: Seq<EntryView>,
    abs: Seq<(usize, usize)>,
    dirties: Seq<usize>,
    autostash: bool,
) -> TallyView
    decreases es.len(),
{
    if es.len() == 0 || abs.len() != es.len() || dirties.len() != es.len() {
        TallyView { updated: 0, diverged: Seq::empty(), dirty: Seq::empty() }
    } else {
        let n = es.len() - 1;
        tally_step(
            run_tally(es.drop_last(), abs.drop_last(), dirties.drop_last(), autostash),
            settled(es[n], abs[n], dirties[n], autostash),
        )
    }
}

/// The branches of the worktrees ahead of origin, in order.
pub open spec fn ahead_branches(es: Seq<EntryView>, abs: Seq<(usize, usize)>) -> Seq<Seq<char>>
    decreases es.len(),
{
    if es.len() == 0 || abs.len() != es.len() {
        Seq::empty()
    } else {
        let n = es.len() - 1;
        let prev = ahead_branches(es.drop_last(), abs.drop_last());
        if !es[n].bare && es[n].branch is Some && abs[n].0 > 0 {
            prev.push(es[n].branch->0)
        } else {
            prev
        }
    }
}

/// The number of worktrees a run fast-forwards.
pub open spec fn fast_forward_count(
    es: Seq<EntryView>,
    abs: Seq<(usize, usize)>,
    dirties: Seq<usize>,
    autostash: bool,
) -> nat
    decreases es.len(),
{
    if es.len() == 0 || abs.len() != es.len() || dirties.len() != es.len() {
        0
    } else {
        let n = es.len() - 1;
        fast_forward_count(es.drop_last(), abs.drop_last(), dirties.drop_last(), autostash) + if fast_forwarded(
            es[n],
            abs[n],
            dirties[n],
            autostash,
        ) {
            1nat
        } else {
            0nat
        }
    }
}

/// One worktree of `pull --all`, once git has answered: it never asks
/// again, is fast-forwarded to `origin/<branch>` exactly when it has a
/// branch, is not ahead, is behind, and is clean or `--autostash` is given;
/// is reported as diverged exactly when ahead; and is skipped with a note
/// exactly when behind, dirty and without `--autostash`.  A branch without
/// an upstream, counted `(0, 0)`, is left alone.
pub proof fn lemma_pull_all_step(wt: EntryView, ab: (usize, usize), dirty: usize, autostash: bool)
    ensures
        pull_all_decision(wt, Some(Ok(ab)), Some(Ok(dirty)), autostash) == Ok::<
            PullAllActionView,
            ErrorView,
        >(settled(wt, ab, dirty, autostash)),
        !(settled(wt, ab, dirty, autostash) is NeedCounts),
        !(settled(wt, ab, dirty, autostash) is NeedDirtyCount),
        (settled(wt, ab, dirty, autostash) is Merge) <==> fast_forwarded(wt, ab, dirty, autostash),
        fast_forwarded(wt, ab, dirty, autostash) ==> settled(wt, ab, dirty, autostash)
            == PullAllActionView::Merge("origin/"@ + wt.branch->0),
        (settled(wt, ab, dirty, autostash) is Diverged) <==> (!wt.bare && wt.branch is Some
            && ab.0 > 0),
        (settled(wt, ab, dirty, autostash) is SkipDirty) <==> (!wt.bare && wt.branch is Some
            && ab.0 == 0 && ab.1 > 0 && !autostash && dirty > 0),
        ab == (0usize, 0usize) ==> (settled(wt, ab, dirty, autostash) is Ignore || settled(
            wt,
            ab,
            dirty,
            autostash,
        ) is UpToDate),
{
}

/// A whole run of `pull --all` in which git answered every question:
/// the diverged branches it reports are exactly the checked-out branches
/// ahead of origin, in order, and it fast-forwards exactly the worktrees
/// that [`lemma_pull_all_step`] says it does.
pub proof fn lemma_pull_all_run(
    es: Seq<EntryView>,
    abs: Seq<(usize, usize)>,
    dirties: Seq<usize>,
    autostash: bool,
)
    requires
        abs.len() == es.len(),
        dirties.len() == es.len(),
    ensures
        run_tally(es, abs, dirties, autostash).diverged == ahead_branches(es, abs),
        run_tally(es, abs, dirties, autostash).updated == fast_forward_count(
            es,
            abs,
            dirties,
            autostash,
        ),
    decreases es.len(),
{
    if es.len() > 0 {
        let n = es.len() - 1;
        lemma_pull_all_run(es.drop_last(), abs.drop_last(), dirties.drop_last(), autostash);
        lemma_pull_all_step(es[n], abs[n], dirties[n], autostash);
    }
}

} // verus!
