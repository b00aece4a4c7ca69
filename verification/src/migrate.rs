//! The decisions of `gitree migrate`, which converts a regular clone into
//! the wrapper layout: the pre-flight checks, where each worktree goes, and
//! the administrative files of the converted main worktree.

use vstd::prelude::*;

use crate::error::{error_message, DirtyEscape, ErrorView, GitreeError, Result};
use crate::git::{entry_views, EntryView, WorktreeEntry};
use crate::paths::{join, path_eq, path_eq_result, path_file_name, path_file_name_result, path_join};
use crate::text::{
    copy_str, decimal, digit, opt_view, digit_char, lines, lines_of, push_decimal, push_str, push_wide_decimal,
    replace, replace_str, same_text, starts_with, views,
};

verus! {

/// Options for `gitree migrate`.
#[derive(Debug, Clone)]
pub struct MigrateOptions {
    /// Skip confirmation prompt.
    pub yes: bool,
    /// Allow migration even with warnings (untracked files, local-only
    /// branches).
    pub force: bool,
}

/// What the pre-flight checks found.
#[derive(Debug)]
pub struct PreflightReport {
    /// Path to the clone's `.git` directory.
    pub git_dir: String,
    /// Branch checked out in the main worktree.
    pub main_branch: String,
    /// Filesystem path of the main worktree.
    pub main_wt_path: String,
    /// Linked worktrees (every non-bare worktree other than the main one).
    pub linked_worktrees: Vec<WorktreeEntry>,
    /// Number of untracked files.
    pub untracked: usize,
    /// Whether the working tree is clean.
    pub clean: bool,
    /// Number of stashes.
    pub stash_count: usize,
    /// Local-only branches (not on any remote).
    pub local_only_branches: Vec<String>,
    /// Size of `.git` in bytes.
    pub git_size: u64,
}

/// The `.git` of the clone must be a directory.
pub fn check_regular_clone(git_dir: &str, is_dir: bool) -> (r: Result<()>)
    ensures
        if is_dir {
            r is Ok
        } else {
            r matches Err(e) && e@ == ErrorView::PreflightFailed(
                git_dir@ + " is not a directory — this does not appear to be a regular clone"@,
            )
        },
{
    if is_dir {
        return Ok(());
    }
    let mut m = copy_str(git_dir);
    push_str(&mut m, " is not a directory — this does not appear to be a regular clone");
    Err(GitreeError::PreflightFailed(m))
}

/// The non-bare worktrees, in order.
pub open spec fn non_bare(es: Seq<EntryView>) -> Seq<EntryView>
    decreases es.len(),
{
    if es.len() == 0 {
        Seq::empty()
    } else if es.last().bare {
        non_bare(es.drop_last())
    } else {
        non_bare(es.drop_last()).push(es.last())
    }
}

/// The branches of the locked worktrees among `es`, in order.
pub open spec fn locked_names(es: Seq<EntryView>) -> Seq<Seq<char>>
    decreases es.len(),
{
    if es.len() == 0 {
        Seq::empty()
    } else {
        let prev = locked_names(es.drop_last());
        if es.last().locked && es.last().branch is Some {
            prev.push(es.last().branch->0)
        } else {
            prev
        }
    }
}

/// Some worktree among `es` is locked.
pub open spec fn any_locked(es: Seq<EntryView>) -> bool {
    exists|i: int| 0 <= i < es.len() && #[trigger] es[i].locked
}

/// `parts` joined by `, `.
pub open spec fn join_commas(parts: Seq<Seq<char>>) -> Seq<char>
    decreases parts.len(),
{
    if parts.len() == 0 {
        Seq::empty()
    } else if parts.len() == 1 {
        parts[0]
    } else {
        join_commas(parts.drop_last()) + ", "@ + parts.last()
    }
}

/// The main worktree and the linked ones, or why the clone cannot be
/// migrated: no worktree, a detached main worktree, or locked worktrees.
pub open spec fn worktree_selection(es: Seq<EntryView>) -> core::result::Result<
    (Seq<char>, Seq<char>, Seq<EntryView>),
    Seq<char>,
> {
    let nb = non_bare(es);
    if nb.len() == 0 {
        Err("no worktrees found — this does not appear to be a regular clone"@)
    } else if nb[0].branch is None {
        Err(
            "main worktree has a detached HEAD — cannot determine branch name for relocation. Check out a branch before migrating."@,
        )
    } else if any_locked(nb) {
        Err(
            "locked worktrees cannot be migrated: "@ + join_commas(locked_names(nb))
                + " — unlock with `git worktree unlock <path>` first"@,
        )
    } else {
        Ok((nb[0].branch->0, nb[0].path, nb.drop_first()))
    }
}

/// The selected worktrees of a clone.
#[derive(Debug)]
pub struct Selection {
    /// The branch of the main worktree.
    pub main_branch: String,
    /// The path of the main worktree.
    pub main_path: String,
    /// The linked worktrees.
    pub linked: Vec<WorktreeEntry>,
}

/// Identifies the main worktree (the first non-bare one) and the linked
/// worktrees, refusing a clone with none, a detached main worktree, or
/// locked worktrees ([`GitreeError::PreflightFailed`]).
pub fn select_worktrees(worktrees: &[WorktreeEntry]) -> (r: Result<Selection>)
    ensures
        match worktree_selection(entry_views(worktrees@)) {
            Ok((b, p, linked)) => r matches Ok(s) && s.main_branch@ == b && s.main_path@ == p
                && entry_views(s.linked@) == linked,
            Err(m) => r matches Err(e) && e@ == ErrorView::PreflightFailed(m),
        },
{
    let mut nb: Vec<WorktreeEntry> = Vec::new();
    let mut i: usize = 0;
    assert(entry_views(worktrees@).take(0) =~= Seq::<EntryView>::empty());
    assert(entry_views(nb@) =~= Seq::<EntryView>::empty());
    while i < worktrees.len()
        invariant
            i <= worktrees@.len(),
            entry_views(nb@) == non_bare(entry_views(worktrees@).take(i as int)),
        decreases worktrees.len() - i,
    {
        let ghost t = entry_views(worktrees@).take(i + 1);
        assert(t.drop_last() == entry_views(worktrees@).take(i as int));
        assert(t.last() == worktrees@[i as int]@);
        if !worktrees[i].bare {
            let e = worktrees[i].duplicate();
            proof {
                assert(entry_views(nb@.push(e)) == entry_views(nb@).push(e@));
            }
            nb.push(e);
        }
        i = i + 1;
    }
    assert(entry_views(worktrees@).take(worktrees@.len() as int) == entry_views(worktrees@));
    let ghost nbv = non_bare(entry_views(worktrees@));
    if nb.len() == 0 {
        let mut m = String::new();
        push_str(&mut m, "no worktrees found — this does not appear to be a regular clone");
        return Err(GitreeError::PreflightFailed(m));
    }
    assert(nbv[0] == nb@[0]@);
    let main_branch = match &nb[0].branch {
        Some(b) => copy_str(b.as_str()),
        None => {
            let mut m = String::new();
            push_str(
                &mut m,
                "main worktree has a detached HEAD — cannot determine branch name for relocation. Check out a branch before migrating.",
            );
            return Err(GitreeError::PreflightFailed(m));
        },
    };
    let mut names = String::new();
    let mut count: usize = 0;
    let mut any = false;
    let mut k: usize = 0;
    assert(entry_views(nb@).take(0) =~= Seq::<EntryView>::empty());
    while k < nb.len()
        invariant
            k <= nb@.len(),
            entry_views(nb@) == nbv,
            names@ == join_commas(locked_names(nbv.take(k as int))),
            count == locked_names(nbv.take(k as int)).len(),
            count <= k,
            any == exists|j: int| 0 <= j < k && #[trigger] nbv[j].locked,
        decreases nb.len() - k,
    {
        let ghost t = nbv.take(k + 1);
        assert(t.drop_last() == nbv.take(k as int));
        assert(t.last() == nb@[k as int]@);
        if nb[k].locked {
            assert(nbv[k as int].locked);
            any = true;
            match &nb[k].branch {
                Some(b) => {
                    let ghost l = locked_names(nbv.take(k as int));
                    proof {
                        assert(l.push(b@).drop_last() == l);
                        assert(l.push(b@).last() == b@);
                        if count == 0 {
                            assert(l.push(b@).len() == 1);
                            assert(l.push(b@)[0] == b@);
                        }
                    }
                    if count > 0 {
                        push_str(&mut names, ", ");
                    }
                    push_str(&mut names, b.as_str());
                    count = count + 1;
                },
                None => {},
            }
        }
        k = k + 1;
    }
    assert(nbv.take(nb@.len() as int) == nbv);
    if any {
        let mut m = String::new();
        push_str(&mut m, "locked worktrees cannot be migrated: ");
        push_str(&mut m, names.as_str());
        push_str(&mut m, " — unlock with `git worktree unlock <path>` first");
        return Err(GitreeError::PreflightFailed(m));
    }
    let main_path = copy_str(nb[0].path.as_str());
    let mut linked: Vec<WorktreeEntry> = Vec::new();
    let mut j: usize = 1;
    assert(nbv.drop_first().take(0) =~= Seq::<EntryView>::empty());
    assert(entry_views(linked@) =~= Seq::<EntryView>::empty());
    while j < nb.len()
        invariant
            1 <= j <= nb@.len(),
            entry_views(nb@) == nbv,
            entry_views(linked@) == nbv.drop_first().take(j - 1),
        decreases nb.len() - j,
    {
        let e = nb[j].duplicate();
        proof {
            assert(entry_views(linked@.push(e)) == entry_views(linked@).push(e@));
            assert(nbv.drop_first().take(j as int) == nbv.drop_first().take(j - 1).push(
                nb@[j as int]@,
            ));
        }
        linked.push(e);
        j = j + 1;
    }
    assert(nbv.drop_first().take(nb@.len() - 1) == nbv.drop_first());
    Ok(Selection { main_branch, main_path, linked })
}

/// Refuses a dirty working tree unless `force` is set:
/// [`GitreeError::DirtyWorktree`] names the main branch and the clone, with
/// `--force` as the escape.
pub fn check_dirty(count: usize, main_branch: &str, cwd: &str, force: bool) -> (r: Result<()>)
    ensures
        if count > 0 && !force {
            r matches Err(e) && e@ == (ErrorView::DirtyWorktree {
                count: count as nat,
                branch: Some(main_branch@),
                path: Some(cwd@),
                escape: DirtyEscape::Force,
            })
        } else {
            r is Ok
        },
{
    if count > 0 && !force {
        Err(
            GitreeError::DirtyWorktree {
                count,
                branch: Some(copy_str(main_branch)),
                path: Some(copy_str(cwd)),
                escape: DirtyEscape::Force,
            },
        )
    } else {
        Ok(())
    }
}

/// The number of lines of `ls` that start with `??` (untracked files).
pub open spec fn untracked_in(ls: Seq<Seq<char>>) -> nat
    decreases ls.len(),
{
    if ls.len() == 0 {
        0
    } else {
        untracked_in(ls.drop_last()) + if starts_with(ls.last(), "??"@) {
            1nat
        } else {
            0nat
        }
    }
}

/// Counts the untracked files in `git status --porcelain` output.
pub fn count_untracked(status: &str) -> (n: usize)
    ensures
        n == untracked_in(lines(status@)),
{
    let ls = lines_of(status);
    let mut n: usize = 0;
    let mut i: usize = 0;
    assert(views(ls@).take(0) =~= Seq::<Seq<char>>::empty());
    while i < ls.len()
        invariant
            i <= ls@.len(),
            views(ls@) == lines(status@),
            n == untracked_in(views(ls@).take(i as int)),
            n <= i,
        decreases ls.len() - i,
    {
        let ghost t = views(ls@).take(i + 1);
        assert(t.drop_last() == views(ls@).take(i as int));
        assert(t.last() == ls@[i as int]@);
        if crate::text::has_prefix(ls[i].as_str(), "??") {
            n = n + 1;
        }
        i = i + 1;
    }
    assert(views(ls@).take(ls@.len() as int) == views(ls@));
    n
}

/// The report of pre-flight checks that all passed: the clone's `.git`
/// directory, the selected worktrees, and what the checks counted.  The
/// working tree is clean when no change was counted.
pub fn preflight_report(
    git_dir: String,
    selection: Selection,
    dirty_count: usize,
    untracked: usize,
    stash_count: usize,
    local_only_branches: Vec<String>,
    git_size: u64,
) -> (r: PreflightReport)
    ensures
        r.git_dir@ == git_dir@,
        r.main_branch@ == selection.main_branch@,
        r.main_wt_path@ == selection.main_path@,
        entry_views(r.linked_worktrees@) == entry_views(selection.linked@),
        r.untracked == untracked,
        r.clean == (dirty_count == 0),
        r.stash_count == stash_count,
        views(r.local_only_branches@) == views(local_only_branches@),
        r.git_size == git_size,
{
    PreflightReport {
        git_dir,
        main_branch: selection.main_branch,
        main_wt_path: selection.main_path,
        linked_worktrees: selection.linked,
        untracked,
        clean: dirty_count == 0,
        stash_count,
        local_only_branches,
        git_size,
    }
}

/// The error a failed `git fsck` becomes.
pub fn fsck_failure(e: &GitreeError) -> (r: GitreeError)
    ensures
        r@ == ErrorView::PreflightFailed(
            "git fsck failed — repository integrity is questionable: "@ + error_message(e@),
        ),
{
    let mut m = String::new();
    push_str(&mut m, "git fsck failed — repository integrity is questionable: ");
    let msg = e.message();
    push_str(&mut m, msg.as_str());
    GitreeError::PreflightFailed(m)
}

/// Refuses local-only branches unless `force` is set.
pub fn check_local_only(local_only: &Vec<String>, force: bool) -> (r: Result<()>)
    ensures
        if local_only@.len() > 0 && !force {
            r matches Err(e) && e@ == ErrorView::PreflightFailed(
                decimal(local_only@.len()) + " local-only branch(es) not on any remote"@,
            )
        } else {
            r is Ok
        },
{
    if local_only.len() > 0 && !force {
        let mut m = String::new();
        push_decimal(&mut m, local_only.len());
        push_str(&mut m, " local-only branch(es) not on any remote");
        Err(GitreeError::PreflightFailed(m))
    } else {
        Ok(())
    }
}

/// The branches of the linked worktrees that have one, in order.
pub fn linked_branches(report: &PreflightReport) -> (r: Vec<String>)
    ensures
        views(r@) == crate::completions::worktree_branch_names(entry_views(report.linked_worktrees@)),
{
    crate::completions::worktree_branches(report.linked_worktrees.as_slice())
}

/// The targets of the worktrees after migration: `<cwd>/<branch>` for the
/// main worktree's branch and each of `linked`.
pub open spec fn target_paths(cwd: Seq<char>, main: Seq<char>, linked: Seq<Seq<char>>) -> Seq<
    Seq<char>,
> {
    seq![path_join(cwd, main)] + linked.map_values(|b: Seq<char>| path_join(cwd, b))
}

/// Returns the target paths of every worktree after migration (main +
/// linked).
pub fn worktree_target_paths(cwd: &str, report: &PreflightReport) -> (r: Vec<String>)
    ensures
        views(r@) == target_paths(
            cwd@,
            report.main_branch@,
            crate::completions::worktree_branch_names(entry_views(report.linked_worktrees@)),
        ),
{
    let branches = linked_branches(report);
    let mut r: Vec<String> = Vec::new();
    r.push(crate::paths::join(cwd, report.main_branch.as_str()));
    let ghost lb = views(branches@);
    let mut i: usize = 0;
    assert(views(r@) =~= seq![path_join(cwd@, report.main_branch@)]);
    while i < branches.len()
        invariant
            i <= branches@.len(),
            lb == views(branches@),
            views(r@) == seq![path_join(cwd@, report.main_branch@)] + lb.take(i as int).map_values(
                |b: Seq<char>| path_join(cwd@, b),
            ),
        decreases branches.len() - i,
    {
        let p = crate::paths::join(cwd, branches[i].as_str());
        proof {
            assert(views(r@.push(p)) == views(r@).push(p@));
            assert(lb.take(i + 1).map_values(|b: Seq<char>| path_join(cwd@, b)) == lb.take(
                i as int,
            ).map_values(|b: Seq<char>| path_join(cwd@, b)).push(path_join(cwd@, lb[i as int])));
        }
        r.push(p);
        i = i + 1;
    }
    assert(lb.take(lb.len() as int) == lb);
    r
}

/// The first component of a relative path when it is a normal name (not
/// the root, `.` or `..`), as `Path::components` yields it.
pub open spec fn first_normal_component(b: Seq<char>) -> Option<Seq<char>> {
    if b.len() == 0 || b[0] == '/' {
        None
    } else {
        let seg = b.take(crate::text::find_char_from(b, '/', 0));
        if seg == "."@ || seg == ".."@ {
            None
        } else {
            Some(seg)
        }
    }
}

/// The names of the first components, when normal, of `bs`, in order.
pub open spec fn top_dirs(bs: Seq<Seq<char>>) -> Seq<Seq<char>>
    decreases bs.len(),
{
    if bs.len() == 0 {
        Seq::empty()
    } else {
        match first_normal_component(bs.last()) {
            Some(c) => top_dirs(bs.drop_last()).push(c),
            None => top_dirs(bs.drop_last()),
        }
    }
}

/// The top-level entries that stay in place while the main worktree is
/// converted: `.git`, `.bare`, `.shared`, and the top-level directory of
/// each worktree (main and linked).
pub open spec fn skipped_top_level(main: Seq<char>, linked: Seq<Seq<char>>) -> Seq<Seq<char>> {
    seq![".git"@, ".bare"@, ".shared"@] + top_dirs(seq![main] + linked)
}

/// The first component of `b` when it is a normal name.
pub fn first_component(b: &str) -> (r: Option<String>)
    ensures
        crate::text::opt_view(r) == first_normal_component(b@),
{
    let v = crate::text::chars_of(b);
    if v.len() == 0 || v[0] == '/' {
        return None;
    }
    let mut i: usize = 0;
    while i < v.len() && v[i] != '/'
        invariant
            i <= v@.len(),
            v@ == b@,
            forall|k: int| 0 <= k < i ==> v@[k] != '/',
        decreases v.len() - i,
    {
        i = i + 1;
    }
    proof {
        crate::text::lemma_find_char_from(v@, '/', 0, i as int);
    }
    let seg = crate::text::string_of(&v, 0, i);
    assert(seg@ == b@.take(i as int));
    if same_text(seg.as_str(), ".") || same_text(seg.as_str(), "..") {
        None
    } else {
        Some(seg)
    }
}

/// Returns the names of top-level entries that must stay in place during
/// the main-worktree conversion.
pub fn skip_top_level_dirs(main_branch: &str, linked_branches: &Vec<String>) -> (r: Vec<String>)
    ensures
        views(r@) == skipped_top_level(main_branch@, views(linked_branches@)),
{
    let mut r: Vec<String> = Vec::new();
    let mut names: Vec<String> = Vec::new();
    names.push(copy_str(main_branch));
    let mut i: usize = 0;
    assert(views(names@) =~= seq![main_branch@]);
    while i < linked_branches.len()
        invariant
            i <= linked_branches@.len(),
            views(names@) == seq![main_branch@] + views(linked_branches@).take(i as int),
        decreases linked_branches.len() - i,
    {
        let c = copy_str(linked_branches[i].as_str());
        proof {
            assert(views(names@.push(c)) == views(names@).push(c@));
            assert(views(linked_branches@).take(i + 1) == views(linked_branches@).take(
                i as int,
            ).push(c@));
        }
        names.push(c);
        i = i + 1;
    }
    assert(views(linked_branches@).take(linked_branches@.len() as int) == views(linked_branches@));
    r.push(copy_str(".git"));
    r.push(copy_str(".bare"));
    r.push(copy_str(".shared"));
    assert(views(r@) =~= seq![".git"@, ".bare"@, ".shared"@]);
    let ghost all = views(names@);
    let mut k: usize = 0;
    assert(all.take(0) =~= Seq::<Seq<char>>::empty());
    while k < names.len()
        invariant
            k <= names@.len(),
            all == views(names@),
            views(r@) == seq![".git"@, ".bare"@, ".shared"@] + top_dirs(all.take(k as int)),
        decreases names.len() - k,
    {
        let ghost t = all.take(k + 1);
        assert(t.drop_last() == all.take(k as int));
        assert(t.last() == names@[k as int]@);
        match first_component(names[k].as_str()) {
            Some(c) => {
                proof {
                    assert(views(r@.push(c)) == views(r@).push(c@));
                }
                r.push(c);
            },
            None => {},
        }
        k = k + 1;
    }
    assert(all.take(all.len() as int) == all);
    r
}


// ---------------------------------------------------------------------------
// Sizes
// ---------------------------------------------------------------------------

/// `2^e`.
pub open spec fn two_pow(e: nat) -> nat
    decreases e,
{
    if e == 0 {
        1
    } else {
        2 * two_pow((e - 1) as nat)
    }
}

/// `1024^k`.
pub open spec fn kib_pow(k: nat) -> nat
    decreases k,
{
    if k == 0 {
        1
    } else {
        1024 * kib_pow((k - 1) as nat)
    }
}

/// `n / d` rounded to the nearest integer, a tie going to the even one.
pub open spec fn div_round_even(n: nat, d: nat) -> nat {
    let q = n / d;
    let r = n % d;
    if 2 * r > d || (2 * r == d && q % 2 == 1) {
        q + 1
    } else {
        q
    }
}

/// How many low bits of `m` an `f64` cannot keep: the halvings that bring
/// `m` below `2^53`.
pub open spec fn f64_dropped_bits(m: nat) -> nat
    decreases m,
{
    if m < 0x20_0000_0000_0000 {
        0
    } else {
        1 + f64_dropped_bits(m / 2)
    }
}

/// The value of `n as f64`: `n` rounded to 53 significant bits, a tie going
/// to the even neighbour.
pub open spec fn nearest_f64(n: nat) -> nat {
    let d = two_pow(f64_dropped_bits(n));
    div_round_even(n, d) * d
}

/// The unit index a size of `v` bytes is shown in: the largest `k <= 4`
/// with `1024^k <= v`.
pub open spec fn size_unit(v: nat) -> nat {
    if v >= kib_pow(4) {
        4
    } else if v >= kib_pow(3) {
        3
    } else if v >= kib_pow(2) {
        2
    } else if v >= kib_pow(1) {
        1
    } else {
        0
    }
}

/// The name of unit `k`.
pub open spec fn unit_name(k: nat) -> Seq<char> {
    if k == 0 {
        "B"@
    } else if k == 1 {
        "KiB"@
    } else if k == 2 {
        "MiB"@
    } else if k == 3 {
        "GiB"@
    } else {
        "TiB"@
    }
}

/// A byte count for people: below 1 KiB the exact count and ` B`;
/// otherwise the count as an `f64`, divided by `1024^k` for its unit, to
/// one decimal (rounded half to even), and the unit's name.
pub open spec fn size_text(bytes: nat) -> Seq<char> {
    let v = nearest_f64(bytes);
    let k = size_unit(v);
    if k == 0 {
        decimal(bytes) + " B"@
    } else {
        let t = div_round_even(v * 10, kib_pow(k));
        decimal(t / 10) + "."@ + seq![digit(t % 10)] + " "@ + unit_name(k)
    }
}

/// `n as f64`, held exactly as an integer.
fn nearest_f64_of(n: u64) -> (v: u128)
    ensures
        v == nearest_f64(n as nat),
        n < v + 0x1000,
        v <= n + 0x1000,
{
    let mut m: u64 = n;
    let mut d: u64 = 1;
    let ghost mut e: nat = 0;
    proof {
        vstd::arithmetic::div_mod::lemma_fundamental_div_mod(n as int, 1);
    }
    while m >= 0x20_0000_0000_0000
        invariant
            1 <= d < 0x1000,
            d == two_pow(e),
            m == n / d,
            d * m <= n,
            e + f64_dropped_bits(m as nat) == f64_dropped_bits(n as nat),
        decreases m,
    {
        proof {
            assert(d * 0x20_0000_0000_0000 <= d * m) by (nonlinear_arith)
                requires
                    m >= 0x20_0000_0000_0000,
                    d >= 1,
            ;
            assert(d * 2 < 0x1000);
            vstd::arithmetic::div_mod::lemma_div_denominator(n as int, d as int, 2);
            vstd::arithmetic::div_mod::lemma_fundamental_div_mod(n as int, (d * 2) as int);
            vstd::arithmetic::div_mod::lemma_mod_bound(n as int, (d * 2) as int);
        }
        m = m / 2;
        d = d * 2;
        proof {
            e = e + 1;
        }
    }
    let q = n / d;
    let r = n % d;
    proof {
        vstd::arithmetic::div_mod::lemma_fundamental_div_mod(n as int, d as int);
    }
    let t: u64 = if 2 * r > d || (2 * r == d && q % 2 == 1) {
        q + 1
    } else {
        q
    };
    proof {
        assert((t as int) * (d as int) < 0x1_0000_0000_0000_0000_0000) by (nonlinear_arith)
            requires
                t <= 0xffff_ffff_ffff_ffff,
                d < 0x1000,
        ;
    }
    let v = (t as u128) * (d as u128);
    proof {
        assert(f64_dropped_bits(m as nat) == 0);
        assert(t == div_round_even(n as nat, d as nat));
        assert(v <= n + 0x1000 && n < v + 0x1000) by (nonlinear_arith)
            requires
                v == t * d,
                n == d * q + r,
                r < d,
                d < 0x1000,
                t == q || t == q + 1,
        ;
    }
    v
}

/// Formats a byte count as `f64` formatting with one decimal shows it
/// (`512 B`, `1.5 KiB`).
pub fn format_size(bytes: u64) -> (s: String)
    ensures
        s@ == size_text(bytes as nat),
{
    let v = nearest_f64_of(bytes);
    proof {
        reveal_with_fuel(kib_pow, 5);
    }
    let k: usize = if v >= 0x100_0000_0000 {
        4
    } else if v >= 0x4000_0000 {
        3
    } else if v >= 0x10_0000 {
        2
    } else if v >= 0x400 {
        1
    } else {
        0
    };
    assert(k == size_unit(v as nat));
    let mut s = String::new();
    if k == 0 {
        proof {
            assert(f64_dropped_bits(bytes as nat) == 0);
            assert(two_pow(0) == 1);
        }
        push_decimal(&mut s, bytes as usize);
        push_str(&mut s, " B");
        return s;
    }
    let d: u128 = if k == 4 {
        0x100_0000_0000
    } else if k == 3 {
        0x4000_0000
    } else if k == 2 {
        0x10_0000
    } else {
        0x400
    };
    assert(d == kib_pow(k as nat));
    let n = v * 10;
    let q = n / d;
    let r = n % d;
    let t: u128 = if 2 * r > d || (2 * r == d && q % 2 == 1) {
        q + 1
    } else {
        q
    };
    assert(t == div_round_even((v * 10) as nat, kib_pow(k as nat)));
    push_wide_decimal(&mut s, t / 10);
    push_str(&mut s, ".");
    s.push(digit_char((t % 10) as usize));
    push_str(&mut s, " ");
    let unit: &str = if k == 1 {
        "KiB"
    } else if k == 2 {
        "MiB"
    } else if k == 3 {
        "GiB"
    } else {
        "TiB"
    };
    push_str(&mut s, unit);
    s
}


// ---------------------------------------------------------------------------
// Relocation and the converted main worktree
// ---------------------------------------------------------------------------

/// Where a linked worktree moves: `<cwd>/<branch>`, nothing when it is
/// already there, or an error when it has no branch.
pub open spec fn relocation(cwd: Seq<char>, wt: EntryView) -> core::result::Result<
    Option<Seq<char>>,
    Seq<char>,
> {
    match wt.branch {
        None => Err(
            "a linked worktree has a detached HEAD — cannot determine branch name for relocation"@,
        ),
        Some(b) => if path_eq_result(wt.path, path_join(cwd, b)) {
            Ok(None)
        } else {
            Ok(Some(path_join(cwd, b)))
        },
    }
}

/// The path a linked worktree must move to, `None` when it is already at
/// `<cwd>/<branch>`; a detached worktree cannot be placed
/// ([`GitreeError::PreflightFailed`]).
pub fn relocation_target(cwd: &str, wt: &WorktreeEntry) -> (r: Result<Option<String>>)
    ensures
        match relocation(cwd@, wt@) {
            Ok(t) => r matches Ok(o) && opt_view(o) == t,
            Err(m) => r matches Err(e) && e@ == ErrorView::PreflightFailed(m),
        },
{
    match &wt.branch {
        None => {
            let mut m = String::new();
            push_str(
                &mut m,
                "a linked worktree has a detached HEAD — cannot determine branch name for relocation",
            );
            Err(GitreeError::PreflightFailed(m))
        },
        Some(b) => {
            let target = join(cwd, b.as_str());
            if path_eq(wt.path.as_str(), target.as_str()) {
                Ok(None)
            } else {
                Ok(Some(target))
            }
        },
    }
}

/// The error for a relocation whose target is already taken.
pub fn relocation_blocked(target: &str, branch: &str) -> (e: GitreeError)
    ensures
        e@ == ErrorView::PreflightFailed(
            "target path "@ + target@ + " already exists — cannot relocate worktree '"@ + branch@
                + "' (move or remove it first)"@,
        ),
{
    let mut m = String::new();
    push_str(&mut m, "target path ");
    push_str(&mut m, target);
    push_str(&mut m, " already exists — cannot relocate worktree '");
    push_str(&mut m, branch);
    push_str(&mut m, "' (move or remove it first)");
    GitreeError::PreflightFailed(m)
}

/// The name of the main worktree's state directory under
/// `.bare/worktrees/`: git names it after the last component of the
/// worktree's path, `<cwd>/<branch>`, falling back to the branch with `/`
/// replaced by `-`.
pub open spec fn state_dir_name(cwd: Seq<char>, main_branch: Seq<char>) -> Seq<char> {
    match path_file_name_result(path_join(cwd, main_branch)) {
        Some(n) => n,
        None => replace(main_branch, "/"@, "-"@),
    }
}

/// The name of the main worktree's state directory.
pub fn state_name(cwd: &str, main_branch: &str) -> (r: String)
    ensures
        r@ == state_dir_name(cwd@, main_branch@),
{
    let main_dir = join(cwd, main_branch);
    match path_file_name(main_dir.as_str()) {
        Some(n) => n,
        None => {
            proof {
                reveal_strlit("/");
            }
            replace_str(main_branch, "/", "-")
        },
    }
}

/// The error for a state directory that another worktree already holds.
pub fn state_collision(wt_state: &str, state_name: &str) -> (e: GitreeError)
    ensures
        e@ == ErrorView::PreflightFailed(
            "worktree state directory "@ + wt_state@ + " already exists — the branch basename '"@
                + state_name@
                + "' collides with an existing worktree. Rename the branch or remove the conflicting worktree."@,
        ),
{
    let mut m = String::new();
    push_str(&mut m, "worktree state directory ");
    push_str(&mut m, wt_state);
    push_str(&mut m, " already exists — the branch basename '");
    push_str(&mut m, state_name);
    push_str(
        &mut m,
        "' collides with an existing worktree. Rename the branch or remove the conflicting worktree.",
    );
    GitreeError::PreflightFailed(m)
}

/// The per-worktree files that move from `.bare/` into the main worktree's
/// state directory when it becomes a linked worktree.
pub fn transient_files() -> (r: Vec<&'static str>)
    ensures
        r@ == seq![
            "COMMIT_EDITMSG",
            "FETCH_HEAD",
            "ORIG_HEAD",
            "REBASE_HEAD",
            "MERGE_HEAD",
            "MERGE_MSG",
            "MERGE_MODE",
            "REVERT_HEAD",
            "CHERRY_PICK_HEAD",
            "BISECT_LOG",
            "BISECT_NAMES",
            "BISECT_TERMS",
            "AUTO_GC",
        ],
{
    vec![
        "COMMIT_EDITMSG",
        "FETCH_HEAD",
        "ORIG_HEAD",
        "REBASE_HEAD",
        "MERGE_HEAD",
        "MERGE_MSG",
        "MERGE_MODE",
        "REVERT_HEAD",
        "CHERRY_PICK_HEAD",
        "BISECT_LOG",
        "BISECT_NAMES",
        "BISECT_TERMS",
        "AUTO_GC",
    ]
}

/// The contents of the wrapper's `.git` file.
pub fn wrapper_git_file_text() -> (r: String)
    ensures
        r@ == "gitdir: ./.bare\n"@,
{
    let mut r = String::new();
    push_str(&mut r, "gitdir: ./.bare\n");
    r
}

/// The contents of the state directory's `commondir` file, which points
/// back at `.bare`.
pub fn commondir_text() -> (r: String)
    ensures
        r@ == "../..\n"@,
{
    let mut r = String::new();
    push_str(&mut r, "../..\n");
    r
}

/// The contents of the state directory's `gitdir` file: the absolute path
/// of the worktree's `.git` file.
pub fn gitdir_text(main_abs: &str) -> (r: String)
    ensures
        r@ == path_join(main_abs@, ".git"@) + "\n"@,
{
    let mut r = join(main_abs, ".git");
    push_str(&mut r, "\n");
    r
}

/// The contents of the main worktree's `.git` file: a pointer at its state
/// directory `<bare>/worktrees/<state>`.
pub fn worktree_git_file_text(bare_abs: &str, state: &str) -> (r: String)
    ensures
        r@ == "gitdir: "@ + path_join(path_join(bare_abs@, "worktrees"@), state@) + "\n"@,
{
    let mut r = String::new();
    push_str(&mut r, "gitdir: ");
    let dir = join(bare_abs, "worktrees");
    let p = join(dir.as_str(), state);
    push_str(&mut r, p.as_str());
    push_str(&mut r, "\n");
    r
}

// ---------------------------------------------------------------------------
// Verification of the result
// ---------------------------------------------------------------------------

/// The branch of a worktree as the checks show it, `?` when detached.
pub open spec fn branch_or_unknown(b: Option<Seq<char>>) -> Seq<char> {
    match b {
        Some(b) => b,
        None => "?"@,
    }
}

/// Scans `es` from `i` on: every non-bare worktree must sit, by `actual`
/// (its canonical path), at `<cwd>/<branch>`.  The result is the number of
/// non-bare worktrees, starting from `count`, or the message for the first
/// misplaced one.
pub open spec fn layout_scan(
    es: Seq<EntryView>,
    actual: Seq<Seq<char>>,
    cwd: Seq<char>,
    i: int,
    count: nat,
) -> core::result::Result<nat, Seq<char>>
    decreases es.len() - i,
{
    if i < 0 || i >= es.len() {
        Ok(count)
    } else if es[i].bare {
        layout_scan(es, actual, cwd, i + 1, count)
    } else {
        let b = branch_or_unknown(es[i].branch);
        let expected = path_join(cwd, b);
        if !path_eq_result(actual[i], expected) {
            Err(
                "verification failed: worktree '"@ + b + "' is at "@ + es[i].path
                    + " but expected "@ + expected
                    + ".\nRecovery: inspect `git worktree list` and run `git worktree repair`"@,
            )
        } else {
            layout_scan(es, actual, cwd, i + 1, count + 1)
        }
    }
}

/// The message of a wrong worktree count.
pub open spec fn count_mismatch(found: nat, expected: nat) -> Seq<char> {
    "verification failed: found "@ + decimal(found) + " worktree(s) but expected "@ + decimal(
        expected,
    ) + ".\nRecovery: inspect `git worktree list` and run `git worktree repair`"@
}

/// Checks the layout after migration: every non-bare worktree of `worktrees`
/// (with `actual[i]` the canonical path of `worktrees[i]`) sits at
/// `<cwd_abs>/<branch>`, and there are `expected` of them.  Returns their
/// number.
pub fn verify_layout(
    worktrees: &[WorktreeEntry],
    actual: &[String],
    cwd_abs: &str,
    expected: usize,
) -> (r: Result<usize>)
    requires
        actual@.len() == worktrees@.len(),
    ensures
        match layout_scan(entry_views(worktrees@), views(actual@), cwd_abs@, 0, 0) {
            Err(m) => r matches Err(e) && e@ == ErrorView::PreflightFailed(m),
            Ok(n) => if n == expected {
                r == Ok::<usize, GitreeError>(n as usize)
            } else {
                r matches Err(e) && e@ == ErrorView::PreflightFailed(
                    count_mismatch(n, expected as nat),
                )
            },
        },
{
    let ghost es = entry_views(worktrees@);
    let ghost av = views(actual@);
    let mut count: usize = 0;
    let mut i: usize = 0;
    while i < worktrees.len()
        invariant
            i <= worktrees@.len(),
            actual@.len() == worktrees@.len(),
            es == entry_views(worktrees@),
            av == views(actual@),
            count <= i,
            layout_scan(es, av, cwd_abs@, 0, 0) == layout_scan(es, av, cwd_abs@, i as int, count as nat),
        decreases worktrees.len() - i,
    {
        let wt = &worktrees[i];
        assert(es[i as int] == wt@);
        assert(av[i as int] == actual@[i as int]@);
        if !wt.bare {
            let b: &str = match &wt.branch {
                Some(b) => b.as_str(),
                None => "?",
            };
            assert(b@ == branch_or_unknown(es[i as int].branch));
            let expected_path = join(cwd_abs, b);
            if !path_eq(actual[i].as_str(), expected_path.as_str()) {
                let mut m = String::new();
                push_str(&mut m, "verification failed: worktree '");
                push_str(&mut m, b);
                push_str(&mut m, "' is at ");
                push_str(&mut m, wt.path.as_str());
                push_str(&mut m, " but expected ");
                push_str(&mut m, expected_path.as_str());
                push_str(
                    &mut m,
                    ".\nRecovery: inspect `git worktree list` and run `git worktree repair`",
                );
                return Err(GitreeError::PreflightFailed(m));
            }
            count = count + 1;
        }
        i = i + 1;
    }
    if count != expected {
        let mut m = String::new();
        push_str(&mut m, "verification failed: found ");
        push_decimal(&mut m, count);
        push_str(&mut m, " worktree(s) but expected ");
        push_decimal(&mut m, expected);
        push_str(&mut m, ".\nRecovery: inspect `git worktree list` and run `git worktree repair`");
        return Err(GitreeError::PreflightFailed(m));
    }
    Ok(count)
}


// ---------------------------------------------------------------------------
// The plan shown before migrating
// ---------------------------------------------------------------------------

/// `items`, each on its own line after four spaces.
pub open spec fn listed(items: Seq<Seq<char>>) -> Seq<char>
    decreases items.len(),
{
    if items.len() == 0 {
        Seq::empty()
    } else {
        listed(items.drop_last()) + "    "@ + items.last() + "\n"@
    }
}

/// The plan's line for a linked worktree: where it moves, or that it is
/// already in place.
pub open spec fn relocation_line(cwd: Seq<char>, wt: EntryView) -> Seq<char> {
    let b = branch_or_unknown(wt.branch);
    let t = path_join(cwd, b);
    if path_eq_result(wt.path, t) {
        "    "@ + b + ": "@ + wt.path + " (already in place)\n"@
    } else {
        "    "@ + b + ": "@ + wt.path + " → "@ + t + "\n"@
    }
}

/// The plan's lines for the linked worktrees `es`, in order.
pub open spec fn relocation_lines(cwd: Seq<char>, es: Seq<EntryView>) -> Seq<char>
    decreases es.len(),
{
    if es.len() == 0 {
        Seq::empty()
    } else {
        relocation_lines(cwd, es.drop_last()) + relocation_line(cwd, es.last())
    }
}

/// The opening of the plan: the clone, its `.git` and its working tree.
pub open spec fn summary_head(r: PreflightReport, cwd: Seq<char>) -> Seq<char> {
    "\nMigration plan:\n  Source: "@ + cwd + "\n  .git dir: "@ + r.git_dir@ + " ("@ + size_text(
        r.git_size as nat,
    ) + ")\n  Working tree: "@ + (if r.clean {
        "clean"@
    } else {
        "dirty"@
    }) + "\n"@
}

/// The untracked files, when there are any, and the stashes.
pub open spec fn summary_counts(r: PreflightReport) -> Seq<char> {
    (if r.untracked > 0 {
        "  Untracked files: "@ + decimal(r.untracked as nat) + "\n"@
    } else {
        Seq::empty()
    }) + "  Stashes: "@ + decimal(r.stash_count as nat) + " (preserved)\n"@
}

/// The local-only branches, when there are any.
pub open spec fn local_only_section(r: PreflightReport) -> Seq<char> {
    if r.local_only_branches@.len() > 0 {
        "  Local-only branches:\n"@ + listed(views(r.local_only_branches@))
    } else {
        Seq::empty()
    }
}

/// The first part of the plan: what the pre-flight checks found.
pub open spec fn plan_summary(r: PreflightReport, cwd: Seq<char>) -> Seq<char> {
    summary_head(r, cwd) + summary_counts(r) + local_only_section(r)
}

/// The second part of the plan: where each worktree goes.
pub open spec fn plan_relocation(r: PreflightReport, cwd: Seq<char>) -> Seq<char> {
    "\n  Worktree relocation:\n    "@ + r.main_branch@ + ": "@ + r.main_wt_path@ + " → "@
        + path_join(cwd, r.main_branch@) + "/\n"@ + relocation_lines(
        cwd,
        entry_views(r.linked_worktrees@),
    )
}

/// The last part of the plan: the steps of the migration.
pub open spec fn plan_steps(r: PreflightReport, cwd: Seq<char>) -> Seq<char> {
    "\n  Steps:\n    1. Relocate linked worktrees into "@ + cwd
        + "/\n    2. Rename .git → .bare\n    3. Write .git file (gitdir: ./.bare)\n    4. Create .shared/ directory\n    5. Move working files into "@
        + path_join(cwd, r.main_branch@)
        + "/\n    6. Convert main worktree into a linked worktree\n    7. Ensure .gitignore has .shared/\n    8. Update remote.origin.fetch config\n    9. Fetch origin\n    10. Repair worktree pointers\n"@
}

/// The migration plan shown before asking to proceed.
pub open spec fn plan_text(r: PreflightReport, cwd: Seq<char>) -> Seq<char> {
    plan_summary(r, cwd) + plan_relocation(r, cwd) + plan_steps(r, cwd)
}

fn push_summary_head(s: &mut String, r: &PreflightReport, cwd: &str)
    ensures
        final(s)@ == old(s)@ + summary_head(*r, cwd@),
{
    push_str(s, "\nMigration plan:\n  Source: ");
    push_str(s, cwd);
    push_str(s, "\n  .git dir: ");
    push_str(s, r.git_dir.as_str());
    push_str(s, " (");
    let size = format_size(r.git_size);
    push_str(s, size.as_str());
    push_str(s, ")\n  Working tree: ");
    if r.clean {
        push_str(s, "clean");
    } else {
        push_str(s, "dirty");
    }
    push_str(s, "\n");
    assert(s@ =~= old(s)@ + summary_head(*r, cwd@));
}

fn push_summary_counts(s: &mut String, r: &PreflightReport)
    ensures
        final(s)@ == old(s)@ + summary_counts(*r),
{
    if r.untracked > 0 {
        push_str(s, "  Untracked files: ");
        push_decimal(s, r.untracked);
        push_str(s, "\n");
    }
    push_str(s, "  Stashes: ");
    push_decimal(s, r.stash_count);
    push_str(s, " (preserved)\n");
    assert(s@ =~= old(s)@ + summary_counts(*r));
}

fn push_local_only_section(s: &mut String, r: &PreflightReport)
    ensures
        final(s)@ == old(s)@ + local_only_section(*r),
{
    if r.local_only_branches.len() > 0 {
        push_str(s, "  Local-only branches:\n");
        let ghost head = s@;
        let mut i: usize = 0;
        assert(views(r.local_only_branches@).take(0) =~= Seq::<Seq<char>>::empty());
        while i < r.local_only_branches.len()
            invariant
                i <= r.local_only_branches@.len(),
                s@ == head + listed(views(r.local_only_branches@).take(i as int)),
            decreases r.local_only_branches.len() - i,
        {
            push_str(s, "    ");
            push_str(s, r.local_only_branches[i].as_str());
            push_str(s, "\n");
            proof {
                let t = views(r.local_only_branches@).take(i + 1);
                assert(t.drop_last() == views(r.local_only_branches@).take(i as int));
                assert(t.last() == r.local_only_branches@[i as int]@);
            }
            i = i + 1;
        }
        assert(views(r.local_only_branches@).take(r.local_only_branches@.len() as int) == views(
            r.local_only_branches@,
        ));
        assert(s@ =~= old(s)@ + local_only_section(*r));
    } else {
        assert(s@ =~= old(s)@ + local_only_section(*r));
    }
}

fn push_relocation_line(s: &mut String, cwd: &str, wt: &WorktreeEntry)
    ensures
        final(s)@ == old(s)@ + relocation_line(cwd@, wt@),
{
    let b: &str = match &wt.branch {
        Some(b) => b.as_str(),
        None => "?",
    };
    let t = join(cwd, b);
    push_str(s, "    ");
    push_str(s, b);
    push_str(s, ": ");
    push_str(s, wt.path.as_str());
    if path_eq(wt.path.as_str(), t.as_str()) {
        push_str(s, " (already in place)\n");
    } else {
        push_str(s, " → ");
        push_str(s, t.as_str());
        push_str(s, "\n");
    }
    assert(s@ =~= old(s)@ + relocation_line(cwd@, wt@));
}

fn push_plan_relocation(s: &mut String, r: &PreflightReport, cwd: &str)
    ensures
        final(s)@ == old(s)@ + plan_relocation(*r, cwd@),
{
    push_str(s, "\n  Worktree relocation:\n    ");
    push_str(s, r.main_branch.as_str());
    push_str(s, ": ");
    push_str(s, r.main_wt_path.as_str());
    push_str(s, " → ");
    let main_dir = join(cwd, r.main_branch.as_str());
    push_str(s, main_dir.as_str());
    push_str(s, "/\n");
    let ghost head = s@;
    let ghost es = entry_views(r.linked_worktrees@);
    let mut i: usize = 0;
    assert(es.take(0) =~= Seq::<EntryView>::empty());
    while i < r.linked_worktrees.len()
        invariant
            i <= r.linked_worktrees@.len(),
            es == entry_views(r.linked_worktrees@),
            s@ == head + relocation_lines(cwd@, es.take(i as int)),
        decreases r.linked_worktrees.len() - i,
    {
        push_relocation_line(s, cwd, &r.linked_worktrees[i]);
        proof {
            let t = es.take(i + 1);
            assert(t.drop_last() == es.take(i as int));
            assert(t.last() == r.linked_worktrees@[i as int]@);
        }
        i = i + 1;
    }
    assert(es.take(es.len() as int) == es);
    assert(s@ =~= old(s)@ + plan_relocation(*r, cwd@));
}

fn push_plan_steps(s: &mut String, r: &PreflightReport, cwd: &str)
    ensures
        final(s)@ == old(s)@ + plan_steps(*r, cwd@),
{
    push_str(s, "\n  Steps:\n    1. Relocate linked worktrees into ");
    push_str(s, cwd);
    push_str(
        s,
        "/\n    2. Rename .git → .bare\n    3. Write .git file (gitdir: ./.bare)\n    4. Create .shared/ directory\n    5. Move working files into ",
    );
    let main_dir = join(cwd, r.main_branch.as_str());
    push_str(s, main_dir.as_str());
    push_str(
        s,
        "/\n    6. Convert main worktree into a linked worktree\n    7. Ensure .gitignore has .shared/\n    8. Update remote.origin.fetch config\n    9. Fetch origin\n    10. Repair worktree pointers\n",
    );
    assert(s@ =~= old(s)@ + plan_steps(*r, cwd@));
}

/// The migration plan for `report` on the clone at `cwd`, as printed
/// before asking to proceed.
pub fn plan(report: &PreflightReport, cwd: &str) -> (s: String)
    ensures
        s@ == plan_text(*report, cwd@),
{
    let mut s = String::new();
    push_summary_head(&mut s, report, cwd);
    push_summary_counts(&mut s, report);
    push_local_only_section(&mut s, report);
    push_plan_relocation(&mut s, report, cwd);
    push_plan_steps(&mut s, report, cwd);
    assert(s@ =~= plan_text(*report, cwd@));
    s
}


// ---------------------------------------------------------------------------
// Laws
// ---------------------------------------------------------------------------

proof fn lemma_top_dirs_member(bs: Seq<Seq<char>>, b: Seq<char>)
    requires
        bs.contains(b),
        first_normal_component(b) is Some,
    ensures
        top_dirs(bs).contains(first_normal_component(b)->0),
    decreases bs.len(),
{
    let c = first_normal_component(b)->0;
    if bs.last() == b {
        assert(top_dirs(bs) == top_dirs(bs.drop_last()).push(c));
        assert(top_dirs(bs).last() == c);
    } else {
        let i = choose|i: int| 0 <= i < bs.len() && bs[i] == b;
        assert(bs.drop_last()[i] == b);
        lemma_top_dirs_member(bs.drop_last(), b);
        let p = top_dirs(bs.drop_last());
        let j = choose|j: int| 0 <= j < p.len() && p[j] == c;
        match first_normal_component(bs.last()) {
            Some(d) => assert(p.push(d)[j] == c),
            None => {},
        }
    }
}

/// While the main worktree is converted, the git database, the wrapper's
/// `.git` file and `.shared/` stay in place, and so does the top-level
/// directory of every worktree, main or linked.
pub proof fn lemma_skip_keeps_worktree_dirs(main: Seq<char>, linked: Seq<Seq<char>>, b: Seq<char>)
    requires
        b == main || linked.contains(b),
    ensures
        skipped_top_level(main, linked).contains(".git"@),
        skipped_top_level(main, linked).contains(".bare"@),
        skipped_top_level(main, linked).contains(".shared"@),
        first_normal_component(b) matches Some(c) ==> skipped_top_level(main, linked).contains(c),
{
    let reserved = seq![".git"@, ".bare"@, ".shared"@];
    let all = seq![main] + linked;
    let k = skipped_top_level(main, linked);
    assert(k[0] == ".git"@);
    assert(k[1] == ".bare"@);
    assert(k[2] == ".shared"@);
    if b == main {
        assert(all[0] == b);
    } else {
        let i = choose|i: int| 0 <= i < linked.len() && linked[i] == b;
        assert(all[i + 1] == b);
    }
    if first_normal_component(b) is Some {
        let c = first_normal_component(b)->0;
        lemma_top_dirs_member(all, b);
        let t = top_dirs(all);
        let j = choose|j: int| 0 <= j < t.len() && t[j] == c;
        assert(k[j + 3] == c);
    }
}

/// Counts of bytes below `2^53` are held by an `f64` exactly, so their
/// size is computed from the exact count.
pub proof fn lemma_small_sizes_exact(n: nat)
    requires
        n < 0x20_0000_0000_0000,
    ensures
        nearest_f64(n) == n,
{
    assert(f64_dropped_bits(n) == 0);
    assert(two_pow(0) == 1);
}


proof fn lemma_branch_listed(es: Seq<EntryView>, i: int)
    requires
        0 <= i < es.len(),
        es[i].branch is Some,
    ensures
        crate::completions::worktree_branch_names(es).contains(es[i].branch->0),
    decreases es.len(),
{
    let names = crate::completions::worktree_branch_names(es);
    if i == es.len() - 1 {
        assert(names.last() == es[i].branch->0);
    } else {
        lemma_branch_listed(es.drop_last(), i);
        let p = crate::completions::worktree_branch_names(es.drop_last());
        let j = choose|j: int| 0 <= j < p.len() && p[j] == es[i].branch->0;
        match es.last().branch {
            Some(b) => assert(p.push(b)[j] == es[i].branch->0),
            None => {},
        }
    }
}

/// A linked worktree that has to move goes exactly where the migration
/// expects worktrees in the end: its target is one of the target paths
/// that links `.shared/` into worktrees and that the final check compares
/// with.
pub proof fn lemma_relocation_lands_on_target(
    cwd: Seq<char>,
    main: Seq<char>,
    linked: Seq<EntryView>,
    i: int,
)
    requires
        0 <= i < linked.len(),
        relocation(cwd, linked[i]) matches Ok(Some(_)),
    ensures
        target_paths(cwd, main, crate::completions::worktree_branch_names(linked)).contains(
            relocation(cwd, linked[i])->Ok_0->0,
        ),
{
    let b = linked[i].branch->0;
    lemma_branch_listed(linked, i);
    let names = crate::completions::worktree_branch_names(linked);
    let j = choose|j: int| 0 <= j < names.len() && names[j] == b;
    let mapped = names.map_values(|x: Seq<char>| path_join(cwd, x));
    assert(mapped[j] == path_join(cwd, b));
    let t = target_paths(cwd, main, names);
    assert(t[j + 1] == mapped[j]);
}

} // verus!
