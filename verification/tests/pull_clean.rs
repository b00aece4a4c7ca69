use gitree::clean::{fetch_failure, stale_branches, CleanOptions};
use gitree::error::{DirtyEscape, GitreeError};
use gitree::git::WorktreeEntry;
use gitree::pull::{
    dirty_check, dirty_note, find_worktree, pull_all_report, pull_branch, upstream_ref, PullOptions,
};

fn wt(path: &str, branch: Option<&str>) -> WorktreeEntry {
    WorktreeEntry { path: path.into(), head: None, branch: branch.map(String::from), bare: false, locked: false, prunable: false }
}

#[test]
fn pull_branch_defaults() {
    assert_eq!(pull_branch(Some("dev"), &vec!["main".into()]), "dev");
    assert_eq!(pull_branch(None, &vec!["master".into(), "main".into()]), "main");
    assert_eq!(pull_branch(None, &vec!["master".into()]), "master");
    assert_eq!(pull_branch(None, &Vec::new()), "master");
}

#[test]
fn pull_finds_worktree_and_checks_dirty() {
    let wts = vec![wt("/w/.bare", None), wt("/w/main", Some("main"))];
    assert_eq!(find_worktree(&wts, "main"), Some(1));
    assert_eq!(find_worktree(&wts, "dev"), None);
    match dirty_check(2, "main", "/w/main", false).unwrap_err() {
        GitreeError::DirtyWorktree { count, branch, path, escape } => {
            assert_eq!(count, 2);
            assert_eq!(branch.as_deref(), Some("main"));
            assert_eq!(path.as_deref(), Some("/w/main"));
            assert_eq!(escape, DirtyEscape::Autostash);
        }
        other => panic!("unexpected {:?}", other),
    }
    assert!(dirty_check(2, "main", "/w/main", true).is_ok());
    assert_eq!(upstream_ref("main"), "origin/main");
}

#[test]
fn pull_all_steps_and_report() {
    assert_eq!(dirty_note("feat", 2), "feat (2 change(s))");
    let r = pull_all_report(1, &vec!["ahead".into()], &vec!["feat (2 change(s))".into()]);
    assert_eq!(
        r,
        "Skipped 'ahead' — ahead of origin, not fast-forwardable.\nSkipped 'feat (2 change(s))' — dirty worktree (use --autostash to stash and pull).\nUpdated 1 worktree(s).\n"
    );
    let o = PullOptions { all: true, branch: None, autostash: false };
    assert!(o.all && o.branch.is_none());
}

#[test]
fn clean_finds_stale_branches() {
    let local = vec!["main".to_string(), "gone".to_string(), "gone-but-checked-out".to_string()];
    let remote = vec!["main".to_string()];
    let wts = vec![wt("/w/main", Some("main")), wt("/w/x", Some("gone-but-checked-out"))];
    assert_eq!(stale_branches(&local, &remote, &wts), vec!["gone"]);
    let o = CleanOptions { force: true };
    assert!(o.force);
}

#[test]
fn clean_fetch_failure_message() {
    let e = fetch_failure(&GitreeError::GitFailed { summary: "git fetch --prune".into(), stderr: "offline".into() });
    assert!(matches!(e, GitreeError::Other(_)));
    assert!(e.message().contains("offline"));
}

use gitree::pull::{pull_all_next, PullAllAction, PullAllTally};

fn next(wt: &WorktreeEntry, counts: Option<&gitree::error::Result<(usize, usize)>>, dirty: Option<&gitree::error::Result<usize>>, autostash: bool) -> PullAllAction {
    pull_all_next(wt, counts, dirty, autostash).unwrap()
}

#[test]
fn pull_all_steps_follow_the_rules() {
    let bare = WorktreeEntry { bare: true, ..wt("/w/.bare", None) };
    assert!(matches!(next(&bare, None, None, false), PullAllAction::Ignore));
    assert!(matches!(next(&wt("/w/d", None), None, None, false), PullAllAction::Ignore));
    let main = wt("/w/main", Some("main"));
    assert!(matches!(next(&main, None, None, false), PullAllAction::NeedCounts));
    assert!(matches!(next(&main, Some(&Ok((2, 1))), None, false), PullAllAction::Diverged(ref b) if b == "main"));
    assert!(matches!(next(&main, Some(&Ok((0, 0))), None, false), PullAllAction::UpToDate));
    assert!(matches!(next(&main, Some(&Ok((0, 3))), None, false), PullAllAction::NeedDirtyCount));
    assert!(matches!(next(&main, Some(&Ok((0, 3))), Some(&Ok(2)), false), PullAllAction::SkipDirty(ref n) if n == "main (2 change(s))"));
    assert!(matches!(next(&main, Some(&Ok((0, 3))), Some(&Ok(0)), false), PullAllAction::Merge(ref r) if r == "origin/main"));
    assert!(matches!(next(&main, Some(&Ok((0, 3))), None, true), PullAllAction::Merge(ref r) if r == "origin/main"));
    let failed = pull_all_next(&main, Some(&Err(GitreeError::GitNotFound)), None, false);
    assert!(matches!(failed, Err(GitreeError::GitNotFound)));
    let failed = pull_all_next(&main, Some(&Ok((0, 1))), Some(&Err(GitreeError::Other("x".into()))), false);
    assert!(matches!(failed, Err(GitreeError::Other(_))));
}

#[test]
fn pull_all_tally_reports_the_run() {
    let mut t = PullAllTally::new();
    t.record(&PullAllAction::Diverged("ahead".into()));
    t.record(&PullAllAction::SkipDirty("feat (2 change(s))".into()));
    t.record(&PullAllAction::Merge("origin/main".into()));
    t.record(&PullAllAction::UpToDate);
    assert_eq!(t.updated, 1);
    assert_eq!(
        t.report(),
        "Skipped 'ahead' — ahead of origin, not fast-forwardable.\nSkipped 'feat (2 change(s))' — dirty worktree (use --autostash to stash and pull).\nUpdated 1 worktree(s).\n"
    );
}
