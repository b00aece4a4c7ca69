use gitree::error::GitreeError;
use gitree::git::{Git, GitOp, GitOutcome, WorktreeEntry};

fn ok(stdout: &str) -> GitOutcome {
    GitOutcome::Exited { code: Some(0), stdout: stdout.into(), stderr: String::new() }
}

fn failed(code: i32, stderr: &str) -> GitOutcome {
    GitOutcome::Exited { code: Some(code), stdout: String::new(), stderr: stderr.into() }
}

#[test]
fn parse_single_worktree() {
    let input = "worktree /home/user/project/main\nHEAD abc123\nbranch refs/heads/main\n\n";
    let entries = WorktreeEntry::parse(input);
    assert_eq!(entries.len(), 1);
    assert_eq!(entries[0].path, "/home/user/project/main");
    assert_eq!(entries[0].head.as_deref(), Some("abc123"));
    assert_eq!(entries[0].branch.as_deref(), Some("main"));
    assert!(!entries[0].bare);
}

#[test]
fn parse_bare_worktree() {
    let input = "worktree /home/user/project/.bare\nbare\n\n";
    let entries = WorktreeEntry::parse(input);
    assert_eq!(entries.len(), 1);
    assert!(entries[0].bare);
    assert!(entries[0].branch.is_none());
}

#[test]
fn parse_multiple_worktrees() {
    let input = "worktree /home/user/project/main\nHEAD abc123\nbranch refs/heads/main\n\nworktree /home/user/project/feature\nHEAD def456\nbranch refs/heads/feature\n\n";
    let entries = WorktreeEntry::parse(input);
    assert_eq!(entries.len(), 2);
    assert_eq!(entries[0].branch.as_deref(), Some("main"));
    assert_eq!(entries[1].branch.as_deref(), Some("feature"));
}

#[test]
fn parse_no_trailing_newline() {
    let input = "worktree /home/user/project/main\nHEAD abc123\nbranch refs/heads/main";
    let entries = WorktreeEntry::parse(input);
    assert_eq!(entries.len(), 1);
    assert_eq!(entries[0].branch.as_deref(), Some("main"));
}

#[test]
fn parse_locked_prunable_detached() {
    let input = "worktree /w/a\nHEAD 111\ndetached\nlocked reason\n\nworktree /w/b\nHEAD 222\nbranch refs/heads/b\nprunable gitdir file points to non-existent location\n";
    let entries = WorktreeEntry::parse(input);
    assert_eq!(entries.len(), 2);
    assert!(entries[0].locked);
    assert!(entries[0].branch.is_none());
    assert!(!entries[0].prunable);
    assert!(entries[1].prunable);
    assert!(!entries[1].locked);
}

#[test]
fn checked_outcomes() {
    assert_eq!(Git::checked(ok("  out \n"), "git x".into()).unwrap(), "out");
    match Git::checked(failed(128, " fatal: nope \n"), "git x".into()) {
        Err(GitreeError::GitFailed { summary, stderr }) => {
            assert_eq!(summary, "git x");
            assert_eq!(stderr, "fatal: nope");
        }
        other => panic!("unexpected {:?}", other),
    }
    assert!(matches!(Git::checked(GitOutcome::NotFound, "git x".into()), Err(GitreeError::GitNotFound)));
    match Git::checked(GitOutcome::SpawnFailed("denied".into()), "git x".into()) {
        Err(e @ GitreeError::Io(_)) => assert_eq!(e.message(), "denied"),
        other => panic!("unexpected {:?}", other),
    }
    let killed = GitOutcome::Exited { code: None, stdout: "x".into(), stderr: String::new() };
    assert!(Git::checked(killed, "git x".into()).is_err());
}

#[test]
fn request_builds_arguments() {
    let git = Git::new("/w");
    let c = git.request(&GitOp::WorktreeAdd {
        path: "/w/feature".into(),
        branch: "feature".into(),
        new: true,
        base: Some("main".into()),
    });
    assert_eq!(c.cwd, "/w");
    assert_eq!(c.args, vec!["worktree", "add", "-b", "feature", "/w/feature", "main"]);
    let c = git.request(&GitOp::WorktreeAdd { path: "/w/x".into(), branch: "x".into(), new: false, base: Some("main".into()) });
    assert_eq!(c.args, vec!["worktree", "add", "/w/x", "x"]);
    assert_eq!(Git::summary(&GitOp::WorktreeRemove { path: "/w/x".into(), force: true }), "git worktree remove --force /w/x");
}

#[test]
fn worktree_list_parses_output() {
    let git = Git::new("/w");
    let list = git.worktree_list(ok("worktree /w/.bare\nbare\n\nworktree /w/main\nHEAD 1\nbranch refs/heads/main\n")).unwrap();
    assert_eq!(list.len(), 2);
    assert_eq!(list[1].path, "/w/main");
}

#[test]
fn dirty_and_stash_counts() {
    let git = Git::new("/w");
    assert_eq!(git.dirty_count(ok(" M a\n?? b\n")).unwrap(), 2);
    assert_eq!(git.dirty_count(ok("")).unwrap(), 0);
    assert!(git.is_dirty(ok("?? b")).unwrap());
    assert!(!git.is_dirty(ok("\n")).unwrap());
    assert_eq!(git.stash_count(ok("stash@{0}: x\nstash@{1}: y\n")).unwrap(), 2);
}

#[test]
fn branches_and_local_only() {
    let git = Git::new("/w");
    let local = ok("main\nfeature\nwip\n");
    let remote = ok("origin\norigin/HEAD\norigin/main\norigin/feature\n");
    let set = git.branches(local.clone(), remote.clone()).unwrap();
    assert_eq!(set.local, vec!["main", "feature", "wip"]);
    assert!(set.remote.contains(&"main".to_string()));
    assert!(set.remote.contains(&"feature".to_string()));
    assert!(!set.remote.iter().any(|b| b.contains("HEAD")));
    assert_eq!(git.local_only_branches(local, remote).unwrap(), vec!["wip"]);
}

#[test]
fn ahead_behind_parses_counts() {
    let git = Git::new("/w");
    assert_eq!(git.ahead_behind("main", ok("3\t5\n")).unwrap(), (5, 3));
    assert!(git.ahead_behind("main", failed(128, "fatal: no upstream")).is_err());
}

#[test]
fn config_get_missing_key_is_none() {
    let git = Git::new("/w");
    assert_eq!(git.config_get("core.bare", ok("true\n")).unwrap().as_deref(), Some("true"));
    assert_eq!(git.config_get("core.worktree", failed(1, "")).unwrap(), None);
    assert!(git.config_get("core.worktree", failed(1, "error: bad config")).is_err());
    assert!(git.config_get("core.worktree", failed(2, "")).is_err());
    let unset = git.config_unset("core.worktree", ok("/x\n")).unwrap().unwrap();
    assert_eq!(unset.args, vec!["config", "--unset", "core.worktree"]);
    assert!(git.config_unset("core.worktree", failed(1, "")).unwrap().is_none());
}

#[test]
fn ahead_behind_without_upstream_is_zero() {
    let git = Git::new("/w");
    let missing = failed(
        128,
        "fatal: ambiguous argument 'origin/x...x': unknown revision or path not in the working tree.\nUse '--' to separate paths from revisions, like this:\n'git <command> [<revision>...] -- [<file>...]'\n",
    );
    assert_eq!(git.ahead_behind("x", missing).unwrap(), (0, 0));
    assert!(matches!(
        git.ahead_behind("x", failed(128, "fatal: not a git repository")),
        Err(GitreeError::GitFailed { .. })
    ));
    assert!(matches!(git.ahead_behind("x", GitOutcome::NotFound), Err(GitreeError::GitNotFound)));
}

#[test]
fn config_get_set_unset_and_errors() {
    let git = Git::new("/w");
    assert_eq!(git.config_get("user.email", ok("t@example.com\n")).unwrap().as_deref(), Some("t@example.com"));
    assert_eq!(git.config_get("gitree.test.absent-key", failed(1, "")).unwrap(), None);
    git.config_set("user.email", "t@example.com", ok("")).unwrap();
    let unset = git.config_unset("user.email", ok("t@example.com\n")).unwrap().unwrap();
    assert_eq!(unset.args, vec!["config", "--unset", "user.email"]);
    assert!(git.config_unset("user.email", failed(1, "")).unwrap().is_none());
}

#[test]
fn config_get_corrupt_gitfile_is_error() {
    let git = Git::new("/w");
    let out = failed(128, "fatal: invalid gitfile format: /w/.git\n");
    match git.config_get("core.bare", out) {
        Err(GitreeError::GitFailed { summary, stderr }) => {
            assert_eq!(summary, "git config --get core.bare");
            assert_eq!(stderr, "fatal: invalid gitfile format: /w/.git");
        }
        other => panic!("unexpected {:?}", other),
    }
}
