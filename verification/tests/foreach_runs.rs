use gitree::error::GitreeError;
use gitree::branch_glob::BranchFilter;
use gitree::foreach::{
    command_failed, failure_message, header, parallel_outcome, select_worktrees, ForeachOptions,
};
use gitree::git::WorktreeEntry;

fn wt(path: &str, branch: Option<&str>, bare: bool) -> WorktreeEntry {
    WorktreeEntry { path: path.into(), head: None, branch: branch.map(String::from), bare, locked: false, prunable: false }
}

#[test]
fn foreach_options_construction() {
    let opts = ForeachOptions { command: "echo hello".into(), parallel: false, only: Some("feature/*".into()) };
    assert_eq!(opts.command, "echo hello");
    assert!(!opts.parallel);
}

#[test]
fn selects_non_bare_worktrees() {
    let entries = vec![wt("/w/.bare", None, true), wt("/w/main", Some("main"), false), wt("/w/d", None, false)];
    let all = select_worktrees(&entries, None);
    assert_eq!(all.len(), 2);
    assert_eq!(all[0].path, "/w/main");
    assert_eq!(all[1].path, "/w/d");
}

#[test]
fn filters_by_branch_glob() {
    let entries = vec![
        wt("/w/.bare", None, true),
        wt("/w/main", Some("main"), false),
        wt("/w/feature/a", Some("feature/a"), false),
        wt("/w/feature/b", Some("feature/b"), false),
        wt("/w/d", None, false),
    ];
    let f = BranchFilter::new("feature/*").unwrap();
    assert!(f.matches("feature/a"));
    assert!(!f.matches("main"));
    let sel = select_worktrees(&entries, Some(&f));
    let branches: Vec<&str> = sel.iter().map(|e| e.branch.as_deref().unwrap()).collect();
    assert_eq!(branches, vec!["feature/a", "feature/b"]);
    let empty = BranchFilter::new("").unwrap();
    let sel = select_worktrees(&entries, Some(&empty));
    assert_eq!(sel.len(), 1);
    assert_eq!(sel[0].path, "/w/d");
}

#[test]
fn invalid_glob_is_an_error() {
    match BranchFilter::new("feature/[") {
        Err(GitreeError::Other(m)) => {
            assert!(m.starts_with("invalid glob pattern 'feature/[': "), "{}", m);
            assert!(m.len() > "invalid glob pattern 'feature/[': ".len());
        }
        Err(other) => panic!("unexpected {:?}", other),
        Ok(_) => panic!("must fail"),
    }
}

#[test]
fn headers_and_failures() {
    assert_eq!(header(&wt("/w/main", Some("main"), false)), "=== main (/w/main) ===");
    assert_eq!(header(&wt("/w/d", None, false)), "=== (detached) (/w/d) ===");
    assert_eq!(failure_message("main", Some(2)), "command failed in 'main' with exit code 2");
    assert_eq!(failure_message("main", None), "command failed in 'main' with exit code -1");
    assert_eq!(failure_message("m", Some(i32::MIN)), format!("command failed in 'm' with exit code {}", i32::MIN));
    assert!(matches!(command_failed("x", Some(1)), GitreeError::Other(_)));
}

#[test]
fn parallel_outcome_fails_when_any_failed() {
    assert!(parallel_outcome(&[None, None]).is_ok());
    assert!(parallel_outcome(&[]).is_ok());
    let e = parallel_outcome(&[None, Some("x".into())]).unwrap_err();
    assert_eq!(e.message(), "one or more worktree commands failed");
}

#[test]
fn long_pattern_is_an_error_not_a_panic() {
    let pattern = "?".repeat(300_000);
    match BranchFilter::new(&pattern) {
        Err(GitreeError::Other(m)) => assert!(m.starts_with("invalid glob pattern '")),
        Err(other) => panic!("unexpected {:?}", other),
        Ok(f) => assert!(!f.matches("main")),
    }
}
