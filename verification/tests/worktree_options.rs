use gitree::error::GitreeError;
use gitree::format::{ColorPolicy, PathPolicy};
use gitree::git::WorktreeEntry;
use gitree::worktree::{
    add_preflight, determine_base_ref, prune_report, require_branch, stale_worktrees, AddOptions,
    ListOptions, RemoveOptions,
};

fn entry(path: &str, branch: Option<&str>, prunable: bool) -> WorktreeEntry {
    WorktreeEntry {
        path: path.into(),
        head: Some("abc".into()),
        branch: branch.map(String::from),
        bare: false,
        locked: false,
        prunable,
    }
}

#[test]
fn add_options_construction() {
    let opts = AddOptions { branch: "feature/test".into(), new: false, base: None };
    assert_eq!(opts.branch, "feature/test");
    assert!(!opts.new);
}

#[test]
fn list_options_default() {
    let opts = ListOptions::default();
    assert!(!opts.json);
    assert_eq!(opts.color, ColorPolicy::Auto);
    assert_eq!(opts.path, PathPolicy::Relative);
}

#[test]
fn remove_options_hold_several_branches() {
    let opts = RemoveOptions { branches: vec!["a".into(), "b".into()], delete_branch: true, force: false };
    assert_eq!(opts.branches.len(), 2);
}

#[test]
fn add_refuses_existing_worktree() {
    let opts = AddOptions { branch: "main".into(), new: false, base: None };
    let wts = vec![entry("/w/main", Some("main"), false)];
    match add_preflight(&opts, &wts) {
        Err(GitreeError::WorktreeExists(b)) => assert_eq!(b, "main"),
        other => panic!("unexpected {:?}", other),
    }
    let opts = AddOptions { branch: "feature".into(), new: true, base: None };
    assert_eq!(add_preflight(&opts, &wts).unwrap().as_str(), "feature");
    let opts = AddOptions { branch: "bad name".into(), new: true, base: None };
    assert!(add_preflight(&opts, &wts).is_err());
}

#[test]
fn require_branch_local_or_remote() {
    let local = vec!["main".to_string()];
    let remote = vec!["pr".to_string()];
    assert!(require_branch("main", &local, &remote).is_ok());
    assert!(require_branch("pr", &local, &remote).is_ok());
    match require_branch("nope", &local, &remote) {
        Err(GitreeError::BranchNotFound(b)) => assert_eq!(b, "nope"),
        other => panic!("unexpected {:?}", other),
    }
}

#[test]
fn base_ref_defaults() {
    assert_eq!(determine_base_ref(true, Some("abc123".into()), Ok(vec!["main".into()])).unwrap(), "abc123");
    assert_eq!(determine_base_ref(false, None, Ok(vec!["master".into(), "main".into()])).unwrap(), "main");
    assert_eq!(determine_base_ref(false, None, Ok(vec!["master".into()])).unwrap(), "master");
    assert!(determine_base_ref(false, None, Ok(vec!["dev".into()])).is_err());
}

#[test]
fn prune_lists_stale_paths() {
    let wts = vec![entry("/w/main", Some("main"), false), entry("/w/gone", Some("gone"), true)];
    let stale = stale_worktrees(&wts);
    assert_eq!(stale, vec!["/w/gone".to_string()]);
    assert_eq!(prune_report(&stale), "Pruned stale worktree references:\n  /w/gone\n");
    assert_eq!(prune_report(&Vec::new()), "No stale worktree references.\n");
}
