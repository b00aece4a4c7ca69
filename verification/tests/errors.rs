use gitree::error::{hint_for, DirtyEscape, GitreeError};

#[test]
fn dirty_worktree_display_with_branch() {
    let err = GitreeError::DirtyWorktree {
        count: 3,
        branch: Some("main".into()),
        path: Some("/home/user/proj/main".into()),
        escape: DirtyEscape::Autostash,
    };
    assert_eq!(err.message(), "working tree 'main' is dirty: 3 uncommitted change(s)");
}

#[test]
fn dirty_worktree_display_without_branch() {
    let err = GitreeError::DirtyWorktree { count: 1, branch: None, path: None, escape: DirtyEscape::Force };
    assert_eq!(err.message(), "working tree is dirty: 1 uncommitted change(s)");
}

#[test]
fn messages_of_each_variant() {
    assert_eq!(
        GitreeError::NotAWrapper("/tmp".into()).message(),
        "not a gitree repository (or any parent directory): /tmp"
    );
    assert_eq!(
        GitreeError::GitFailed { summary: "git fetch".into(), stderr: "boom".into() }.message(),
        "git command failed: git fetch\nboom"
    );
    assert_eq!(GitreeError::GitNotFound.message(), "git executable not found on PATH");
    assert_eq!(GitreeError::PathMissing("/x".into()).message(), "path does not exist: /x");
    assert_eq!(GitreeError::PathExists("/x".into()).message(), "path already exists: /x");
    assert_eq!(
        GitreeError::WorktreeExists("b".into()).message(),
        "a worktree for branch 'b' already exists"
    );
    assert_eq!(
        GitreeError::BranchNotFound("b".into()).message(),
        "branch 'b' not found locally or on any remote"
    );
    assert_eq!(GitreeError::PreflightFailed("x".into()).message(), "pre-flight check failed: x");
    assert_eq!(GitreeError::Io("io".into()).message(), "io");
    assert_eq!(GitreeError::Json("json".into()).message(), "json");
    assert_eq!(GitreeError::Other("other".into()).message(), "other");
}

#[test]
fn exit_codes() {
    assert_eq!(GitreeError::NotAWrapper("/tmp".into()).exit_code(), 3);
    assert_eq!(GitreeError::GitNotFound.exit_code(), 1);
    assert_eq!(GitreeError::Other("x".into()).exit_code(), 1);
}

#[test]
fn hints() {
    assert_eq!(
        hint_for(&GitreeError::NotAWrapper("/tmp".into())).as_deref(),
        Some("run `gitree init <url>` to create a new repository, or `gitree migrate` to convert an existing clone")
    );
    assert_eq!(
        hint_for(&GitreeError::BranchNotFound("x".into())).as_deref(),
        Some("to create a new branch, run: gitree add x --new")
    );
    assert_eq!(
        hint_for(&GitreeError::WorktreeExists("x".into())).as_deref(),
        Some("to switch to it: eval \"$(gitree switch x)\"")
    );
    let dirty = GitreeError::DirtyWorktree {
        count: 1,
        branch: Some("main".into()),
        path: Some("/w/main".into()),
        escape: DirtyEscape::Autostash,
    };
    assert_eq!(
        hint_for(&dirty).as_deref(),
        Some("worktree 'main' is at /w/main — commit or stash before pulling, or use --autostash to stash and pull automatically")
    );
    let dirty = GitreeError::DirtyWorktree { count: 1, branch: None, path: None, escape: DirtyEscape::Force };
    assert_eq!(
        hint_for(&dirty).as_deref(),
        Some("commit or stash before migrating, or use --force to proceed anyway")
    );
    assert_eq!(
        hint_for(&GitreeError::GitNotFound).as_deref(),
        Some("install git and ensure it is on your PATH")
    );
    assert_eq!(hint_for(&GitreeError::Other("x".into())), None);
}
