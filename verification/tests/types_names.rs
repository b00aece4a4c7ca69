use gitree::types::{BareDir, BranchName, SharedDir, WorktreePath};

#[test]
fn valid_branch_names() {
    assert!(BranchName::new("main").is_ok());
    assert!(BranchName::new("feature/my-feature").is_ok());
    assert!(BranchName::new("release-1.0").is_ok());
    assert!(BranchName::new("bugfix/fix-issue-123").is_ok());
}

#[test]
fn invalid_branch_names() {
    assert!(BranchName::new("").is_err());
    assert!(BranchName::new("-branch").is_err());
    assert!(BranchName::new(".hidden").is_err());
    assert!(BranchName::new("branch/").is_err());
    assert!(BranchName::new("branch..name").is_err());
    assert!(BranchName::new("branch//name").is_err());
    assert!(BranchName::new("branch name").is_err());
    assert!(BranchName::new("branch~name").is_err());
    assert!(BranchName::new("branch:name").is_err());
    assert!(BranchName::new("branch.lock").is_err());
}

#[test]
fn branch_name_as_str_and_display() {
    let name = BranchName::new("feature/test").unwrap();
    assert_eq!(name.as_str(), "feature/test");
    assert_eq!(name.to_string(), "feature/test");
}

#[test]
fn path_newtypes() {
    let bare = BareDir::from_path("/tmp/project/.bare");
    assert_eq!(bare.as_path(), "/tmp/project/.bare");
    assert_eq!(bare.to_string(), "/tmp/project/.bare");
}

#[test]
fn branch_name_errors_say_branch_name() {
    for bad in ["", "a b", "x.lock", "../escape"] {
        let err = BranchName::new(bad).unwrap_err();
        assert!(err.message().contains("branch name"), "{}", err.message());
    }
}

#[test]
fn branch_name_eq_str() {
    let name = BranchName::new("main").unwrap();
    assert!(name.eq_str("main"));
    assert!(!name.eq_str("master"));
}

#[test]
fn other_path_newtypes() {
    let shared = SharedDir::from_path("/w/.shared");
    assert_eq!(shared.as_path(), "/w/.shared");
    assert_eq!(shared.to_string(), "/w/.shared");
    assert_eq!(shared.into_pathbuf(), "/w/.shared");
    let wt = WorktreePath::from_path("/w/main");
    assert_eq!(wt.as_path(), "/w/main");
    assert_eq!(wt.into_pathbuf(), "/w/main");
}
