use gitree::completions::{
    add_branches, all_branches, append_bash_overrides, append_fish_overrides, append_zsh_overrides,
    complete_branches, worktree_branches, BASH_OVERRIDES, FISH_OVERRIDES, ZSH_HELPERS,
};
use gitree::git::{BranchSet, WorktreeEntry};

fn wt(path: &str, branch: Option<&str>) -> WorktreeEntry {
    WorktreeEntry {
        path: path.into(),
        head: None,
        branch: branch.map(String::from),
        bare: branch.is_none(),
        locked: false,
        prunable: false,
    }
}

fn set() -> BranchSet {
    BranchSet {
        local: vec!["main".into(), "feature".into(), "wip".into()],
        remote: vec!["main".into(), "pr-42".into(), "feature".into()],
    }
}

fn wts() -> Vec<WorktreeEntry> {
    vec![wt("/w/.bare", None), wt("/w/main", Some("main")), wt("/w/feature", Some("feature"))]
}

#[test]
fn add_offers_branches_without_worktrees() {
    assert_eq!(add_branches(&set(), &wts()), vec!["wip", "pr-42"]);
    assert_eq!(complete_branches(Some("add"), &set(), &wts()), vec!["wip", "pr-42"]);
    assert_eq!(complete_branches(None, &set(), &wts()), vec!["wip", "pr-42"]);
    assert_eq!(complete_branches(Some("anything"), &set(), &wts()), vec!["wip", "pr-42"]);
}

#[test]
fn remove_switch_where_offer_worktree_branches() {
    assert_eq!(worktree_branches(&wts()), vec!["main", "feature"]);
    for ctx in ["remove", "switch", "where"] {
        assert_eq!(complete_branches(Some(ctx), &set(), &wts()), vec!["main", "feature"]);
    }
}

#[test]
fn base_offers_all_branches_once() {
    assert_eq!(all_branches(&set()), vec!["main", "feature", "wip", "pr-42"]);
    assert_eq!(complete_branches(Some("base"), &set(), &wts()), vec!["main", "feature", "wip", "pr-42"]);
}

#[test]
fn overrides_are_appended() {
    let mut b = b"script".to_vec();
    append_bash_overrides(&mut b);
    assert_eq!(b, [b"script".as_slice(), BASH_OVERRIDES.as_bytes()].concat());
    let mut f = b"fish".to_vec();
    append_fish_overrides(&mut f);
    assert_eq!(f, [b"fish".as_slice(), FISH_OVERRIDES.as_bytes()].concat());
}

#[test]
fn zsh_overrides_rewrite_and_append() {
    let mut z = b"#compdef gitree\n".to_vec();
    append_zsh_overrides(&mut z).unwrap();
    let text = String::from_utf8(z).unwrap();
    assert!(text.starts_with("#compdef gitree\n"));
    assert!(text.ends_with(ZSH_HELPERS));
}

#[test]
fn zsh_overrides_reject_invalid_utf8() {
    let mut z = vec![0xff, 0xfe];
    let err = append_zsh_overrides(&mut z).unwrap_err();
    assert!(z.is_empty());
    assert_eq!(err.message(), String::from_utf8(vec![0xff, 0xfe]).unwrap_err().to_string());
}
