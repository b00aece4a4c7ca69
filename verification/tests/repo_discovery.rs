use gitree::repo::{CommonDirProbe, Probe, Wrapper};

fn wrapper_probe(dir: &str) -> Probe {
    Probe { dir: dir.into(), git_file: Some("gitdir: ./.bare\n".into()) }
}

fn plain_probe(dir: &str) -> Probe {
    Probe { dir: dir.into(), git_file: None }
}

#[test]
fn is_wrapper_dir_with_git_file() {
    assert!(Wrapper::is_wrapper_dir("/tmp/w", Some("gitdir: ./.bare\n")));
}

#[test]
fn is_wrapper_dir_without_git_file() {
    assert!(!Wrapper::is_wrapper_dir("/tmp/w", None));
}

#[test]
fn is_wrapper_dir_with_git_directory() {
    assert!(!Wrapper::is_wrapper_dir("/tmp/w", None));
}

#[test]
fn is_wrapper_dir_checks_the_target() {
    assert!(Wrapper::is_wrapper_dir("/tmp/w", Some("gitdir: /elsewhere/.bare")));
    assert!(!Wrapper::is_wrapper_dir("/tmp/w", Some("gitdir: ./.git")));
    assert!(!Wrapper::is_wrapper_dir("/tmp/w", Some("gitdir: ./.barex")));
    assert!(!Wrapper::is_wrapper_dir("/tmp/w", Some("nothing here")));
}

#[test]
fn discover_from_cwd() {
    let probes = vec![wrapper_probe("/tmp/w"), plain_probe("/tmp"), plain_probe("/")];
    let wrapper = Wrapper::from_cwd("/tmp/w", &probes, None).unwrap();
    assert_eq!(wrapper.path(), "/tmp/w");
}

#[test]
fn discover_from_subdirectory() {
    let probes = vec![
        plain_probe("/tmp/w/main/src"),
        plain_probe("/tmp/w/main"),
        wrapper_probe("/tmp/w"),
        plain_probe("/tmp"),
        plain_probe("/"),
    ];
    let wrapper = Wrapper::from_cwd("/tmp/w/main/src", &probes, None).unwrap();
    assert_eq!(wrapper.path(), "/tmp/w");
}

#[test]
fn discover_fails_outside_wrapper() {
    let probes = vec![plain_probe("/tmp/x"), plain_probe("/tmp"), plain_probe("/")];
    let result = Wrapper::from_cwd("/tmp/x", &probes, None);
    assert!(result.is_err());
    assert_eq!(result.unwrap_err().exit_code(), 3);
}

#[test]
fn discover_through_common_dir() {
    let probes = vec![plain_probe("/elsewhere/wt"), plain_probe("/elsewhere"), plain_probe("/")];
    let common = CommonDirProbe {
        resolved: "/tmp/w/.bare/worktrees/wt".into(),
        probes: vec![
            plain_probe("/tmp/w/.bare/worktrees/wt"),
            plain_probe("/tmp/w/.bare/worktrees"),
            plain_probe("/tmp/w/.bare"),
            wrapper_probe("/tmp/w"),
        ],
    };
    let w = Wrapper::from_cwd("/elsewhere/wt", &probes, Some(&common)).unwrap();
    assert_eq!(w.path(), "/tmp/w");
    let common = CommonDirProbe { resolved: "/tmp/w/.bare".into(), probes: vec![plain_probe("/tmp/w/.bare")] };
    let w = Wrapper::from_cwd("/elsewhere/wt", &probes, Some(&common)).unwrap();
    assert_eq!(w.path(), "/tmp/w");
    let common = CommonDirProbe { resolved: "/tmp/w/.bare/x".into(), probes: vec![] };
    assert_eq!(Wrapper::from_cwd("/e", &probes, Some(&common)).unwrap().path(), "/tmp/w");
    let common = CommonDirProbe { resolved: "/tmp/w/.git".into(), probes: vec![] };
    assert!(Wrapper::from_cwd("/e", &probes, Some(&common)).is_err());
}

#[test]
fn worktree_path_with_slashes() {
    let wrapper = Wrapper::from_path("/tmp/w");
    let path = wrapper.worktree_path("feature/my-feature");
    assert_eq!(path.as_path(), "/tmp/w/feature/my-feature");
}

#[test]
fn bare_and_shared_dirs() {
    let wrapper = Wrapper::from_path("/tmp/w");
    assert_eq!(wrapper.bare_dir().as_path(), "/tmp/w/.bare");
    assert_eq!(wrapper.shared_dir().as_path(), "/tmp/w/.shared");
    assert_eq!(wrapper.git_file(), "/tmp/w/.git");
    assert!(wrapper.has_git_file(Some("gitdir: ./.bare\n")));
    assert!(!wrapper.has_git_file(None));
    assert_eq!(wrapper.git().dir(), "/tmp/w");
    assert_eq!(wrapper.git_for("/tmp/w/main").dir(), "/tmp/w/main");
}

fn worktrees() -> Vec<(String, Option<String>)> {
    vec![
        ("/tmp/w/.bare".to_string(), None),
        ("/tmp/w/main".to_string(), Some("main".to_string())),
        ("/tmp/w/feature/test".to_string(), Some("feature/test".to_string())),
    ]
}

#[test]
fn resolve_branch_arg_accepts_trailing_slash() {
    let wrapper = Wrapper::from_path("/tmp/w");
    assert!(!Wrapper::needs_path_lookup("main/"));
    assert_eq!(wrapper.resolve_branch_arg("main/", None).unwrap().as_str(), "main");
}

#[test]
fn resolve_branch_arg_resolves_worktree_path() {
    let wrapper = Wrapper::from_path("/tmp/w");
    let abs = "/tmp/w/main";
    assert!(Wrapper::needs_path_lookup(abs));
    let at = Wrapper::branch_at_path(abs, &worktrees());
    assert_eq!(wrapper.resolve_branch_arg(abs, at).unwrap().as_str(), "main");
}

#[test]
fn resolve_branch_arg_resolves_nested_worktree_path() {
    let wrapper = Wrapper::from_path("/tmp/w");
    let nested = "/tmp/w/feature/test";
    let at = Wrapper::branch_at_path(nested, &worktrees());
    assert_eq!(wrapper.resolve_branch_arg(nested, at).unwrap().as_str(), "feature/test");
}

#[test]
fn resolve_branch_arg_errors_for_invalid_names() {
    let wrapper = Wrapper::from_path("/tmp/w");
    for (bad, resolved) in [("../escape/", "/tmp/escape"), ("branch.lock/", "/tmp/w/branch.lock"), ("", "")] {
        let at = if Wrapper::needs_path_lookup(bad) {
            Wrapper::branch_at_path(resolved, &worktrees())
        } else {
            None
        };
        let err = wrapper.resolve_branch_arg(bad, at).expect_err("must fail");
        assert!(err.message().contains("branch name"), "unexpected error for {}: {}", bad, err.message());
    }
}

#[test]
fn trim_slashes_strips_only_trailing() {
    assert_eq!(gitree::repo::trim_slashes("a/b//"), "a/b");
    assert_eq!(gitree::repo::trim_slashes("/"), "");
}
