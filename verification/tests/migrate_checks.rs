use gitree::error::{DirtyEscape, GitreeError};
use gitree::git::WorktreeEntry;
use gitree::migrate::{
    check_dirty, check_local_only, check_regular_clone, commondir_text, count_untracked,
    format_size, gitdir_text, plan, preflight_report, relocation_blocked, relocation_target,
    select_worktrees, skip_top_level_dirs, state_collision, state_name, transient_files,
    verify_layout, worktree_git_file_text, worktree_target_paths, wrapper_git_file_text,
    PreflightReport,
};

fn wt(path: &str, branch: Option<&str>, bare: bool, locked: bool) -> WorktreeEntry {
    WorktreeEntry {
        path: path.into(),
        head: if bare { None } else { Some("abc".into()) },
        branch: branch.map(String::from),
        bare,
        locked,
        prunable: false,
    }
}

/// `bytes` formatted the way an `f64` with one decimal shows it.
fn float_size(bytes: u64) -> String {
    let units = ["B", "KiB", "MiB", "GiB", "TiB"];
    let mut value = bytes as f64;
    let mut unit = 0usize;
    while value >= 1024.0 && unit + 1 < units.len() {
        value /= 1024.0;
        unit += 1;
    }
    if unit == 0 {
        format!("{} B", bytes)
    } else {
        format!("{:.1} {}", value, units[unit])
    }
}

#[test]
fn format_size_bytes() {
    assert_eq!(format_size(0), "0 B");
    assert_eq!(format_size(512), "512 B");
}

#[test]
fn format_size_kib() {
    assert_eq!(format_size(1024), "1.0 KiB");
    assert_eq!(format_size(1536), "1.5 KiB");
}

#[test]
fn format_size_mib() {
    assert_eq!(format_size(1048576), "1.0 MiB");
}

#[test]
fn format_size_exact_values() {
    assert_eq!(format_size(1023), "1023 B");
    assert_eq!(format_size(1280), "1.2 KiB");
    assert_eq!(format_size(1792), "1.8 KiB");
    assert_eq!(format_size(1048575), "1024.0 KiB");
    assert_eq!(format_size(1 << 30), "1.0 GiB");
    assert_eq!(format_size(1 << 40), "1.0 TiB");
    assert_eq!(format_size(1 << 50), "1024.0 TiB");
    assert_eq!(format_size(u64::MAX), "16777216.0 TiB");
}

#[test]
fn format_size_matches_float_formatting() {
    let mut samples: Vec<u64> = vec![
        0, 1, 1023, 1024, 1025, 1075, 1126, 1280, 1536, 1792, 10239, 10240, 102347,
        1048575, 1048576, 1153434, 1073741823, 1073741824, 1099511627775, 1099511627776,
        (1u64 << 53) - 1, 1u64 << 53, (1u64 << 53) + 1, (1u64 << 53) + 3, (1u64 << 60) - 1,
        u64::MAX - 1, u64::MAX,
    ];
    for k in 1..5u32 {
        let unit = 1u64 << (10 * k);
        for tenth in 0..10240u64 {
            let v = (unit as u128 * tenth as u128 / 10) as u64;
            samples.push(v);
            samples.push(v + unit / 20);
            samples.push((v + unit / 20).saturating_sub(1));
        }
    }
    let mut x: u64 = 0x9e37_79b9_7f4a_7c15;
    for _ in 0..200_000 {
        x ^= x << 13;
        x ^= x >> 7;
        x ^= x << 17;
        samples.push(x >> (x % 64));
    }
    for b in samples {
        assert_eq!(format_size(b), float_size(b), "bytes = {}", b);
    }
}

#[test]
fn skip_top_level_dirs_includes_reserved_and_worktree_dirs() {
    let skip = skip_top_level_dirs("main", &vec!["feature/test".to_string(), "add-version-command".to_string()]);
    assert!(skip.iter().any(|s| s == ".git"));
    assert!(skip.iter().any(|s| s == ".bare"));
    assert!(skip.iter().any(|s| s == ".shared"));
    assert!(skip.iter().any(|s| s == "main"));
    assert!(skip.iter().any(|s| s == "feature"));
    assert!(skip.iter().any(|s| s == "add-version-command"));
    assert!(!skip.iter().any(|s| s == "src"));
}

#[test]
fn skip_top_level_ignores_non_normal_components() {
    let skip = skip_top_level_dirs("./main", &vec!["/abs/x".to_string(), "../up".to_string()]);
    assert_eq!(skip, vec![".git", ".bare", ".shared"]);
}

#[test]
fn regular_clone_check() {
    assert!(check_regular_clone("/r/.git", true).is_ok());
    let e = check_regular_clone("/r/.git", false).unwrap_err();
    assert_eq!(
        e.message(),
        "pre-flight check failed: /r/.git is not a directory — this does not appear to be a regular clone"
    );
}

#[test]
fn selection_of_main_and_linked() {
    let wts = vec![
        wt("/r", Some("main"), false, false),
        wt("/elsewhere/feat", Some("feat"), false, false),
        wt("/bare", None, true, false),
    ];
    let s = select_worktrees(&wts).unwrap();
    assert_eq!(s.main_branch, "main");
    assert_eq!(s.main_path, "/r");
    assert_eq!(s.linked.len(), 1);
    assert_eq!(s.linked[0].path, "/elsewhere/feat");
}

#[test]
fn selection_refusals() {
    let e = select_worktrees(&[wt("/bare", None, true, false)]).unwrap_err();
    assert!(matches!(e, GitreeError::PreflightFailed(ref m) if m.starts_with("no worktrees found")));
    let e = select_worktrees(&[wt("/r", None, false, false)]).unwrap_err();
    assert!(matches!(e, GitreeError::PreflightFailed(ref m) if m.starts_with("main worktree has a detached HEAD")));
    let wts = vec![
        wt("/r", Some("main"), false, false),
        wt("/a", Some("a"), false, true),
        wt("/b", Some("b"), false, true),
    ];
    match select_worktrees(&wts).unwrap_err() {
        GitreeError::PreflightFailed(m) => assert_eq!(
            m,
            "locked worktrees cannot be migrated: a, b — unlock with `git worktree unlock <path>` first"
        ),
        other => panic!("unexpected {:?}", other),
    }
}

#[test]
fn dirty_and_local_only_checks() {
    match check_dirty(2, "main", "/r", false).unwrap_err() {
        GitreeError::DirtyWorktree { count, branch, path, escape } => {
            assert_eq!(count, 2);
            assert_eq!(branch.as_deref(), Some("main"));
            assert_eq!(path.as_deref(), Some("/r"));
            assert_eq!(escape, DirtyEscape::Force);
        }
        other => panic!("unexpected {:?}", other),
    }
    assert!(check_dirty(2, "main", "/r", true).is_ok());
    assert!(check_dirty(0, "main", "/r", false).is_ok());
    let lo = vec!["wip".to_string(), "x".to_string()];
    assert_eq!(
        check_local_only(&lo, false).unwrap_err().message(),
        "pre-flight check failed: 2 local-only branch(es) not on any remote"
    );
    assert!(check_local_only(&lo, true).is_ok());
    assert!(check_local_only(&Vec::new(), false).is_ok());
}

#[test]
fn untracked_count() {
    assert_eq!(count_untracked("?? a\n M b\n?? c\n"), 2);
    assert_eq!(count_untracked(""), 0);
}

fn report(linked: Vec<WorktreeEntry>) -> PreflightReport {
    PreflightReport {
        git_dir: "/r/.git".into(),
        main_branch: "main".into(),
        main_wt_path: "/r".into(),
        linked_worktrees: linked,
        untracked: 0,
        clean: true,
        stash_count: 1,
        local_only_branches: Vec::new(),
        git_size: 1536,
    }
}

#[test]
fn relocation_targets() {
    let a = wt("/r/a", Some("a"), false, false);
    assert_eq!(relocation_target("/r", &a).unwrap(), None);
    let a2 = wt("/r//a/", Some("a"), false, false);
    assert_eq!(relocation_target("/r", &a2).unwrap(), None);
    let b = wt("/elsewhere/b", Some("feature/b"), false, false);
    assert_eq!(relocation_target("/r", &b).unwrap().as_deref(), Some("/r/feature/b"));
    assert!(relocation_target("/r", &wt("/x", None, false, false)).is_err());
    assert_eq!(
        relocation_blocked("/r/b", "b").message(),
        "pre-flight check failed: target path /r/b already exists — cannot relocate worktree 'b' (move or remove it first)"
    );
}

#[test]
fn target_paths_of_all_worktrees() {
    let r = report(vec![wt("/x/a", Some("a"), false, false), wt("/x/d", None, false, false)]);
    assert_eq!(worktree_target_paths("/r", &r), vec!["/r/main", "/r/a"]);
}

#[test]
fn state_directory_names() {
    assert_eq!(state_name("/r", "main"), "main");
    assert_eq!(state_name("/r", "feature/backport-check"), "backport-check");
    assert_eq!(state_name("/", ".."), "..");
    assert!(state_collision("/r/.bare/worktrees/x", "x").message().contains("the branch basename 'x' collides"));
}

#[test]
fn admin_file_contents() {
    assert_eq!(wrapper_git_file_text(), "gitdir: ./.bare\n");
    assert_eq!(commondir_text(), "../..\n");
    assert_eq!(gitdir_text("/r/main"), "/r/main/.git\n");
    assert_eq!(worktree_git_file_text("/r/.bare", "main"), "gitdir: /r/.bare/worktrees/main\n");
    let t = transient_files();
    assert_eq!(t.len(), 13);
    assert_eq!(t[0], "COMMIT_EDITMSG");
    assert_eq!(t[12], "AUTO_GC");
}

#[test]
fn layout_verification() {
    let wts = vec![
        wt("/r/.bare", None, true, false),
        wt("/r/main", Some("main"), false, false),
        wt("/r/a", Some("a"), false, false),
    ];
    let actual = vec!["/r/.bare".to_string(), "/r/main".to_string(), "/r/a".to_string()];
    assert_eq!(verify_layout(&wts, &actual, "/r", 2).unwrap(), 2);
    let e = verify_layout(&wts, &actual, "/r", 3).unwrap_err();
    assert!(e.message().contains("found 2 worktree(s) but expected 3"));
    let moved = vec!["/r/.bare".to_string(), "/r/main".to_string(), "/old/a".to_string()];
    let e = verify_layout(&wts, &moved, "/r", 2).unwrap_err();
    assert!(e.message().contains("worktree 'a' is at /r/a but expected /r/a"));
}

#[test]
fn migration_plan_text() {
    let r = report(vec![wt("/r/a", Some("a"), false, false), wt("/x/b", Some("b"), false, false)]);
    let p = plan(&r, "/r");
    assert!(p.starts_with("\nMigration plan:\n  Source: /r\n  .git dir: /r/.git (1.5 KiB)\n  Working tree: clean\n  Stashes: 1 (preserved)\n"));
    assert!(p.contains("    main: /r → /r/main/\n"));
    assert!(p.contains("    a: /r/a (already in place)\n"));
    assert!(p.contains("    b: /x/b → /r/b\n"));
    assert!(p.contains("    5. Move working files into /r/main/\n"));
    assert!(p.ends_with("    10. Repair worktree pointers\n"));
    assert!(!p.contains("Untracked"));
}

#[test]
fn report_from_passed_checks() {
    let s = select_worktrees(&[wt("/r", Some("main"), false, false)]).unwrap();
    let r = preflight_report("/r/.git".into(), s, 0, 3, 2, vec!["wip".into()], 10);
    assert!(r.clean);
    assert_eq!(r.untracked, 3);
    assert_eq!(r.main_branch, "main");
    let p = plan(&r, "/r");
    assert!(p.contains("  Untracked files: 3\n"));
    assert!(p.contains("  Local-only branches:\n    wip\n"));
    assert!(p.contains(".git dir: /r/.git (10 B)"));
}

#[test]
fn relocated_worktrees_land_on_target_paths() {
    let linked = vec![wt("/x/b", Some("feature/b"), false, false), wt("/r/a", Some("a"), false, false)];
    let r = report(linked.clone());
    let targets = worktree_target_paths("/r", &r);
    for w in &linked {
        if let Some(t) = relocation_target("/r", w).unwrap() {
            assert!(targets.contains(&t));
        }
    }
}
