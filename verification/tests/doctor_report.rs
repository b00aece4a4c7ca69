use gitree::doctor::{
    check_bare_dir, check_fsck, check_git_file, check_git_installed, check_shared_dir, doctor_report,
};
use gitree::error::GitreeError;

#[test]
fn all_checks_pass() {
    let checks = vec![
        check_git_installed(&Ok("git version 2.43.0".into())),
        check_bare_dir(true),
        check_git_file(true),
        check_fsck(&Ok(())),
        check_shared_dir(true),
    ];
    let r = doctor_report(&checks);
    assert_eq!(
        r,
        "ok          git  (git version 2.43.0)\nok          .bare/\nok          .git file\nok          git fsck\nok          .shared/\n\nAll checks passed.\n"
    );
}

#[test]
fn failing_checks_are_reported() {
    let checks = vec![
        check_git_installed(&Err(GitreeError::GitNotFound)),
        check_bare_dir(false),
        check_git_file(false),
        check_fsck(&Err(GitreeError::Other("corrupt".into()))),
        check_shared_dir(false),
    ];
    let r = doctor_report(&checks);
    assert!(r.contains("FAIL        git  (git not found on PATH)\n"));
    assert!(r.contains("FAIL        .bare/  (directory missing)\n"));
    assert!(r.contains("FAIL        .git file  (file missing or doesn't point at .bare)\n"));
    assert!(r.contains("FAIL        git fsck  (corrupt)\n"));
    assert!(r.contains("FAIL        .shared/  (directory missing (run `mkdir .shared`))\n"));
    assert!(r.ends_with("\nSome checks failed. See messages above.\n"));
}
