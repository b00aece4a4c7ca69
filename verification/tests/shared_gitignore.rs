use gitree::shared::check_gitignore_trailing_slash;

#[test]
fn check_gitignore_trailing_slash_detected() {
    let warnings = check_gitignore_trailing_slash("/w/main/.gitignore", Some(".myconfig/\n.env\nnode_modules/\n"));
    assert_eq!(warnings.len(), 2);
    assert!(warnings.iter().any(|(p, _)| p == ".myconfig/"));
    assert!(warnings.iter().any(|(p, _)| p == "node_modules/"));
    assert!(warnings.iter().all(|(_, f)| f == "/w/main/.gitignore"));
}

#[test]
fn check_gitignore_no_trailing_slash() {
    let warnings = check_gitignore_trailing_slash("/w/.gitignore", Some(".env\nnode_modules\n*.log\n"));
    assert!(warnings.is_empty());
}

#[test]
fn check_gitignore_nonexistent() {
    let warnings = check_gitignore_trailing_slash("/w/.gitignore", None);
    assert!(warnings.is_empty());
}

#[test]
fn check_gitignore_skips_comments_and_trims() {
    let warnings = check_gitignore_trailing_slash("/w/.gitignore", Some("# build/\n  dist/  \r\n/\n"));
    let patterns: Vec<&str> = warnings.iter().map(|(p, _)| p.as_str()).collect();
    assert_eq!(patterns, vec!["dist/", "/"]);
}
