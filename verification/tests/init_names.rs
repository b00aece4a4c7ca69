use gitree::init::{derive_name, ensure_gitignore_entry, wrapper_name, InitOptions};

#[test]
fn derive_name_https() {
    assert_eq!(derive_name("https://github.com/foo/bar.git"), "bar");
}

#[test]
fn derive_name_ssh() {
    assert_eq!(derive_name("git@github.com:foo/bar.git"), "bar");
}

#[test]
fn derive_name_no_git_suffix() {
    assert_eq!(derive_name("https://github.com/foo/bar"), "bar");
}

#[test]
fn derive_name_trailing_slash() {
    assert_eq!(derive_name("https://github.com/foo/bar.git/"), "bar");
}

#[test]
fn wrapper_name_prefers_explicit_name() {
    let opts = InitOptions { url: "https://github.com/foo/bar.git".into(), name: Some("mine".into()) };
    assert_eq!(wrapper_name(&opts), "mine");
    let opts = InitOptions { url: "https://github.com/foo/bar.git".into(), name: None };
    assert_eq!(wrapper_name(&opts), "bar");
}

#[test]
fn ensure_gitignore_creates_file() {
    assert_eq!(ensure_gitignore_entry("", ".shared/").as_deref(), Some(".shared/\n"));
}

#[test]
fn ensure_gitignore_appends() {
    assert_eq!(
        ensure_gitignore_entry("node_modules/", ".shared/").as_deref(),
        Some("node_modules/\n.shared/\n")
    );
    assert_eq!(
        ensure_gitignore_entry("node_modules/\n", ".shared/").as_deref(),
        Some("node_modules/\n.shared/\n")
    );
}

#[test]
fn ensure_gitignore_no_duplicate() {
    assert_eq!(ensure_gitignore_entry(".env\n  .shared/  \n", ".shared/"), None);
}

#[test]
fn ensure_gitignore_twice_changes_nothing() {
    let first = ensure_gitignore_entry("target\r\n*.log", ".shared/").unwrap();
    assert_eq!(first, "target\r\n*.log\n.shared/\n");
    assert_eq!(ensure_gitignore_entry(&first, ".shared/"), None);
}
