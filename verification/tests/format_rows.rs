use gitree::format::{render_text, short_hash_of, ColorPolicy, PathPolicy, WorktreeRow};
use gitree::git::WorktreeEntry;

fn sample_rows() -> Vec<WorktreeRow> {
    vec![
        WorktreeRow {
            branch: "main".into(),
            path_str: "/home/user/project/main".into(),
            head: "abc1234".into(),
            dirty: false,
        },
        WorktreeRow {
            branch: "feature/x".into(),
            path_str: "/home/user/project/feature/x".into(),
            head: "def5678".into(),
            dirty: true,
        },
    ]
}

#[test]
fn render_text_basic() {
    let rows = sample_rows();
    let mut output = String::new();
    render_text(&rows, false, &mut output);
    assert!(output.contains("main"));
    assert!(output.contains("feature/x"));
    assert!(output.contains("*"));
}

#[test]
fn render_text_exact_lines() {
    let rows = sample_rows();
    let mut output = String::new();
    render_text(&rows, false, &mut output);
    assert_eq!(
        output,
        "abc1234  main  /home/user/project/main\ndef5678  feature/x  /home/user/project/feature/x *\n"
    );
    let mut colored = String::new();
    render_text(&rows, true, &mut colored);
    assert!(colored.contains("\x1b[33mfeature/x\x1b[0m"));
    assert!(!colored.contains("\x1b[33mmain"));
}

#[test]
fn from_entry_with_branch() {
    let entry = WorktreeEntry {
        path: "/tmp/main".into(),
        head: Some("abcdef1234567890".into()),
        branch: Some("main".into()),
        bare: false,
        locked: false,
        prunable: false,
    };
    let row = WorktreeRow::from_entry(&entry, false, PathPolicy::Absolute, "/tmp", None);
    assert_eq!(row.branch, "main");
    assert_eq!(row.head, "abcdef1");
    assert_eq!(row.path_str, "/tmp/main");
    assert!(!row.dirty);
}

#[test]
fn format_from_entry_detached() {
    let entry = WorktreeEntry {
        path: "/tmp/detached".into(),
        head: Some("abcdef1234567890".into()),
        branch: None,
        bare: false,
        locked: false,
        prunable: false,
    };
    let row = WorktreeRow::from_entry(&entry, true, PathPolicy::Absolute, "/tmp", None);
    assert_eq!(row.branch, "(detached)");
    assert!(row.dirty);
}

#[test]
fn color_policy_should_color() {
    assert!(ColorPolicy::Always.should_color(false));
    assert!(!ColorPolicy::Never.should_color(true));
    assert!(ColorPolicy::Auto.should_color(true));
    assert!(!ColorPolicy::Auto.should_color(false));
}

#[test]
fn policy_defaults() {
    assert_eq!(ColorPolicy::default_policy(), ColorPolicy::Auto);
    assert_eq!(PathPolicy::default_policy(), PathPolicy::Relative);
}

#[test]
fn path_policy_relative_subdir() {
    let p = PathPolicy::Relative.format("/home/user/project/main", "/home/user/project", None);
    assert_eq!(p, "main");
}

#[test]
fn path_policy_relative_cwd_itself() {
    let p = PathPolicy::Relative.format("/home/user/project", "/home/user/project", None);
    assert_eq!(p, ".");
}

#[test]
fn path_policy_relative_sibling() {
    let p = PathPolicy::Relative.format("/home/user/project/main", "/home/user/project/feature", None);
    assert_eq!(p, "../main");
}

#[test]
fn path_policy_absolute() {
    let p = PathPolicy::Absolute.format("/home/user/project/main", "/tmp", None);
    assert_eq!(p, "/home/user/project/main");
}

#[test]
fn path_policy_abbreviated_under_home() {
    let p = PathPolicy::Abbreviated.format("/home/user/project/main", "/tmp", Some("/home/user"));
    assert_eq!(p, "~/project/main");
}

#[test]
fn path_policy_abbreviated_home_itself() {
    let p = PathPolicy::Abbreviated.format("/home/user", "/tmp", Some("/home/user"));
    assert_eq!(p, "~");
}

#[test]
fn path_policy_abbreviated_outside_home() {
    let p = PathPolicy::Abbreviated.format("/opt/project/main", "/tmp", Some("/home/user"));
    assert_eq!(p, "/opt/project/main");
}

#[test]
fn path_policy_abbreviated_no_home() {
    let p = PathPolicy::Abbreviated.format("/opt/project/main", "/tmp", None);
    assert_eq!(p, "/opt/project/main");
}

#[test]
fn short_hash_takes_seven_chars() {
    assert_eq!(short_hash_of("abcdef1234567890"), "abcdef1");
    assert_eq!(short_hash_of("abc"), "abc");
}
