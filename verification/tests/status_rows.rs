use gitree::format::PathPolicy;
use gitree::git::WorktreeEntry;
use gitree::status::{render_text, StatusOptions, StatusRow};

fn sample_entry() -> WorktreeEntry {
    WorktreeEntry {
        path: "/home/user/project/main".into(),
        head: Some("abcdef1234567890".into()),
        branch: Some("main".into()),
        bare: false,
        locked: false,
        prunable: false,
    }
}

#[test]
fn from_entry_relative_path() {
    let entry = sample_entry();
    let row = StatusRow::from_entry(&entry, 2, 0, 4, PathPolicy::Relative, "/home/user/project", None);
    assert_eq!(row.branch, "main");
    assert_eq!(row.path_str, "main");
    assert_eq!(row.dirty, 2);
    assert_eq!(row.ahead, 0);
    assert_eq!(row.behind, 4);
}

#[test]
fn from_entry_absolute_path() {
    let entry = sample_entry();
    let row = StatusRow::from_entry(&entry, 0, 0, 0, PathPolicy::Absolute, "/tmp", None);
    assert_eq!(row.path_str, "/home/user/project/main");
}

#[test]
fn from_entry_abbreviated_path() {
    let entry = sample_entry();
    let row = StatusRow::from_entry(&entry, 0, 0, 0, PathPolicy::Abbreviated, "/tmp", Some("/home/user"));
    assert_eq!(row.path_str, "~/project/main");
}

#[test]
fn status_from_entry_detached() {
    let entry = WorktreeEntry {
        path: "/tmp/detached".into(),
        head: Some("abcdef1234567890".into()),
        branch: None,
        bare: false,
        locked: false,
        prunable: false,
    };
    let row = StatusRow::from_entry(&entry, 0, 0, 0, PathPolicy::Absolute, "/tmp", None);
    assert_eq!(row.branch, "(detached)");
}

#[test]
fn render_text_clean() {
    let rows = vec![StatusRow { branch: "main".into(), path_str: "main".into(), dirty: 0, ahead: 0, behind: 0 }];
    let mut output = String::new();
    render_text(&rows, false, &mut output);
    assert!(output.contains("main"));
    assert!(!output.contains("change"));
    assert!(!output.contains("↑"));
}

#[test]
fn render_text_dirty_and_ahead_behind() {
    let rows = vec![StatusRow { branch: "feature".into(), path_str: "feature".into(), dirty: 3, ahead: 1, behind: 2 }];
    let mut output = String::new();
    render_text(&rows, false, &mut output);
    assert!(output.contains("(3 changes)"));
    assert!(output.contains("↑1↓2"));
}

#[test]
fn render_text_color_escapes_dirty_and_ab() {
    let rows = vec![StatusRow { branch: "feature".into(), path_str: "feature".into(), dirty: 1, ahead: 1, behind: 0 }];
    let mut output = String::new();
    render_text(&rows, true, &mut output);
    assert!(output.contains("\x1b[33m"));
    assert!(output.contains("\x1b[36m"));
}

#[test]
fn render_text_one_change_is_singular() {
    let rows = vec![StatusRow { branch: "b".into(), path_str: "b".into(), dirty: 1, ahead: 0, behind: 0 }];
    let mut output = String::new();
    render_text(&rows, false, &mut output);
    assert!(output.contains("(1 change)"));
    assert!(!output.contains("changes"));
}

#[test]
fn status_options_default() {
    let o = StatusOptions::default();
    assert!(!o.json);
}
