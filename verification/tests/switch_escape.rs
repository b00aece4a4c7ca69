use gitree::repo::Wrapper;
use gitree::switch::{cd_line, shell_escape, switch_target};

#[test]
fn escape_simple_path() {
    assert_eq!(shell_escape("/tmp/project"), "'/tmp/project'");
}

#[test]
fn escape_path_with_space() {
    assert_eq!(shell_escape("/tmp/my project"), "'/tmp/my project'");
}

#[test]
fn escape_path_with_single_quote() {
    assert_eq!(shell_escape("/tmp/it's"), "'/tmp/it'\\''s'");
}

#[test]
fn escape_path_with_dollar() {
    assert_eq!(shell_escape("/tmp/$HOME"), "'/tmp/$HOME'");
}

#[test]
fn escape_several_quotes() {
    assert_eq!(shell_escape("''"), "''\\'''\\'''");
    assert_eq!(shell_escape(""), "''");
}

#[test]
fn cd_line_quotes_path() {
    assert_eq!(cd_line("/w/my dir"), "cd '/w/my dir'\n");
}

#[test]
fn switch_target_joins_branch() {
    let w = Wrapper::from_path("/w");
    let p = switch_target(&w, "feature/x").unwrap();
    assert_eq!(p.as_path(), "/w/feature/x");
    assert!(switch_target(&w, "bad..name").is_err());
}

/// Reads a word made of single-quoted runs and backslash escapes as a
/// POSIX shell does.
fn shell_word(w: &str) -> Option<String> {
    let mut out = String::new();
    let mut chars = w.chars();
    let mut quoted = false;
    while let Some(c) = chars.next() {
        if quoted {
            if c == '\'' {
                quoted = false;
            } else {
                out.push(c);
            }
        } else if c == '\'' {
            quoted = true;
        } else if c == '\\' {
            out.push(chars.next()?);
        } else {
            return None;
        }
    }
    if quoted {
        None
    } else {
        Some(out)
    }
}

#[test]
fn escaped_paths_read_back_unchanged() {
    for p in ["/tmp/project", "/tmp/my project", "/tmp/it's", "/tmp/$HOME", "''", "", "a'b'c", "`x` \"y\" \\z"] {
        assert_eq!(shell_word(&shell_escape(p)).as_deref(), Some(p));
    }
}
