//! `gitree doctor` — the health checks and their report.

use vstd::prelude::*;

use crate::error::{error_message, ErrorView, GitreeError};
use crate::text::{copy_str, opt_view, pad_right, push_padded, push_str};

verus! {

/// A single health check result.
#[derive(Debug)]
pub struct Check {
    /// The name of the check.
    pub name: &'static str,
    /// Whether the check passed.
    pub passed: bool,
    /// Optional message (for failures or informational notes).
    pub message: Option<String>,
}

fn note(text: &str) -> (m: Option<String>)
    ensures
        opt_view(m) == Some(text@),
{
    Some(copy_str(text))
}

/// The `.bare/` check, given whether the directory exists.
pub fn check_bare_dir(has_bare_dir: bool) -> (c: Check)
    ensures
        c.name@ == ".bare/"@,
        c.passed == has_bare_dir,
        opt_view(c.message) == if has_bare_dir {
            None
        } else {
            Some("directory missing"@)
        },
{
    if has_bare_dir {
        Check { name: ".bare/", passed: true, message: None }
    } else {
        Check { name: ".bare/", passed: false, message: note("directory missing") }
    }
}

/// The `.git` file check, given whether it exists and points at `.bare`.
pub fn check_git_file(has_git_file: bool) -> (c: Check)
    ensures
        c.name@ == ".git file"@,
        c.passed == has_git_file,
        opt_view(c.message) == if has_git_file {
            None
        } else {
            Some("file missing or doesn't point at .bare"@)
        },
{
    if has_git_file {
        Check { name: ".git file", passed: true, message: None }
    } else {
        Check {
            name: ".git file",
            passed: false,
            message: note("file missing or doesn't point at .bare"),
        }
    }
}

/// The `.shared/` check, given whether the directory exists.
pub fn check_shared_dir(has_shared_dir: bool) -> (c: Check)
    ensures
        c.name@ == ".shared/"@,
        c.passed == has_shared_dir,
        opt_view(c.message) == if has_shared_dir {
            None
        } else {
            Some("directory missing (run `mkdir .shared`)"@)
        },
{
    if has_shared_dir {
        Check { name: ".shared/", passed: true, message: None }
    } else {
        Check {
            name: ".shared/",
            passed: false,
            message: note("directory missing (run `mkdir .shared`)"),
        }
    }
}

/// The `git fsck` check, given the result of running it.
pub fn check_fsck(result: &crate::error::Result<()>) -> (c: Check)
    ensures
        c.name@ == "git fsck"@,
        c.passed == result is Ok,
        opt_view(c.message) == match result {
            Ok(()) => None,
            Err(e) => Some(error_message(e@)),
        },
{
    match result {
        Ok(()) => Check { name: "git fsck", passed: true, message: None },
        Err(e) => Check { name: "git fsck", passed: false, message: Some(e.message()) },
    }
}

/// The git installation check, given the result of `git --version`.
pub fn check_git_installed(version: &crate::error::Result<String>) -> (c: Check)
    ensures
        c.name@ == "git"@,
        c.passed == version is Ok,
        opt_view(c.message) == match version {
            Ok(v) => Some(v@),
            Err(e) => if e@ == ErrorView::GitNotFound {
                Some("git not found on PATH"@)
            } else {
                Some(error_message(e@))
            },
        },
{
    match version {
        Ok(v) => Check { name: "git", passed: true, message: Some(copy_str(v.as_str())) },
        Err(GitreeError::GitNotFound) => Check {
            name: "git",
            passed: false,
            message: note("git not found on PATH"),
        },
        Err(e) => Check { name: "git", passed: false, message: Some(e.message()) },
    }
}

/// The report line of one check: its status (`ok` or `FAIL`) padded to 10
/// characters, two spaces, its name, and `  (<message>)` when it has one.
pub open spec fn check_line(name: Seq<char>, passed: bool, message: Option<Seq<char>>) -> Seq<
    char,
> {
    pad_right(
        if passed {
            "ok"@
        } else {
            "FAIL"@
        },
        10,
    ) + "  "@ + name + match message {
        Some(m) => "  ("@ + m + ")"@,
        None => Seq::empty(),
    } + "\n"@
}

/// The report lines of the first `n` checks.
pub open spec fn check_lines(checks: Seq<Check>, n: int) -> Seq<char>
    decreases n,
{
    if n <= 0 {
        Seq::empty()
    } else {
        check_lines(checks, n - 1) + check_line(
            checks[n - 1].name@,
            checks[n - 1].passed,
            opt_view(checks[n - 1].message),
        )
    }
}

/// The whole doctor report: a line per check, then a blank line and the
/// verdict.
pub open spec fn doctor_text(checks: Seq<Check>) -> Seq<char> {
    check_lines(checks, checks.len() as int) + if forall|i: int|
        0 <= i < checks.len() ==> #[trigger] checks[i].passed {
        "\nAll checks passed.\n"@
    } else {
        "\nSome checks failed. See messages above.\n"@
    }
}

/// Renders the doctor report for `checks`.
pub fn doctor_report(checks: &[Check]) -> (s: String)
    ensures
        s@ == doctor_text(checks@),
{
    let mut s = String::new();
    let mut all_passed = true;
    let mut i: usize = 0;
    while i < checks.len()
        invariant
            i <= checks@.len(),
            s@ == check_lines(checks@, i as int),
            all_passed == forall|k: int| 0 <= k < i ==> #[trigger] checks@[k].passed,
        decreases checks.len() - i,
    {
        let c = &checks[i];
        let mut line = String::new();
        if c.passed {
            push_padded(&mut line, "ok", 10);
        } else {
            push_padded(&mut line, "FAIL", 10);
        }
        push_str(&mut line, "  ");
        push_str(&mut line, c.name);
        match &c.message {
            Some(m) => {
                push_str(&mut line, "  (");
                push_str(&mut line, m.as_str());
                push_str(&mut line, ")");
            },
            None => {},
        }
        push_str(&mut line, "\n");
        push_str(&mut s, line.as_str());
        if !c.passed {
            all_passed = false;
        }
        i = i + 1;
    }
    if all_passed {
        push_str(&mut s, "\nAll checks passed.\n");
    } else {
        push_str(&mut s, "\nSome checks failed. See messages above.\n");
    }
    s
}

} // verus!
