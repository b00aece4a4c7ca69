//! Error type of gitree, its messages, exit codes and hints.

use vstd::prelude::*;

use crate::text::{copy_str, decimal, opt_view, push_decimal, push_str};

verus! {

/// The escape hatch available when a worktree is dirty.
#[derive(Debug, Clone, Copy, PartialEq, Eq, Structural)]
pub enum DirtyEscape {
    /// `--autostash`: stash, ff-merge, pop (used by `pull`).
    Autostash,
    /// `--force`: bypass the dirty pre-check (used by `migrate`).
    Force,
}

/// The main error type for gitree operations.
///
/// Paths are held as the strings they display as; the I/O and JSON variants
/// hold the message of the underlying error.
#[derive(Debug, Clone)]
#[non_exhaustive]
pub enum GitreeError {
    /// The current directory is not inside a gitree wrapper.
    NotAWrapper(String),
    /// A git command failed: the command summary and git's stderr.
    GitFailed { summary: String, stderr: String },
    /// Git itself is not installed or not on PATH.
    GitNotFound,
    /// A path that was expected to exist does not.
    PathMissing(String),
    /// A path that was expected to be absent already exists.
    PathExists(String),
    /// A worktree for the given branch already exists.
    WorktreeExists(String),
    /// The branch was not found locally or on any remote.
    BranchNotFound(String),
    /// The working tree is dirty and the operation requires a clean state.
    DirtyWorktree {
        /// Number of uncommitted changes.
        count: usize,
        /// The branch name of the dirty worktree, if known.
        branch: Option<String>,
        /// The filesystem path of the dirty worktree, if known.
        path: Option<String>,
        /// The escape hatch available to the user.
        escape: DirtyEscape,
    },
    /// A pre-flight check failed during `migrate`.
    PreflightFailed(String),
    /// An I/O error occurred (its message).
    Io(String),
    /// A JSON serialisation error occurred (its message).
    Json(String),
    /// A catch-all for errors that don't fit the above, with context.
    Other(String),
}

/// The mathematical value of a [`GitreeError`]: every string by its characters.
pub enum ErrorView {
    NotAWrapper(Seq<char>),
    GitFailed { summary: Seq<char>, stderr: Seq<char> },
    GitNotFound,
    PathMissing(Seq<char>),
    PathExists(Seq<char>),
    WorktreeExists(Seq<char>),
    BranchNotFound(Seq<char>),
    DirtyWorktree {
        count: nat,
        branch: Option<Seq<char>>,
        path: Option<Seq<char>>,
        escape: DirtyEscape,
    },
    PreflightFailed(Seq<char>),
    Io(Seq<char>),
    Json(Seq<char>),
    Other(Seq<char>),
}

impl View for GitreeError {
    type V = ErrorView;

    open spec fn view(&self) -> ErrorView {
        match self {
            GitreeError::NotAWrapper(p) => ErrorView::NotAWrapper(p@),
            GitreeError::GitFailed { summary, stderr } => ErrorView::GitFailed {
                summary: summary@,
                stderr: stderr@,
            },
            GitreeError::GitNotFound => ErrorView::GitNotFound,
            GitreeError::PathMissing(p) => ErrorView::PathMissing(p@),
            GitreeError::PathExists(p) => ErrorView::PathExists(p@),
            GitreeError::WorktreeExists(b) => ErrorView::WorktreeExists(b@),
            GitreeError::BranchNotFound(b) => ErrorView::BranchNotFound(b@),
            GitreeError::DirtyWorktree { count, branch, path, escape } => ErrorView::DirtyWorktree {
                count: *count as nat,
                branch: opt_view(*branch),
                path: opt_view(*path),
                escape: *escape,
            },
            GitreeError::PreflightFailed(m) => ErrorView::PreflightFailed(m@),
            GitreeError::Io(m) => ErrorView::Io(m@),
            GitreeError::Json(m) => ErrorView::Json(m@),
            GitreeError::Other(m) => ErrorView::Other(m@),
        }
    }
}

/// A specialised `Result` type used throughout gitree.
pub type Result<T> = core::result::Result<T, GitreeError>;

/// The location suffix of a dirty-worktree message: ` '<branch>'` or nothing.
pub open spec fn dirty_location(branch: Option<Seq<char>>) -> Seq<char> {
    match branch {
        Some(b) => " '"@ + b + "'"@,
        None => Seq::empty(),
    }
}

/// The message an error displays.
pub open spec fn error_message(e: ErrorView) -> Seq<char> {
    match e {
        ErrorView::NotAWrapper(p) => "not a gitree repository (or any parent directory): "@ + p,
        ErrorView::GitFailed { summary, stderr } => "git command failed: "@ + summary + "\n"@
            + stderr,
        ErrorView::GitNotFound => "git executable not found on PATH"@,
        ErrorView::PathMissing(p) => "path does not exist: "@ + p,
        ErrorView::PathExists(p) => "path already exists: "@ + p,
        ErrorView::WorktreeExists(b) => "a worktree for branch '"@ + b + "' already exists"@,
        ErrorView::BranchNotFound(b) => "branch '"@ + b + "' not found locally or on any remote"@,
        ErrorView::DirtyWorktree { count, branch, .. } => "working tree"@ + dirty_location(branch)
            + " is dirty: "@ + decimal(count) + " uncommitted change(s)"@,
        ErrorView::PreflightFailed(m) => "pre-flight check failed: "@ + m,
        ErrorView::Io(m) => m,
        ErrorView::Json(m) => m,
        ErrorView::Other(m) => m,
    }
}

/// The process exit code for an error that ends the program.
pub open spec fn error_exit_code(e: ErrorView) -> u8 {
    match e {
        ErrorView::NotAWrapper(_) => 3,
        _ => 1,
    }
}

/// The hint printed after an error, if there is one.
pub open spec fn error_hint(e: ErrorView) -> Option<Seq<char>> {
    match e {
        ErrorView::NotAWrapper(_) => Some(
            "run `gitree init <url>` to create a new repository, or `gitree migrate` to convert an existing clone"@,
        ),
        ErrorView::BranchNotFound(name) => Some(
            "to create a new branch, run: gitree add "@ + name + " --new"@,
        ),
        ErrorView::WorktreeExists(name) => Some(
            "to switch to it: eval \"$(gitree switch "@ + name + ")\""@,
        ),
        ErrorView::DirtyWorktree { branch, path, escape, .. } => Some(
            dirty_hint_location(branch, path) + dirty_hint_escape(escape),
        ),
        ErrorView::GitNotFound => Some("install git and ensure it is on your PATH"@),
        _ => None,
    }
}

/// Where a dirty worktree is, as the hint names it.
pub open spec fn dirty_hint_location(branch: Option<Seq<char>>, path: Option<Seq<char>>) -> Seq<
    char,
> {
    match path {
        Some(p) => match branch {
            Some(b) => "worktree '"@ + b + "' is at "@ + p + " — "@,
            None => "worktree is at "@ + p + " — "@,
        },
        None => Seq::empty(),
    }
}

/// How to get past a dirty worktree, as the hint says it.
pub open spec fn dirty_hint_escape(escape: DirtyEscape) -> Seq<char> {
    match escape {
        DirtyEscape::Autostash => "commit or stash before pulling, or use --autostash to stash and pull automatically"@,
        DirtyEscape::Force => "commit or stash before migrating, or use --force to proceed anyway"@,
    }
}

impl GitreeError {
    /// The message this error displays.
    pub fn message(&self) -> (m: String)
        ensures
            m@ == error_message(self@),
    {
        let mut s = String::new();
        match self {
            GitreeError::NotAWrapper(p) => {
                push_str(&mut s, "not a gitree repository (or any parent directory): ");
                push_str(&mut s, p.as_str());
            },
            GitreeError::GitFailed { summary, stderr } => {
                push_str(&mut s, "git command failed: ");
                push_str(&mut s, summary.as_str());
                push_str(&mut s, "\n");
                push_str(&mut s, stderr.as_str());
            },
            GitreeError::GitNotFound => {
                push_str(&mut s, "git executable not found on PATH");
            },
            GitreeError::PathMissing(p) => {
                push_str(&mut s, "path does not exist: ");
                push_str(&mut s, p.as_str());
            },
            GitreeError::PathExists(p) => {
                push_str(&mut s, "path already exists: ");
                push_str(&mut s, p.as_str());
            },
            GitreeError::WorktreeExists(b) => {
                push_str(&mut s, "a worktree for branch '");
                push_str(&mut s, b.as_str());
                push_str(&mut s, "' already exists");
            },
            GitreeError::BranchNotFound(b) => {
                push_str(&mut s, "branch '");
                push_str(&mut s, b.as_str());
                push_str(&mut s, "' not found locally or on any remote");
            },
            GitreeError::DirtyWorktree { count, branch, .. } => {
                push_str(&mut s, "working tree");
                match branch {
                    Some(b) => {
                        push_str(&mut s, " '");
                        push_str(&mut s, b.as_str());
                        push_str(&mut s, "'");
                    },
                    None => {},
                }
                push_str(&mut s, " is dirty: ");
                push_decimal(&mut s, *count);
                push_str(&mut s, " uncommitted change(s)");
            },
            GitreeError::PreflightFailed(m) => {
                push_str(&mut s, "pre-flight check failed: ");
                push_str(&mut s, m.as_str());
            },
            GitreeError::Io(m) => {
                push_str(&mut s, m.as_str());
            },
            GitreeError::Json(m) => {
                push_str(&mut s, m.as_str());
            },
            GitreeError::Other(m) => {
                push_str(&mut s, m.as_str());
            },
        }
        s
    }

    /// A copy of this error.
    pub fn duplicate(&self) -> (r: GitreeError)
        ensures
            r@ == self@,
    {
        match self {
            GitreeError::NotAWrapper(p) => GitreeError::NotAWrapper(copy_str(p.as_str())),
            GitreeError::GitFailed { summary, stderr } => GitreeError::GitFailed {
                summary: copy_str(summary.as_str()),
                stderr: copy_str(stderr.as_str()),
            },
            GitreeError::GitNotFound => GitreeError::GitNotFound,
            GitreeError::PathMissing(p) => GitreeError::PathMissing(copy_str(p.as_str())),
            GitreeError::PathExists(p) => GitreeError::PathExists(copy_str(p.as_str())),
            GitreeError::WorktreeExists(b) => GitreeError::WorktreeExists(copy_str(b.as_str())),
            GitreeError::BranchNotFound(b) => GitreeError::BranchNotFound(copy_str(b.as_str())),
            GitreeError::DirtyWorktree { count, branch, path, escape } => GitreeError::DirtyWorktree {
                count: *count,
                branch: match branch {
                    Some(b) => Some(copy_str(b.as_str())),
                    None => None,
                },
                path: match path {
                    Some(p) => Some(copy_str(p.as_str())),
                    None => None,
                },
                escape: *escape,
            },
            GitreeError::PreflightFailed(m) => GitreeError::PreflightFailed(copy_str(m.as_str())),
            GitreeError::Io(m) => GitreeError::Io(copy_str(m.as_str())),
            GitreeError::Json(m) => GitreeError::Json(copy_str(m.as_str())),
            GitreeError::Other(m) => GitreeError::Other(copy_str(m.as_str())),
        }
    }

    /// The exit code to use when this error is the top-level failure.
    pub fn exit_code(&self) -> (c: u8)
        ensures
            c == error_exit_code(self@),
    {
        match self {
            GitreeError::NotAWrapper(_) => 3,
            _ => 1,
        }
    }
}

/// Returns a helpful hint for specific errors.
pub fn hint_for(err: &GitreeError) -> (h: Option<String>)
    ensures
        opt_view(h) == error_hint(err@),
{
    match err {
        GitreeError::NotAWrapper(_) => {
            let mut s = String::new();
            push_str(
                &mut s,
                "run `gitree init <url>` to create a new repository, or `gitree migrate` to convert an existing clone",
            );
            Some(s)
        },
        GitreeError::BranchNotFound(name) => {
            let mut s = String::new();
            push_str(&mut s, "to create a new branch, run: gitree add ");
            push_str(&mut s, name.as_str());
            push_str(&mut s, " --new");
            Some(s)
        },
        GitreeError::WorktreeExists(name) => {
            let mut s = String::new();
            push_str(&mut s, "to switch to it: eval \"$(gitree switch ");
            push_str(&mut s, name.as_str());
            push_str(&mut s, ")\"");
            Some(s)
        },
        GitreeError::DirtyWorktree { branch, path, escape, .. } => {
            let mut s = String::new();
            match path {
                Some(p) => match branch {
                    Some(b) => {
                        push_str(&mut s, "worktree '");
                        push_str(&mut s, b.as_str());
                        push_str(&mut s, "' is at ");
                        push_str(&mut s, p.as_str());
                        push_str(&mut s, " — ");
                    },
                    None => {
                        push_str(&mut s, "worktree is at ");
                        push_str(&mut s, p.as_str());
                        push_str(&mut s, " — ");
                    },
                },
                None => {},
            }
            match escape {
                DirtyEscape::Autostash => {
                    push_str(
                        &mut s,
                        "commit or stash before pulling, or use --autostash to stash and pull automatically",
                    );
                },
                DirtyEscape::Force => {
                    push_str(
                        &mut s,
                        "commit or stash before migrating, or use --force to proceed anyway",
                    );
                },
            }
            Some(s)
        },
        GitreeError::GitNotFound => {
            let mut s = String::new();
            push_str(&mut s, "install git and ensure it is on your PATH");
            Some(s)
        },
        _ => None,
    }
}

} // verus!
