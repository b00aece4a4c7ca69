//! The arguments of each subcommand, as plain values.  The command-line
//! parser fills them; the options of each command are built from them.

use vstd::prelude::*;

use crate::format::{ColorPolicy, PathPolicy};

verus! {

/// Arguments for `gitree init`.
#[derive(Debug, Clone)]
pub struct InitArgs {
    /// Remote URL to clone from.
    pub url: String,
    /// Wrapper directory name (defaults to repo name from URL).
    pub name: Option<String>,
    /// Skip confirmation prompts.
    pub yes: bool,
}

/// Arguments for `gitree migrate`.
#[derive(Debug, Clone)]
pub struct MigrateArgs {
    /// Skip confirmation prompt.
    pub yes: bool,
    /// Allow migration even with warnings (untracked files, local-only
    /// branches).
    pub force: bool,
}

/// Arguments for `gitree add`.
#[derive(Debug, Clone)]
pub struct AddArgs {
    /// Branch name to create a worktree for.
    pub branch: String,
    /// Create a new branch instead of checking out an existing one.
    pub new: bool,
    /// Base ref when creating a new branch (default: HEAD of current
    /// worktree, or main/master).
    pub base: Option<String>,
}

/// Arguments for `gitree remove`.
#[derive(Debug, Clone)]
pub struct RemoveArgs {
    /// Branch names whose worktrees to remove.
    pub branch: Vec<String>,
    /// Also delete the local branch.
    pub delete_branch: bool,
    /// Force removal even if the worktree is dirty.
    pub force: bool,
}

/// Arguments for `gitree list`.
#[derive(Debug, Clone)]
pub struct ListArgs {
    /// Output as JSON.
    pub json: bool,
    /// Color output: always, never, or auto.
    pub color: ColorPolicy,
    /// How to display worktree paths: relative (to CWD), absolute, or
    /// abbreviated (home directory shown as `~`).
    pub path: PathPolicy,
}

/// Arguments for `gitree switch`.
#[derive(Debug, Clone)]
pub struct SwitchArgs {
    /// Branch name to switch to.
    pub branch: String,
}

/// Arguments for `gitree where`.
#[derive(Debug, Clone)]
pub struct WhereArgs {
    /// Branch name.
    pub branch: String,
}

/// Arguments for `gitree pull`.
#[derive(Debug, Clone)]
pub struct PullArgs {
    /// Fast-forward every worktree behind its origin branch.
    pub all: bool,
    /// Override the branch to fast-forward (default: main, fallback
    /// master).
    pub branch: Option<String>,
    /// Stash uncommitted changes before merging, pop afterwards.
    pub autostash: bool,
}

/// Arguments for `gitree foreach`.
#[derive(Debug, Clone)]
pub struct ForeachArgs {
    /// Command to run (passed to `sh -c`).
    pub command: String,
    /// Run in parallel using threads.
    pub parallel: bool,
    /// Filter worktrees by branch glob pattern (e.g. `feature/*`).
    pub only: Option<String>,
}

/// Arguments for `gitree clean`.
#[derive(Debug, Clone)]
pub struct CleanArgs {
    /// Delete stale branches without prompting.
    pub force: bool,
}

/// Arguments for `gitree env`.
#[derive(Debug, Clone)]
pub struct EnvArgs {
    /// Shell to generate integration for.
    pub shell: String,
    /// Name for the shell function (default: `gtr`).
    pub alias: String,
}

/// Arguments for `gitree __mangen`.
#[derive(Debug, Clone)]
pub struct MangenArgs {
    /// Directory to write manpage(s) into.
    pub dir: String,
}

} // verus!
