//! gitree: the verified core of a git worktree workflow tool.

pub mod branch_glob;
pub mod clean;
pub mod cli;
pub mod completions;
pub mod doctor;
pub mod env;
pub mod error;
pub mod foreach;
pub mod format;
pub mod init;
pub mod migrate;
pub mod git;
pub mod paths;
pub mod pull;
pub mod repo;
pub mod shared;
pub mod status;
pub mod switch;
pub mod text;
pub mod types;
pub mod worktree;
