//! Output formatting: color policy, path policy and text rendering for
//! `gitree list`.

use vstd::prelude::*;
use vstd::utf8::{decode_utf8, encode_utf8, is_char_boundary};

use crate::git::WorktreeEntry;
use crate::text::{
    contains, copy_str, ends_with, lemma_contains_middle, opt_view, push_str, starts_with,
};

verus! {

/// Color policy for gitree output.
#[derive(Debug, Clone, Copy, PartialEq, Eq, Structural)]
pub enum ColorPolicy {
    /// Always use color.
    Always,
    /// Never use color.
    Never,
    /// Use color only when output is a terminal.
    Auto,
}

impl ColorPolicy {
    /// Returns `true` if color should be used given `is_tty`.
    pub fn should_color(self, is_tty: bool) -> (b: bool)
        ensures
            b == match self {
                ColorPolicy::Always => true,
                ColorPolicy::Never => false,
                ColorPolicy::Auto => is_tty,
            },
    {
        match self {
            ColorPolicy::Always => true,
            ColorPolicy::Never => false,
            ColorPolicy::Auto => is_tty,
        }
    }

    /// The default policy: [`ColorPolicy::Auto`].
    pub fn default_policy() -> (p: ColorPolicy)
        ensures
            p == ColorPolicy::Auto,
    {
        ColorPolicy::Auto
    }
}

/// How worktree paths are displayed.
#[derive(Debug, Clone, Copy, PartialEq, Eq, Structural)]
pub enum PathPolicy {
    /// Paths relative to the current working directory.
    Relative,
    /// Absolute paths.
    Absolute,
    /// Absolute paths with the user's home directory shown as `~`.
    Abbreviated,
}

/// The result of `pathdiff::diff_paths(path, base)`, as the string the
/// relative path displays as.
pub uninterp spec fn diff_paths_result(path: Seq<char>, base: Seq<char>) -> Option<Seq<char>>;

/// The result of `Path::new(path).strip_prefix(base)` (component-wise), as
/// the string the remainder displays as, or `None` when `base` is not a
/// prefix of `path`.
pub uninterp spec fn path_strip_prefix_result(path: Seq<char>, base: Seq<char>) -> Option<
    Seq<char>,
>;

/// Calls `pathdiff::diff_paths`, which builds the relative path from `base`
/// to `path` lexically, component by component.  The contract only names
/// the result; what the path is is left to the crate.
#[verifier::external_body]
fn diff_paths(path: &str, base: &str) -> (r: Option<String>)
    ensures
        opt_view(r) == diff_paths_result(path@, base@),
{
    match pathdiff::diff_paths(path, base) {
        Some(p) => Some(p.display().to_string()),
        None => None,
    }
}

/// Calls `std::path::Path::strip_prefix`, which removes `base` from the
/// front of `path` when it is a prefix in whole components.  The contract
/// only names the result.
#[verifier::external_body]
fn path_strip_prefix(path: &str, base: &str) -> (r: Option<String>)
    ensures
        opt_view(r) == path_strip_prefix_result(path@, base@),
{
    match std::path::Path::new(path).strip_prefix(base) {
        Ok(p) => Some(p.display().to_string()),
        Err(_) => None,
    }
}

/// How a relative path is shown: `.` for the directory itself, the path
/// otherwise, and `path` itself when there is no relative path.
pub open spec fn relative_shown(rel: Option<Seq<char>>, path: Seq<char>) -> Seq<char> {
    match rel {
        Some(r) => if r.len() == 0 {
            "."@
        } else {
            r
        },
        None => path,
    }
}

/// How a path under home is shown: `~` for home itself, `~/<rest>` below
/// it, and `path` itself when it is not under home.
pub open spec fn abbreviated_shown(rest: Option<Seq<char>>, path: Seq<char>) -> Seq<char> {
    match rest {
        Some(r) => if r.len() == 0 {
            "~"@
        } else {
            "~/"@ + r
        },
        None => path,
    }
}

/// How `path` is shown under `policy`, relative to `cwd` or with `home`
/// abbreviated.
pub open spec fn path_shown(
    policy: PathPolicy,
    path: Seq<char>,
    cwd: Seq<char>,
    home: Option<Seq<char>>,
) -> Seq<char> {
    match policy {
        PathPolicy::Relative => relative_shown(diff_paths_result(path, cwd), path),
        PathPolicy::Absolute => path,
        PathPolicy::Abbreviated => match home {
            Some(h) => abbreviated_shown(path_strip_prefix_result(path, h), path),
            None => path,
        },
    }
}

/// The view of an optional string slice.
pub open spec fn opt_str_view(o: Option<&str>) -> Option<Seq<char>> {
    match o {
        Some(s) => Some(s@),
        None => None,
    }
}

/// Shows a relative path: `.` when it is empty, the path itself when there
/// is none (`rel` is what `pathdiff::diff_paths` returned).
pub fn relative_display(rel: Option<String>, path: &str) -> (s: String)
    ensures
        s@ == relative_shown(opt_view(rel), path@),
{
    match rel {
        Some(r) => {
            if r.unicode_len() == 0 {
                let mut s = String::new();
                push_str(&mut s, ".");
                s
            } else {
                r
            }
        },
        None => copy_str(path),
    }
}

/// Shows a path below home as `~` or `~/<rest>`, or `path` itself when it
/// is not below home (`rest` is what stripping home off `path` returned).
pub fn abbreviated_display(rest: Option<String>, path: &str) -> (s: String)
    ensures
        s@ == abbreviated_shown(opt_view(rest), path@),
{
    match rest {
        Some(r) => {
            let mut s = String::new();
            if r.unicode_len() == 0 {
                push_str(&mut s, "~");
            } else {
                push_str(&mut s, "~/");
                push_str(&mut s, r.as_str());
            }
            s
        },
        None => copy_str(path),
    }
}

impl PathPolicy {
    /// The default policy: [`PathPolicy::Relative`].
    pub fn default_policy() -> (p: PathPolicy)
        ensures
            p == PathPolicy::Relative,
    {
        PathPolicy::Relative
    }

    /// Formats `path` for display according to this policy.
    ///
    /// `cwd` is the directory the path is made relative to under
    /// [`PathPolicy::Relative`] (falling back to `path` when no relative path
    /// exists); `home` is the directory shown as `~` under
    /// [`PathPolicy::Abbreviated`].
    pub fn format(self, path: &str, cwd: &str, home: Option<&str>) -> (s: String)
        ensures
            s@ == path_shown(self, path@, cwd@, opt_str_view(home)),
    {
        match self {
            PathPolicy::Relative => relative_display(diff_paths(path, cwd), path),
            PathPolicy::Absolute => copy_str(path),
            PathPolicy::Abbreviated => match home {
                Some(h) => abbreviated_display(path_strip_prefix(path, h), path),
                None => copy_str(path),
            },
        }
    }
}

/// The short form of a commit hash: its first 7 bytes when they end on a
/// character boundary (`str::get(..7)`), the whole hash otherwise.
pub open spec fn short_hash(h: Seq<char>) -> Seq<char> {
    if is_char_boundary(encode_utf8(h), 7) {
        decode_utf8(encode_utf8(h).subrange(0, 7))
    } else {
        h
    }
}

/// The short form of a commit hash.
pub fn short_hash_of(h: &str) -> (s: String)
    ensures
        s@ == short_hash(h@),
{
    if h.is_char_boundary(7) {
        let (a, _b) = h.split_at(7);
        proof {
            vstd::utf8::encode_utf8_decode_utf8(a@);
        }
        copy_str(a)
    } else {
        copy_str(h)
    }
}

/// A row in the worktree list output.
#[derive(Debug, Clone)]
pub struct WorktreeRow {
    /// The branch name (or `"(detached)"` if no branch).
    pub branch: String,
    /// The worktree filesystem path, formatted per the requested [`PathPolicy`].
    pub path_str: String,
    /// The short HEAD hash.
    pub head: String,
    /// Whether the worktree has uncommitted changes.
    pub dirty: bool,
}

/// The mathematical value of a [`WorktreeRow`].
pub struct WorktreeRowView {
    pub branch: Seq<char>,
    pub path_str: Seq<char>,
    pub head: Seq<char>,
    pub dirty: bool,
}

impl View for WorktreeRow {
    type V = WorktreeRowView;

    open spec fn view(&self) -> WorktreeRowView {
        WorktreeRowView {
            branch: self.branch@,
            path_str: self.path_str@,
            head: self.head@,
            dirty: self.dirty,
        }
    }
}

/// The branch shown for a worktree: its branch, or `(detached)`.
pub open spec fn shown_branch(branch: Option<Seq<char>>) -> Seq<char> {
    match branch {
        Some(b) => b,
        None => "(detached)"@,
    }
}

/// The branch an entry shows.
pub fn branch_or_detached(branch: &Option<String>) -> (s: String)
    ensures
        s@ == shown_branch(opt_view(*branch)),
{
    match branch {
        Some(b) => copy_str(b.as_str()),
        None => {
            let mut s = String::new();
            push_str(&mut s, "(detached)");
            s
        },
    }
}

impl WorktreeRow {
    /// Builds a [`WorktreeRow`] from a [`WorktreeEntry`].
    ///
    /// `path`, `cwd`, and `home` control how the worktree filesystem path is
    /// rendered (see [`PathPolicy::format`]).
    pub fn from_entry(
        entry: &WorktreeEntry,
        dirty: bool,
        path: PathPolicy,
        cwd: &str,
        home: Option<&str>,
    ) -> (row: WorktreeRow)
        ensures
            row@ == (WorktreeRowView {
                branch: shown_branch(entry@.branch),
                path_str: path_shown(path, entry@.path, cwd@, opt_str_view(home)),
                head: match entry@.head {
                    Some(h) => short_hash(h),
                    None => Seq::empty(),
                },
                dirty,
            }),
    {
        let head = match &entry.head {
            Some(h) => short_hash_of(h.as_str()),
            None => String::new(),
        };
        WorktreeRow {
            branch: branch_or_detached(&entry.branch),
            path_str: path.format(entry.path.as_str(), cwd, home),
            head,
            dirty,
        }
    }
}

/// The text line for one row: `<head>  <branch>  <path>[ *]`, the branch
/// in yellow when colored and dirty.
pub open spec fn row_line(row: WorktreeRowView, use_color: bool) -> Seq<char> {
    let branch = if use_color && row.dirty {
        "\x1b[33m"@ + row.branch + "\x1b[0m"@
    } else {
        row.branch
    };
    row.head + "  "@ + branch + "  "@ + row.path_str + (if row.dirty {
        " *"@
    } else {
        Seq::empty()
    }) + "\n"@
}

/// The text of all rows, one line each.
pub open spec fn rows_text(rows: Seq<WorktreeRowView>, use_color: bool) -> Seq<char>
    decreases rows.len(),
{
    if rows.len() == 0 {
        Seq::empty()
    } else {
        rows_text(rows.drop_last(), use_color) + row_line(rows.last(), use_color)
    }
}

/// The views of a sequence of rows.
pub open spec fn row_views(rows: Seq<WorktreeRow>) -> Seq<WorktreeRowView> {
    rows.map_values(|r: WorktreeRow| r@)
}

/// Appends the text line of one row.
fn push_row_line(out: &mut String, row: &WorktreeRow, use_color: bool)
    ensures
        final(out)@ == old(out)@ + row_line(row@, use_color),
{
    let mut line = String::new();
    push_str(&mut line, row.head.as_str());
    push_str(&mut line, "  ");
    let mut branch = String::new();
    if use_color && row.dirty {
        push_str(&mut branch, "\x1b[33m");
        push_str(&mut branch, row.branch.as_str());
        push_str(&mut branch, "\x1b[0m");
    } else {
        push_str(&mut branch, row.branch.as_str());
    }
    push_str(&mut line, branch.as_str());
    push_str(&mut line, "  ");
    push_str(&mut line, row.path_str.as_str());
    let mut marker = String::new();
    if row.dirty {
        push_str(&mut marker, " *");
    }
    push_str(&mut line, marker.as_str());
    push_str(&mut line, "\n");
    push_str(out, line.as_str());
}

/// Renders the worktree list as plain text (Git-style), appending it to
/// `out`.
pub fn render_text(rows: &[WorktreeRow], use_color: bool, out: &mut String)
    ensures
        final(out)@ == old(out)@ + rows_text(row_views(rows@), use_color),
{
    let mut i: usize = 0;
    assert(row_views(rows@).take(0) =~= Seq::<WorktreeRowView>::empty());
    while i < rows.len()
        invariant
            i <= rows@.len(),
            out@ == old(out)@ + rows_text(row_views(rows@).take(i as int), use_color),
        decreases rows.len() - i,
    {
        push_row_line(out, &rows[i], use_color);
        proof {
            let t = row_views(rows@).take(i + 1);
            assert(t.drop_last() == row_views(rows@).take(i as int));
            assert(t.last() == rows@[i as int]@);
        }
        i = i + 1;
    }
    assert(row_views(rows@).take(rows@.len() as int) == row_views(rows@));
}


// ---------------------------------------------------------------------------
// Laws
// ---------------------------------------------------------------------------

/// A listed worktree's line starts with its short hash, and ends with its
/// path and ` *` exactly when the worktree is dirty, whether or not the
/// output is colored; coloring only wraps the branch of a dirty worktree.
pub proof fn lemma_row_line_marks_dirty(row: WorktreeRowView, use_color: bool)
    ensures
        starts_with(row_line(row, use_color), row.head + "  "@),
        row.dirty ==> ends_with(row_line(row, use_color), row.path_str + " *\n"@),
        !row.dirty ==> ends_with(row_line(row, use_color), row.path_str + "\n"@),
        ends_with(row_line(row, true), row.path_str + (if row.dirty { " *"@ } else { Seq::empty() }) + "\n"@)
            && ends_with(row_line(row, false), row.path_str + (if row.dirty { " *"@ } else { Seq::empty() }) + "\n"@),
        !use_color ==> contains(row_line(row, use_color), "  "@ + row.branch + "  "@),
        (use_color && row.dirty) ==> contains(row_line(row, use_color), "\x1b[33m"@ + row.branch + "\x1b[0m"@),
{
    reveal_strlit(" *");
    reveal_strlit(" *\n");
    reveal_strlit("\n");
    assert(" *\n"@ =~= " *"@ + "\n"@);
    let mark: Seq<char> = if row.dirty { " *"@ } else { Seq::empty() };
    let tail = row.path_str + mark + "\n"@;
    assert forall|c: bool| #![auto] ends_with(row_line(row, c), tail) && starts_with(row_line(row, c), row.head + "  "@) by {
        let b = if c && row.dirty { "\x1b[33m"@ + row.branch + "\x1b[0m"@ } else { row.branch };
        let front = row.head + "  "@ + b + "  "@;
        assert(row_line(row, c) =~= front + tail);
        assert((front + tail).subrange((front + tail).len() - tail.len(), (front + tail).len() as int) =~= tail);
        assert((front + tail).subrange(0, (row.head + "  "@).len() as int) =~= row.head + "  "@);
    }
    assert(ends_with(row_line(row, use_color), tail));
    let l = row_line(row, use_color);
    if row.dirty {
        assert(row.path_str + " *\n"@ =~= tail);
    } else {
        assert(row.path_str + "\n"@ =~= tail);
    }
    if !use_color {
        assert(l =~= row.head + ("  "@ + row.branch + "  "@) + (row.path_str + mark + "\n"@));
        lemma_contains_middle(row.head, "  "@ + row.branch + "  "@, row.path_str + mark + "\n"@);
    }
    if use_color && row.dirty {
        let x = "\x1b[33m"@ + row.branch + "\x1b[0m"@;
        assert(l =~= (row.head + "  "@) + x + ("  "@ + tail));
        lemma_contains_middle(row.head + "  "@, x, "  "@ + tail);
    }
}

} // verus!
