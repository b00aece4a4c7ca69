//! `gitree status` — overview of all worktrees.

use vstd::prelude::*;

use crate::format::{
    branch_or_detached, opt_str_view, path_shown, shown_branch, ColorPolicy, PathPolicy,
};
use crate::git::WorktreeEntry;
use crate::text::{
    contains, decimal, lemma_contains_middle, lemma_decimal_digits, pad_right, push_decimal,
    push_padded, push_str,
};

verus! {

/// Options for `gitree status`.
#[derive(Debug, Clone)]
pub struct StatusOptions {
    /// Output as JSON.
    pub json: bool,
    /// Color policy.
    pub color: ColorPolicy,
    /// Path display policy.
    pub path: PathPolicy,
}

impl Default for StatusOptions {
    fn default() -> (o: Self)
        ensures
            !o.json,
            o.color == ColorPolicy::Auto,
            o.path == PathPolicy::Relative,
    {
        StatusOptions { json: false, color: ColorPolicy::Auto, path: PathPolicy::Relative }
    }
}

/// A status row for a single worktree.
#[derive(Debug, Clone)]
pub struct StatusRow {
    /// The branch name.
    pub branch: String,
    /// The worktree filesystem path, formatted per the requested [`PathPolicy`].
    pub path_str: String,
    /// Number of uncommitted changes.
    pub dirty: usize,
    /// Commits ahead of origin.
    pub ahead: usize,
    /// Commits behind origin.
    pub behind: usize,
}

/// The mathematical value of a [`StatusRow`].
pub struct StatusRowView {
    pub branch: Seq<char>,
    pub path_str: Seq<char>,
    pub dirty: nat,
    pub ahead: nat,
    pub behind: nat,
}

impl View for StatusRow {
    type V = StatusRowView;

    open spec fn view(&self) -> StatusRowView {
        StatusRowView {
            branch: self.branch@,
            path_str: self.path_str@,
            dirty: self.dirty as nat,
            ahead: self.ahead as nat,
            behind: self.behind as nat,
        }
    }
}

impl StatusRow {
    /// Builds a [`StatusRow`] from a [`WorktreeEntry`].
    ///
    /// `path`, `cwd`, and `home` control how the worktree filesystem path is
    /// rendered (see [`PathPolicy::format`]). `dirty`, `ahead`, and `behind`
    /// are the worktree's change counts relative to its upstream.
    pub fn from_entry(
        entry: &WorktreeEntry,
        dirty: usize,
        ahead: usize,
        behind: usize,
        path: PathPolicy,
        cwd: &str,
        home: Option<&str>,
    ) -> (row: StatusRow)
        ensures
            row@ == (StatusRowView {
                branch: shown_branch(entry@.branch),
                path_str: path_shown(path, entry@.path, cwd@, opt_str_view(home)),
                dirty: dirty as nat,
                ahead: ahead as nat,
                behind: behind as nat,
            }),
    {
        StatusRow {
            branch: branch_or_detached(&entry.branch),
            path_str: path.format(entry.path.as_str(), cwd, home),
            dirty,
            ahead,
            behind,
        }
    }
}

/// ` (<n> change[s])` for a dirty worktree, nothing for a clean one.
pub open spec fn dirty_marker(dirty: nat) -> Seq<char> {
    if dirty > 0 {
        " ("@ + decimal(dirty) + " change"@ + (if dirty == 1 {
            Seq::empty()
        } else {
            "s"@
        }) + ")"@
    } else {
        Seq::empty()
    }
}

/// ` ↑<ahead>↓<behind>` when either count is non-zero, nothing otherwise.
pub open spec fn ahead_behind_marker(ahead: nat, behind: nat) -> Seq<char> {
    if ahead > 0 || behind > 0 {
        " ↑"@ + decimal(ahead) + "↓"@ + decimal(behind)
    } else {
        Seq::empty()
    }
}

/// `text` wrapped in the color `code` when colored and `on`.
pub open spec fn colored(text: Seq<char>, code: Seq<char>, use_color: bool, on: bool) -> Seq<char> {
    if use_color && on {
        code + text + "\x1b[0m"@
    } else {
        text
    }
}

/// The text line for one status row: the branch padded to 30 characters, a
/// space, the path, the dirty marker (yellow when colored) and the
/// ahead/behind marker (cyan when colored).
pub open spec fn status_line(row: StatusRowView, use_color: bool) -> Seq<char> {
    pad_right(row.branch, 30) + " "@ + row.path_str + colored(
        dirty_marker(row.dirty),
        "\x1b[33m"@,
        use_color,
        row.dirty > 0,
    ) + colored(
        ahead_behind_marker(row.ahead, row.behind),
        "\x1b[36m"@,
        use_color,
        row.ahead > 0 || row.behind > 0,
    ) + "\n"@
}

/// The text of all status rows, one line each.
pub open spec fn status_text(rows: Seq<StatusRowView>, use_color: bool) -> Seq<char>
    decreases rows.len(),
{
    if rows.len() == 0 {
        Seq::empty()
    } else {
        status_text(rows.drop_last(), use_color) + status_line(rows.last(), use_color)
    }
}

/// The views of a sequence of status rows.
pub open spec fn status_views(rows: Seq<StatusRow>) -> Seq<StatusRowView> {
    rows.map_values(|r: StatusRow| r@)
}

fn dirty_marker_of(dirty: usize) -> (s: String)
    ensures
        s@ == dirty_marker(dirty as nat),
{
    let mut s = String::new();
    if dirty > 0 {
        push_str(&mut s, " (");
        push_decimal(&mut s, dirty);
        push_str(&mut s, " change");
        if dirty != 1 {
            push_str(&mut s, "s");
        }
        push_str(&mut s, ")");
    }
    s
}

fn ahead_behind_marker_of(ahead: usize, behind: usize) -> (s: String)
    ensures
        s@ == ahead_behind_marker(ahead as nat, behind as nat),
{
    let mut s = String::new();
    if ahead > 0 || behind > 0 {
        push_str(&mut s, " ↑");
        push_decimal(&mut s, ahead);
        push_str(&mut s, "↓");
        push_decimal(&mut s, behind);
    }
    s
}

fn push_colored(out: &mut String, text: &str, code: &str, use_color: bool, on: bool)
    ensures
        final(out)@ == old(out)@ + colored(text@, code@, use_color, on),
{
    if use_color && on {
        push_str(out, code);
        push_str(out, text);
        push_str(out, "\x1b[0m");
    } else {
        push_str(out, text);
    }
}

fn push_status_line(out: &mut String, row: &StatusRow, use_color: bool)
    ensures
        final(out)@ == old(out)@ + status_line(row@, use_color),
{
    let mut line = String::new();
    push_padded(&mut line, row.branch.as_str(), 30);
    push_str(&mut line, " ");
    push_str(&mut line, row.path_str.as_str());
    let dm = dirty_marker_of(row.dirty);
    push_colored(&mut line, dm.as_str(), "\x1b[33m", use_color, row.dirty > 0);
    let ab = ahead_behind_marker_of(row.ahead, row.behind);
    push_colored(&mut line, ab.as_str(), "\x1b[36m", use_color, row.ahead > 0 || row.behind > 0);
    push_str(&mut line, "\n");
    push_str(out, line.as_str());
}

/// Renders the status overview as plain text (Git-style), appending it to
/// `out`.
pub fn render_text(rows: &[StatusRow], use_color: bool, out: &mut String)
    ensures
        final(out)@ == old(out)@ + status_text(status_views(rows@), use_color),
{
    let mut i: usize = 0;
    assert(status_views(rows@).take(0) =~= Seq::<StatusRowView>::empty());
    while i < rows.len()
        invariant
            i <= rows@.len(),
            out@ == old(out)@ + status_text(status_views(rows@).take(i as int), use_color),
        decreases rows.len() - i,
    {
        push_status_line(out, &rows[i], use_color);
        proof {
            let t = status_views(rows@).take(i + 1);
            assert(t.drop_last() == status_views(rows@).take(i as int));
            assert(t.last() == rows@[i as int]@);
        }
        i = i + 1;
    }
    assert(status_views(rows@).take(rows@.len() as int) == status_views(rows@));
}


// ---------------------------------------------------------------------------
// Laws
// ---------------------------------------------------------------------------

proof fn lemma_free_of_arrow_decimal(n: nat)
    ensures
        !decimal(n).contains('↑'),
{
    lemma_decimal_digits(n);
    if decimal(n).contains('↑') {
        let i = choose|i: int| 0 <= i < decimal(n).len() && decimal(n)[i] == '↑';
        assert('0' <= decimal(n)[i] <= '9');
    }
}

proof fn lemma_free_of_concat(a: Seq<char>, b: Seq<char>, c: char)
    requires
        !a.contains(c),
        !b.contains(c),
    ensures
        !(a + b).contains(c),
{
    if (a + b).contains(c) {
        let i = choose|i: int| 0 <= i < (a + b).len() && (a + b)[i] == c;
        if i < a.len() {
            assert(a[i] == c);
        } else {
            assert(b[i - a.len()] == c);
        }
    }
}

/// The markers of a status line.  A worktree ahead of or behind its
/// upstream shows ` ↑<ahead>↓<behind>`, colored or not; one that is neither
/// shows no `↑` at all (when its branch and path hold none).  A dirty
/// worktree shows ` (<n> change`, colored or not.
pub proof fn lemma_status_line_markers(row: StatusRowView, use_color: bool)
    ensures
        (row.ahead > 0 || row.behind > 0) ==> contains(
            status_line(row, use_color),
            " ↑"@ + decimal(row.ahead) + "↓"@ + decimal(row.behind),
        ),
        (row.ahead == 0 && row.behind == 0 && !row.branch.contains('↑') && !row.path_str.contains(
            '↑',
        )) ==> !status_line(row, use_color).contains('↑'),
        row.dirty > 0 ==> contains(status_line(row, use_color), " ("@ + decimal(row.dirty) + " change"@),
{
    reveal_strlit(" ");
    reveal_strlit(" (");
    reveal_strlit(" change");
    reveal_strlit("s");
    reveal_strlit(")");
    reveal_strlit("\n");
    reveal_strlit("\x1b[33m");
    reveal_strlit("\x1b[36m");
    reveal_strlit("\x1b[0m");
    let head = pad_right(row.branch, 30) + " "@ + row.path_str;
    let dm = dirty_marker(row.dirty);
    let dpart = colored(dm, "\x1b[33m"@, use_color, row.dirty > 0);
    let ab = ahead_behind_marker(row.ahead, row.behind);
    let abpart = colored(ab, "\x1b[36m"@, use_color, row.ahead > 0 || row.behind > 0);
    let line = status_line(row, use_color);
    assert(line == head + dpart + abpart + "\n"@);
    if row.ahead > 0 || row.behind > 0 {
        let x = " ↑"@ + decimal(row.ahead) + "↓"@ + decimal(row.behind);
        assert(ab == x);
        if use_color {
            assert(line =~= (head + dpart + "\x1b[36m"@) + x + ("\x1b[0m"@ + "\n"@));
            lemma_contains_middle(head + dpart + "\x1b[36m"@, x, "\x1b[0m"@ + "\n"@);
        } else {
            assert(line =~= (head + dpart) + x + "\n"@);
            lemma_contains_middle(head + dpart, x, "\n"@);
        }
    }
    if row.dirty > 0 {
        let x = " ("@ + decimal(row.dirty) + " change"@;
        let rest = (if row.dirty == 1 { Seq::<char>::empty() } else { "s"@ }) + ")"@;
        assert(dm =~= x + rest);
        if use_color {
            assert(line =~= (head + "\x1b[33m"@) + x + (rest + "\x1b[0m"@ + abpart + "\n"@));
            lemma_contains_middle(head + "\x1b[33m"@, x, rest + "\x1b[0m"@ + abpart + "\n"@);
        } else {
            assert(line =~= head + x + (rest + abpart + "\n"@));
            lemma_contains_middle(head, x, rest + abpart + "\n"@);
        }
    }
    if row.ahead == 0 && row.behind == 0 && !row.branch.contains('↑') && !row.path_str.contains('↑') {
        assert(abpart =~= Seq::<char>::empty());
        let pad = pad_right(row.branch, 30);
        if row.branch.len() < 30 {
            let sp = Seq::new((30 - row.branch.len()) as nat, |i: int| ' ');
            assert(!sp.contains('↑'));
            lemma_free_of_concat(row.branch, sp, '↑');
        }
        assert(!pad.contains('↑'));
        assert(!" "@.contains('↑'));
        lemma_free_of_concat(pad, " "@, '↑');
        lemma_free_of_concat(pad + " "@, row.path_str, '↑');
        if row.dirty > 0 {
            lemma_free_of_arrow_decimal(row.dirty as nat);
            let tail: Seq<char> = if row.dirty == 1 { Seq::empty() } else { "s"@ };
            assert(!" ("@.contains('↑'));
            assert(!" change"@.contains('↑'));
            assert(!tail.contains('↑'));
            assert(!")"@.contains('↑'));
            lemma_free_of_concat(" ("@, decimal(row.dirty as nat), '↑');
            lemma_free_of_concat(" ("@ + decimal(row.dirty as nat), " change"@, '↑');
            lemma_free_of_concat(" ("@ + decimal(row.dirty as nat) + " change"@, tail, '↑');
            lemma_free_of_concat(" ("@ + decimal(row.dirty as nat) + " change"@ + tail, ")"@, '↑');
            assert(!dm.contains('↑'));
            if use_color {
                assert(!"\x1b[33m"@.contains('↑'));
                assert(!"\x1b[0m"@.contains('↑'));
                lemma_free_of_concat("\x1b[33m"@, dm, '↑');
                lemma_free_of_concat("\x1b[33m"@ + dm, "\x1b[0m"@, '↑');
            }
        } else {
            assert(dm =~= Seq::<char>::empty());
        }
        assert(!dpart.contains('↑'));
        lemma_free_of_concat(head, dpart, '↑');
        assert(!"\n"@.contains('↑'));
        lemma_free_of_concat(head + dpart, "\n"@, '↑');
        assert(line =~= head + dpart + "\n"@);
    }
}

} // verus!
