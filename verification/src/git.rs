//! Typed description of the `git` invocations gitree makes, and the
//! interpretation of what they print.
//!
//! A [`Git`] names the directory commands run in.  [`Git::request`] turns an
//! operation into the exact command line; whoever runs it hands the
//! [`GitOutcome`] back to the method named after the operation, which
//! checks the exit status and parses the output.

use vstd::prelude::*;

use crate::error::{ErrorView, GitreeError, Result};
use crate::text::{
    chars_of, contains, copy_str, has_substring, is_whitespace, is_ws, lines, lines_of, opt_view, push_str, same_text,
    split_once, split_once_str, strip_prefix, strip_prefix_str, trim, trim_str, views,
};

verus! {

// ---------------------------------------------------------------------------
// Commands and outcomes
// ---------------------------------------------------------------------------

/// A handle for running git commands in a specific directory.
#[derive(Debug, Clone)]
pub struct Git {
    /// Working directory for git commands.
    cwd: String,
}

impl View for Git {
    type V = Seq<char>;

    closed spec fn view(&self) -> Seq<char> {
        self.cwd@
    }
}

/// A git command line: where it runs, its arguments and extra environment.
#[derive(Debug, Clone)]
pub struct GitCommand {
    /// The working directory.
    pub cwd: String,
    /// The arguments after `git`.
    pub args: Vec<String>,
    /// Extra environment variables.
    pub env: Vec<(String, String)>,
}

/// What running a git command produced.
#[derive(Debug, Clone)]
pub enum GitOutcome {
    /// The command ran; its exit code (`None` if killed by a signal) and its
    /// output, decoded as UTF-8 with invalid sequences replaced.
    Exited { code: Option<i32>, stdout: String, stderr: String },
    /// The `git` executable was not found.
    NotFound,
    /// Spawning failed for another reason (the error's message).
    SpawnFailed(String),
}

/// The operations gitree asks git to perform.
#[derive(Debug, Clone)]
pub enum GitOp {
    Version,
    CommonDir,
    StatusPorcelain,
    LocalBranches,
    RemoteBranches,
    AheadBehind { branch: String },
    WorktreeAdd { path: String, branch: String, new: bool, base: Option<String> },
    WorktreeRemove { path: String, force: bool },
    ConfigUnset { key: String },
    WorktreeMove { from: String, to: String },
    WorktreeRepair,
    WorktreePrune,
    WorktreeList,
    Fetch,
    FetchPrune,
    MergeFfOnly { refspec: String, autostash: bool },
    ConfigSet { key: String, value: String },
    ConfigGet { key: String },
    Fsck,
    StashList,
    RevParseHead,
    BranchDelete { name: String, force: bool },
    CloneBare { url: String, path: String },
}

/// `s` as a one-element sequence of arguments.
pub open spec fn arg(s: Seq<char>) -> Seq<Seq<char>> {
    seq![s]
}

/// The arguments of `git worktree add`.
pub open spec fn worktree_add_args(
    path: Seq<char>,
    branch: Seq<char>,
    new: bool,
    base: Option<Seq<char>>,
) -> Seq<Seq<char>> {
    seq!["worktree"@, "add"@] + (if new {
        seq!["-b"@, branch]
    } else {
        Seq::empty()
    }) + arg(path) + (if new {
        match base {
            Some(b) => arg(b),
            None => Seq::empty(),
        }
    } else {
        arg(branch)
    })
}

/// The arguments of each operation, after `git`.
pub open spec fn op_args(op: GitOp) -> Seq<Seq<char>> {
    match op {
        GitOp::Version => seq!["--version"@],
        GitOp::CommonDir => seq!["rev-parse"@, "--git-common-dir"@],
        GitOp::StatusPorcelain => seq!["status"@, "--porcelain"@],
        GitOp::LocalBranches => seq!["branch"@, "--list"@, "--format=%(refname:short)"@],
        GitOp::RemoteBranches => seq![
            "branch"@,
            "--remote"@,
            "--list"@,
            "--format=%(refname:short)"@,
        ],
        GitOp::AheadBehind { branch } => seq![
            "rev-list"@,
            "--left-right"@,
            "--count"@,
            "origin/"@ + branch@ + "..."@ + branch@,
        ],
        GitOp::WorktreeAdd { path, branch, new, base } => worktree_add_args(
            path@,
            branch@,
            new,
            opt_view(base),
        ),
        GitOp::WorktreeRemove { path, force } => seq!["worktree"@, "remove"@] + (if force {
            seq!["--force"@]
        } else {
            Seq::empty()
        }) + arg(path@),
        GitOp::ConfigUnset { key } => seq!["config"@, "--unset"@, key@],
        GitOp::WorktreeMove { from, to } => seq!["worktree"@, "move"@, from@, to@],
        GitOp::WorktreeRepair => seq!["worktree"@, "repair"@],
        GitOp::WorktreePrune => seq!["worktree"@, "prune"@],
        GitOp::WorktreeList => seq!["worktree"@, "list"@, "--porcelain"@],
        GitOp::Fetch => seq!["fetch"@, "origin"@],
        GitOp::FetchPrune => seq!["fetch"@, "--prune"@, "origin"@],
        GitOp::MergeFfOnly { refspec, autostash } => seq!["merge"@, "--ff-only"@] + (if autostash {
            seq!["--autostash"@]
        } else {
            Seq::empty()
        }) + arg(refspec@),
        GitOp::ConfigSet { key, value } => seq!["config"@, key@, value@],
        GitOp::ConfigGet { key } => seq!["config"@, "--get"@, key@],
        GitOp::Fsck => seq!["fsck"@, "--full"@],
        GitOp::StashList => seq!["stash"@, "list"@],
        GitOp::RevParseHead => seq!["rev-parse"@, "HEAD"@],
        GitOp::BranchDelete { name, force } => seq![
            "branch"@,
            if force {
                "-D"@
            } else {
                "-d"@
            },
            name@,
        ],
        GitOp::CloneBare { url, path } => seq!["clone"@, "--bare"@, url@, path@],
    }
}

/// `parts` joined by single spaces.
pub open spec fn join_spaces(parts: Seq<Seq<char>>) -> Seq<char>
    decreases parts.len(),
{
    if parts.len() == 0 {
        Seq::empty()
    } else if parts.len() == 1 {
        parts[0]
    } else {
        join_spaces(parts.drop_last()) + " "@ + parts.last()
    }
}

/// How a failed command is named in errors: `git <args>`, except that a
/// bare clone names only its URL.
pub open spec fn op_summary(op: GitOp) -> Seq<char> {
    match op {
        GitOp::CloneBare { url, .. } => "git clone --bare "@ + url@,
        _ => "git "@ + join_spaces(op_args(op)),
    }
}

/// The trimmed standard output of a successful command, or the error a
/// failed one stands for.
pub open spec fn checked_output(out: GitOutcome, summary: Seq<char>) -> core::result::Result<
    Seq<char>,
    ErrorView,
> {
    match out {
        GitOutcome::NotFound => Err(ErrorView::GitNotFound),
        GitOutcome::SpawnFailed(m) => Err(ErrorView::Io(m@)),
        GitOutcome::Exited { code, stdout, stderr } => if code == Some(0i32) {
            Ok(trim(stdout@))
        } else {
            Err(ErrorView::GitFailed { summary: summary, stderr: trim(stderr@) })
        },
    }
}

/// `r` is what `c` stands for: the same error, or a value related to the
/// output by `ok`.
pub open spec fn outcome_is<T>(
    r: Result<T>,
    c: core::result::Result<Seq<char>, ErrorView>,
    ok: spec_fn(Seq<char>, T) -> bool,
) -> bool {
    match c {
        Ok(t) => match r {
            Ok(v) => ok(t, v),
            Err(_) => false,
        },
        Err(e) => match r {
            Ok(_) => false,
            Err(x) => x@ == e,
        },
    }
}

// ---------------------------------------------------------------------------
// Parsing specifications
// ---------------------------------------------------------------------------

/// The whitespace-separated words of `s`, with `cur` the word read so far
/// (`str::split_whitespace`).
pub open spec fn words_acc(s: Seq<char>, cur: Seq<char>) -> Seq<Seq<char>>
    decreases s.len(),
{
    if s.len() == 0 {
        if cur.len() == 0 {
            Seq::empty()
        } else {
            seq![cur]
        }
    } else if is_ws(s[0]) {
        (if cur.len() == 0 {
            Seq::empty()
        } else {
            seq![cur]
        }) + words_acc(s.drop_first(), Seq::empty())
    } else {
        words_acc(s.drop_first(), cur.push(s[0]))
    }
}

/// The whitespace-separated words of `s`.
pub open spec fn words(s: Seq<char>) -> Seq<Seq<char>> {
    words_acc(s, Seq::empty())
}

/// An ASCII decimal digit.
pub open spec fn is_digit(c: char) -> bool {
    '0' <= c && c <= '9'
}

/// The value of a string of decimal digits.
pub open spec fn digits_value(s: Seq<char>) -> int
    decreases s.len(),
{
    if s.len() == 0 {
        0
    } else {
        digits_value(s.drop_last()) * 10 + (s.last() as int - '0' as int)
    }
}

/// Every character of `d` is a decimal digit.
pub open spec fn all_digits(d: Seq<char>) -> bool {
    forall|i: int| 0 <= i < d.len() ==> is_digit(#[trigger] d[i])
}

/// `str::parse::<usize>`: an optional `+`, then one or more digits whose
/// value fits in a `usize`.
pub open spec fn parse_usize(s: Seq<char>) -> Option<int> {
    let d = if s.len() > 0 && s[0] == '+' {
        s.drop_first()
    } else {
        s
    };
    if d.len() > 0 && all_digits(d) && digits_value(d) <= usize::MAX {
        Some(digits_value(d))
    } else {
        None
    }
}

/// The parsed number, or 0 when `s` is not one.
pub open spec fn parse_or_zero(s: Seq<char>) -> int {
    match parse_usize(s) {
        Some(n) => n,
        None => 0,
    }
}

/// `(ahead, behind)` from `git rev-list --left-right --count` output.
pub open spec fn ahead_behind_of(out: Seq<char>) -> (int, int) {
    let w = words(out);
    if w.len() == 2 {
        (parse_or_zero(w[1]), parse_or_zero(w[0]))
    } else {
        (0, 0)
    }
}

/// The name of a remote-tracking branch without its `origin/` prefix.
pub open spec fn remote_branch_name(line: Seq<char>) -> Seq<char> {
    match strip_prefix(line, "origin/"@) {
        Some(rest) => rest,
        None => line,
    }
}

/// Remote branch names from `git branch --remote` lines: the `origin`
/// symref line dropped, `origin/` stripped, `HEAD` dropped.
pub open spec fn remote_names(ls: Seq<Seq<char>>) -> Seq<Seq<char>>
    decreases ls.len(),
{
    if ls.len() == 0 {
        Seq::empty()
    } else {
        let prev = remote_names(ls.drop_last());
        let l = ls.last();
        if l == "origin"@ || remote_branch_name(l) == "HEAD"@ {
            prev
        } else {
            prev.push(remote_branch_name(l))
        }
    }
}

/// The elements of `xs`, in order, that do not occur in `ys`.
pub open spec fn not_in(xs: Seq<Seq<char>>, ys: Seq<Seq<char>>) -> Seq<Seq<char>>
    decreases xs.len(),
{
    if xs.len() == 0 {
        Seq::empty()
    } else if ys.contains(xs.last()) {
        not_in(xs.drop_last(), ys)
    } else {
        not_in(xs.drop_last(), ys).push(xs.last())
    }
}

/// `not_in(xs, ys)` holds exactly the names of `xs` that are not in `ys`.
pub proof fn lemma_not_in_members(xs: Seq<Seq<char>>, ys: Seq<Seq<char>>, x: Seq<char>)
    ensures
        not_in(xs, ys).contains(x) <==> (xs.contains(x) && !ys.contains(x)),
    decreases xs.len(),
{
    if xs.len() > 0 {
        lemma_not_in_members(xs.drop_last(), ys, x);
        let p = not_in(xs.drop_last(), ys);
        if xs.contains(x) && !ys.contains(x) {
            let i = choose|i: int| 0 <= i < xs.len() && xs[i] == x;
            if i < xs.len() - 1 {
                assert(xs.drop_last()[i] == x);
            }
        }
        if xs.drop_last().contains(x) {
            let i = choose|i: int| 0 <= i < xs.drop_last().len() && xs.drop_last()[i] == x;
            assert(xs[i] == x);
        }
        if !ys.contains(xs.last()) {
            assert(p.push(xs.last()).last() == xs.last());
            if p.contains(x) {
                let i = choose|i: int| 0 <= i < p.len() && p[i] == x;
                assert(p.push(xs.last())[i] == x);
            }
            if p.push(xs.last()).contains(x) {
                let i = choose|i: int| 0 <= i < p.len() + 1 && p.push(xs.last())[i] == x;
                if i < p.len() {
                    assert(p[i] == x);
                }
            }
        }
    }
}

/// The mathematical value of a [`WorktreeEntry`].
pub struct EntryView {
    pub path: Seq<char>,
    pub head: Option<Seq<char>>,
    pub branch: Option<Seq<char>>,
    pub bare: bool,
    pub locked: bool,
    pub prunable: bool,
}

/// A fresh entry for the worktree at `path`.
pub open spec fn new_entry(path: Seq<char>) -> EntryView {
    EntryView { path, head: None, branch: None, bare: false, locked: false, prunable: false }
}

/// The key and value of a porcelain line: split at the first space, or the
/// whole line with an empty value.
pub open spec fn line_key_value(line: Seq<char>) -> (Seq<char>, Seq<char>) {
    match split_once(line, ' ') {
        Some(kv) => kv,
        None => (line, Seq::empty()),
    }
}

/// A branch ref without its `refs/heads/` prefix.
pub open spec fn branch_ref_name(value: Seq<char>) -> Seq<char> {
    match strip_prefix(value, "refs/heads/"@) {
        Some(b) => b,
        None => value,
    }
}

/// The entry after an attribute line `key value`.
pub open spec fn apply_attr(e: EntryView, key: Seq<char>, value: Seq<char>) -> EntryView {
    if key == "HEAD"@ {
        EntryView { head: Some(value), ..e }
    } else if key == "branch"@ {
        EntryView { branch: Some(branch_ref_name(value)), ..e }
    } else if key == "bare"@ {
        EntryView { bare: true, ..e }
    } else if key == "locked"@ {
        EntryView { locked: true, ..e }
    } else if key == "prunable"@ {
        EntryView { prunable: true, ..e }
    } else {
        e
    }
}

/// The entry being read, if any, as a finished list.
pub open spec fn flush(cur: Option<EntryView>) -> Seq<EntryView> {
    match cur {
        Some(e) => seq![e],
        None => Seq::empty(),
    }
}

/// The entries described by `ls`, where `cur` is the entry being read.
///
/// A `worktree <path>` line starts a new entry; an empty line ends the
/// current one; other lines set attributes of the current entry and are
/// ignored outside of one.
pub open spec fn parse_from(ls: Seq<Seq<char>>, cur: Option<EntryView>) -> Seq<EntryView>
    decreases ls.len(),
{
    if ls.len() == 0 {
        flush(cur)
    } else if ls[0].len() == 0 {
        flush(cur) + parse_from(ls.drop_first(), None)
    } else {
        let (key, value) = line_key_value(ls[0]);
        if key == "worktree"@ {
            flush(cur) + parse_from(ls.drop_first(), Some(new_entry(value)))
        } else {
            parse_from(
                ls.drop_first(),
                match cur {
                    Some(e) => Some(apply_attr(e, key, value)),
                    None => None,
                },
            )
        }
    }
}

/// The worktrees listed by `git worktree list --porcelain` output.
pub open spec fn parse_worktrees(s: Seq<char>) -> Seq<EntryView> {
    parse_from(lines(s), None)
}

/// The view of the entry being read, if any.
pub open spec fn opt_entry_view(c: Option<WorktreeEntry>) -> Option<EntryView> {
    match c {
        Some(e) => Some(e@),
        None => None,
    }
}

/// The views of a list of entries.
pub open spec fn entry_views(v: Seq<WorktreeEntry>) -> Seq<EntryView> {
    v.map_values(|e: WorktreeEntry| e@)
}

// ---------------------------------------------------------------------------
// Data types
// ---------------------------------------------------------------------------

/// A snapshot of local and remote branch names.
#[derive(Debug, Clone, Default)]
pub struct BranchSet {
    /// Local branches (without the `refs/heads/` prefix).
    pub local: Vec<String>,
    /// Remote-tracking branches from `origin` (without the `origin/` prefix).
    pub remote: Vec<String>,
}

/// A single entry from `git worktree list --porcelain`.
#[derive(Debug, Clone)]
pub struct WorktreeEntry {
    /// The filesystem path of the worktree.
    pub path: String,
    /// The HEAD commit hash.
    pub head: Option<String>,
    /// The branch name (without `refs/heads/`).
    pub branch: Option<String>,
    /// Whether this worktree is bare.
    pub bare: bool,
    /// Whether this worktree is locked.
    pub locked: bool,
    /// Whether git considers this worktree stale (prunable).
    pub prunable: bool,
}

impl View for WorktreeEntry {
    type V = EntryView;

    open spec fn view(&self) -> EntryView {
        EntryView {
            path: self.path@,
            head: opt_view(self.head),
            branch: opt_view(self.branch),
            bare: self.bare,
            locked: self.locked,
            prunable: self.prunable,
        }
    }
}

fn copy_opt(o: &Option<String>) -> (r: Option<String>)
    ensures
        opt_view(r) == opt_view(*o),
{
    match o {
        Some(s) => Some(copy_str(s.as_str())),
        None => None,
    }
}

impl WorktreeEntry {
    /// A copy of this entry.
    pub fn duplicate(&self) -> (r: WorktreeEntry)
        ensures
            r@ == self@,
    {
        WorktreeEntry {
            path: copy_str(self.path.as_str()),
            head: copy_opt(&self.head),
            branch: copy_opt(&self.branch),
            bare: self.bare,
            locked: self.locked,
            prunable: self.prunable,
        }
    }

    /// The entry after the attribute line `key value`.
    fn with_attr(self, key: &str, value: &str) -> (r: WorktreeEntry)
        ensures
            r@ == apply_attr(self@, key@, value@),
    {
        let mut e = self;
        if same_text(key, "HEAD") {
            e.head = Some(copy_str(value));
        } else if same_text(key, "branch") {
            let b = match strip_prefix_str(value, "refs/heads/") {
                Some(b) => b,
                None => copy_str(value),
            };
            e.branch = Some(b);
        } else if same_text(key, "bare") {
            e.bare = true;
        } else if same_text(key, "locked") {
            e.locked = true;
        } else if same_text(key, "prunable") {
            e.prunable = true;
        }
        e
    }

    /// Parses `git worktree list --porcelain` output.
    pub fn parse(output: &str) -> (r: Vec<WorktreeEntry>)
        ensures
            entry_views(r@) == parse_worktrees(output@),
    {
        let ls = lines_of(output);
        let mut entries: Vec<WorktreeEntry> = Vec::new();
        let mut current: Option<WorktreeEntry> = None;
        let mut i: usize = 0;
        assert(views(ls@).skip(0) == views(ls@));
        assert(entry_views(entries@) =~= Seq::<EntryView>::empty());
        while i < ls.len()
            invariant
                i <= ls@.len(),
                views(ls@) == lines(output@),
                entry_views(entries@) + parse_from(views(ls@).skip(i as int), opt_entry_view(current))
                    == parse_worktrees(output@),
            decreases ls.len() - i,
        {
            let line = ls[i].as_str();
            let ghost rest = views(ls@).skip(i as int);
            proof {
                assert(rest[0] == line@);
                assert(rest.drop_first() == views(ls@).skip(i + 1));
            }
            if line.unicode_len() == 0 {
                match current {
                    Some(e) => {
                        proof {
                            assert(entry_views(entries@.push(e)) == entry_views(entries@).push(
                                e@,
                            ));
                        }
                        entries.push(e);
                    },
                    None => {},
                }
                current = None;
            } else {
                let (key, value) = match split_once_str(line, ' ') {
                    Some(kv) => kv,
                    None => (copy_str(line), String::new()),
                };
                proof {
                    assert(line_key_value(line@) == (key@, value@));
                }
                if same_text(key.as_str(), "worktree") {
                    match current {
                        Some(e) => {
                            proof {
                                assert(entry_views(entries@.push(e)) == entry_views(
                                    entries@,
                                ).push(e@));
                            }
                            entries.push(e);
                        },
                        None => {},
                    }
                    current = Some(
                        WorktreeEntry {
                            path: value,
                            head: None,
                            branch: None,
                            bare: false,
                            locked: false,
                            prunable: false,
                        },
                    );
                } else {
                    current = match current {
                        Some(e) => Some(e.with_attr(key.as_str(), value.as_str())),
                        None => None,
                    };
                }
            }
            i = i + 1;
        }
        proof {
            assert(views(ls@).skip(i as int) =~= Seq::<Seq<char>>::empty());
        }
        match current {
            Some(e) => {
                proof {
                    assert(entry_views(entries@.push(e)) == entry_views(entries@).push(e@));
                }
                entries.push(e);
            },
            None => {},
        }
        entries
    }
}

// ---------------------------------------------------------------------------
// Executable parsing helpers
// ---------------------------------------------------------------------------

proof fn lemma_words_step(s: Seq<char>, i: int, cur: Seq<char>)
    requires
        0 <= i < s.len(),
    ensures
        words_acc(s.skip(i), cur) == (if is_ws(s[i]) {
            (if cur.len() == 0 {
                Seq::empty()
            } else {
                seq![cur]
            }) + words_acc(s.skip(i + 1), Seq::empty())
        } else {
            words_acc(s.skip(i + 1), cur.push(s[i]))
        }),
{
    assert(s.skip(i).drop_first() == s.skip(i + 1));
}

/// `s.split_whitespace()`, each word as an owned string.
fn words_of(s: &str) -> (r: Vec<String>)
    ensures
        views(r@) == words(s@),
{
    let v = chars_of(s);
    let n = v.len();
    let mut out: Vec<String> = Vec::new();
    let mut start: usize = 0;
    let mut i: usize = 0;
    assert(v@.skip(0) == v@);
    assert(views(out@) =~= Seq::<Seq<char>>::empty());
    assert(v@.subrange(0, 0) =~= Seq::<char>::empty());
    while i < n
        invariant
            start <= i <= n == v@.len(),
            v@ == s@,
            views(out@) + words_acc(v@.skip(i as int), v@.subrange(start as int, i as int))
                == words(s@),
        decreases n - i,
    {
        proof {
            lemma_words_step(v@, i as int, v@.subrange(start as int, i as int));
        }
        if is_whitespace(v[i]) {
            if start < i {
                let w = crate::text::string_of(&v, start, i);
                proof {
                    assert(views(out@.push(w)) == views(out@).push(w@));
                }
                out.push(w);
            } else {
                assert(views(out@) + Seq::<Seq<char>>::empty() == views(out@));
            }
            assert(v@.subrange((i + 1) as int, (i + 1) as int) =~= Seq::<char>::empty());
            i = i + 1;
            start = i;
        } else {
            assert(v@.subrange(start as int, i as int).push(v@[i as int]) == v@.subrange(
                start as int,
                i + 1,
            ));
            i = i + 1;
        }
    }
    assert(v@.skip(n as int) =~= Seq::<char>::empty());
    if start < n {
        let w = crate::text::string_of(&v, start, n);
        proof {
            assert(views(out@.push(w)) == views(out@).push(w@));
        }
        out.push(w);
    }
    out
}

proof fn lemma_digits_prefix_le(d: Seq<char>, k: int)
    requires
        0 <= k <= d.len(),
        forall|i: int| 0 <= i < d.len() ==> is_digit(d[i]),
    ensures
        digits_value(d.take(k)) <= digits_value(d),
        digits_value(d) >= 0,
    decreases d.len(),
{
    if d.len() > 0 {
        let p = d.drop_last();
        if k < d.len() {
            assert(p.take(k) == d.take(k));
            lemma_digits_prefix_le(p, k);
        } else {
            assert(d.take(k) == d);
            lemma_digits_prefix_le(p, 0);
        }
    }
}

/// `s.parse::<usize>().unwrap_or(0)`.
fn parse_usize_or_zero(s: &str) -> (n: usize)
    ensures
        n == parse_or_zero(s@),
{
    let v = chars_of(s);
    let mut k: usize = 0;
    if v.len() > 0 && v[0] == '+' {
        k = 1;
    }
    let ghost d = if s@.len() > 0 && s@[0] == '+' {
        s@.drop_first()
    } else {
        s@
    };
    assert(d == v@.skip(k as int));
    if k == v.len() {
        return 0;
    }
    let mut acc: usize = 0;
    let mut i: usize = k;
    assert(d.take(0) =~= Seq::<char>::empty());
    while i < v.len()
        invariant
            k <= i <= v@.len(),
            v@ == s@,
            d == v@.skip(k as int),
            d == (if s@.len() > 0 && s@[0] == '+' {
                s@.drop_first()
            } else {
                s@
            }),
            d.len() > 0,
            forall|j: int| 0 <= j < i - k ==> is_digit(d[j]),
            acc == digits_value(d.take(i - k)),
        decreases v.len() - i,
    {
        let c = v[i];
        if !('0' <= c && c <= '9') {
            assert(!is_digit(d[i - k]));
            return 0;
        }
        let dv: usize = (c as u32 - '0' as u32) as usize;
        assert(d.take(i - k + 1).drop_last() == d.take(i - k));
        assert(d.take(i - k + 1).last() == c);
        match acc.checked_mul(10) {
            None => {
                proof {
                    assert(digits_value(d.take(i - k + 1)) > usize::MAX);
                    if all_digits(d) {
                        lemma_digits_prefix_le(d, i - k + 1);
                    }
                }
                return 0;
            },
            Some(m) => match m.checked_add(dv) {
                None => {
                    proof {
                        assert(digits_value(d.take(i - k + 1)) > usize::MAX);
                        if all_digits(d) {
                            lemma_digits_prefix_le(d, i - k + 1);
                        }
                    }
                    return 0;
                },
                Some(a) => {
                    acc = a;
                },
            },
        }
        i = i + 1;
    }
    assert(d.take(d.len() as int) == d);
    acc
}

/// The lines of `text` with a count and no more.
fn line_count(text: &str) -> (n: usize)
    ensures
        n == lines(text@).len(),
{
    let ls = lines_of(text);
    ls.len()
}

// ---------------------------------------------------------------------------
// Git
// ---------------------------------------------------------------------------

fn push_arg(v: &mut Vec<String>, a: &str)
    ensures
        views(final(v)@) == views(old(v)@).push(a@),
{
    let s = copy_str(a);
    v.push(s);
    assert(views(v@) =~= views(old(v)@).push(a@));
}

impl Git {
    /// Creates a [`Git`] that runs commands in `cwd`.
    pub fn new(cwd: &str) -> (g: Git)
        ensures
            g@ == cwd@,
    {
        Git { cwd: copy_str(cwd) }
    }

    /// Creates a [`Git`] that runs commands in the current directory.
    pub fn cwd() -> (g: Git)
        ensures
            g@ == "."@,
    {
        Git::new(".")
    }

    /// The directory commands run in.
    pub fn dir(&self) -> (d: &str)
        ensures
            d@ == self@,
    {
        self.cwd.as_str()
    }

    /// The arguments of `op`, after `git`.
    pub fn args(op: &GitOp) -> (a: Vec<String>)
        ensures
            views(a@) == op_args(*op),
    {
        let mut a: Vec<String> = Vec::new();
        match op {
            GitOp::Version => {
                push_arg(&mut a, "--version");
            },
            GitOp::CommonDir => {
                push_arg(&mut a, "rev-parse");
                push_arg(&mut a, "--git-common-dir");
            },
            GitOp::StatusPorcelain => {
                push_arg(&mut a, "status");
                push_arg(&mut a, "--porcelain");
            },
            GitOp::LocalBranches => {
                push_arg(&mut a, "branch");
                push_arg(&mut a, "--list");
                push_arg(&mut a, "--format=%(refname:short)");
            },
            GitOp::RemoteBranches => {
                push_arg(&mut a, "branch");
                push_arg(&mut a, "--remote");
                push_arg(&mut a, "--list");
                push_arg(&mut a, "--format=%(refname:short)");
            },
            GitOp::AheadBehind { branch } => {
                push_arg(&mut a, "rev-list");
                push_arg(&mut a, "--left-right");
                push_arg(&mut a, "--count");
                let mut r = String::new();
                push_str(&mut r, "origin/");
                push_str(&mut r, branch.as_str());
                push_str(&mut r, "...");
                push_str(&mut r, branch.as_str());
                push_arg(&mut a, r.as_str());
            },
            GitOp::WorktreeAdd { path, branch, new, base } => {
                push_arg(&mut a, "worktree");
                push_arg(&mut a, "add");
                if *new {
                    push_arg(&mut a, "-b");
                    push_arg(&mut a, branch.as_str());
                }
                push_arg(&mut a, path.as_str());
                if *new {
                    match base {
                        Some(b) => {
                            push_arg(&mut a, b.as_str());
                        },
                        None => {},
                    }
                } else {
                    push_arg(&mut a, branch.as_str());
                }
            },
            GitOp::WorktreeRemove { path, force } => {
                push_arg(&mut a, "worktree");
                push_arg(&mut a, "remove");
                if *force {
                    push_arg(&mut a, "--force");
                }
                push_arg(&mut a, path.as_str());
            },
            GitOp::ConfigUnset { key } => {
                push_arg(&mut a, "config");
                push_arg(&mut a, "--unset");
                push_arg(&mut a, key.as_str());
            },
            GitOp::WorktreeMove { from, to } => {
                push_arg(&mut a, "worktree");
                push_arg(&mut a, "move");
                push_arg(&mut a, from.as_str());
                push_arg(&mut a, to.as_str());
            },
            GitOp::WorktreeRepair => {
                push_arg(&mut a, "worktree");
                push_arg(&mut a, "repair");
            },
            GitOp::WorktreePrune => {
                push_arg(&mut a, "worktree");
                push_arg(&mut a, "prune");
            },
            GitOp::WorktreeList => {
                push_arg(&mut a, "worktree");
                push_arg(&mut a, "list");
                push_arg(&mut a, "--porcelain");
            },
            GitOp::Fetch => {
                push_arg(&mut a, "fetch");
                push_arg(&mut a, "origin");
            },
            GitOp::FetchPrune => {
                push_arg(&mut a, "fetch");
                push_arg(&mut a, "--prune");
                push_arg(&mut a, "origin");
            },
            GitOp::MergeFfOnly { refspec, autostash } => {
                push_arg(&mut a, "merge");
                push_arg(&mut a, "--ff-only");
                if *autostash {
                    push_arg(&mut a, "--autostash");
                }
                push_arg(&mut a, refspec.as_str());
            },
            GitOp::ConfigSet { key, value } => {
                push_arg(&mut a, "config");
                push_arg(&mut a, key.as_str());
                push_arg(&mut a, value.as_str());
            },
            GitOp::ConfigGet { key } => {
                push_arg(&mut a, "config");
                push_arg(&mut a, "--get");
                push_arg(&mut a, key.as_str());
            },
            GitOp::Fsck => {
                push_arg(&mut a, "fsck");
                push_arg(&mut a, "--full");
            },
            GitOp::StashList => {
                push_arg(&mut a, "stash");
                push_arg(&mut a, "list");
            },
            GitOp::RevParseHead => {
                push_arg(&mut a, "rev-parse");
                push_arg(&mut a, "HEAD");
            },
            GitOp::BranchDelete { name, force } => {
                push_arg(&mut a, "branch");
                if *force {
                    push_arg(&mut a, "-D");
                } else {
                    push_arg(&mut a, "-d");
                }
                push_arg(&mut a, name.as_str());
            },
            GitOp::CloneBare { url, path } => {
                push_arg(&mut a, "clone");
                push_arg(&mut a, "--bare");
                push_arg(&mut a, url.as_str());
                push_arg(&mut a, path.as_str());
            },
        }
        a
    }

    /// The command that performs `op` in this handle's directory.
    pub fn request(&self, op: &GitOp) -> (c: GitCommand)
        ensures
            c.cwd@ == self@,
            views(c.args@) == op_args(*op),
            c.env@.len() == 0,
    {
        GitCommand { cwd: copy_str(self.cwd.as_str()), args: Self::args(op), env: Vec::new() }
    }

    /// How a failure of `op` is named in its error.
    pub fn summary(op: &GitOp) -> (s: String)
        ensures
            s@ == op_summary(*op),
    {
        let mut s = String::new();
        match op {
            GitOp::CloneBare { url, .. } => {
                push_str(&mut s, "git clone --bare ");
                push_str(&mut s, url.as_str());
            },
            _ => {
                let a = Self::args(op);
                push_str(&mut s, "git ");
                let mut i: usize = 0;
                assert(views(a@).take(0) =~= Seq::<Seq<char>>::empty());
                while i < a.len()
                    invariant
                        i <= a@.len(),
                        views(a@) == op_args(*op),
                        s@ == "git "@ + join_spaces(views(a@).take(i as int)),
                    decreases a.len() - i,
                {
                    if i > 0 {
                        push_str(&mut s, " ");
                    }
                    push_str(&mut s, a[i].as_str());
                    proof {
                        let t = views(a@).take(i + 1);
                        assert(t.drop_last() == views(a@).take(i as int));
                        if i == 0 {
                            assert(t.len() == 1);
                        }
                    }
                    i = i + 1;
                }
                assert(views(a@).take(a@.len() as int) == views(a@));
            },
        }
        s
    }

    /// Turns raw command output into trimmed stdout, or the error the
    /// failure stands for ([`GitreeError::GitFailed`] carrying git's
    /// trimmed stderr).
    pub fn checked(output: GitOutcome, summary: String) -> (r: Result<String>)
        ensures
            outcome_is(r, checked_output(output, summary@), |t: Seq<char>, v: String| v@ == t),
    {
        match output {
            GitOutcome::NotFound => Err(GitreeError::GitNotFound),
            GitOutcome::SpawnFailed(m) => Err(GitreeError::Io(m)),
            GitOutcome::Exited { code, stdout, stderr } => {
                let ok = match code {
                    Some(c) => c == 0,
                    None => false,
                };
                if ok {
                    Ok(trim_str(stdout.as_str()))
                } else {
                    Err(GitreeError::GitFailed { summary, stderr: trim_str(stderr.as_str()) })
                }
            },
        }
    }

    /// Checks the outcome of `op`, discarding its output.
    pub fn finish(op: &GitOp, output: GitOutcome) -> (r: Result<()>)
        ensures
            outcome_is(r, checked_output(output, op_summary(*op)), |t: Seq<char>, v: ()| true),
    {
        match Self::checked(output, Self::summary(op)) {
            Ok(_) => Ok(()),
            Err(e) => Err(e),
        }
    }

    /// Checks the outcome of `op` and returns its trimmed output.
    pub fn run(op: &GitOp, output: GitOutcome) -> (r: Result<String>)
        ensures
            outcome_is(r, checked_output(output, op_summary(*op)), |t: Seq<char>, v: String| v@ == t),
    {
        Self::checked(output, Self::summary(op))
    }

    // -----------------------------------------------------------------------
    // Repository introspection
    // -----------------------------------------------------------------------

    /// The installed git version string (e.g. `git version 2.43.0`), from
    /// the outcome of [`GitOp::Version`].
    pub fn version(&self, output: GitOutcome) -> (r: Result<String>)
        ensures
            outcome_is(r, checked_output(output, op_summary(GitOp::Version)), |t: Seq<char>, v: String| v@ == t),
    {
        Self::run(&GitOp::Version, output)
    }

    /// The path of the common git directory, from the outcome of
    /// [`GitOp::CommonDir`].
    pub fn common_dir(&self, output: GitOutcome) -> (r: Result<String>)
        ensures
            outcome_is(r, checked_output(output, op_summary(GitOp::CommonDir)), |t: Seq<char>, v: String| v@ == t),
    {
        Self::run(&GitOp::CommonDir, output)
    }

    /// Whether the working tree has uncommitted changes, from the outcome
    /// of [`GitOp::StatusPorcelain`].
    pub fn is_dirty(&self, output: GitOutcome) -> (r: Result<bool>)
        ensures
            outcome_is(r, checked_output(output, op_summary(GitOp::StatusPorcelain)), |t: Seq<char>, v: bool| v == (lines(t).len() > 0)),
    {
        match self.dirty_count(output) {
            Ok(n) => Ok(n > 0),
            Err(e) => Err(e),
        }
    }

    /// The number of uncommitted changes (one per line), from the outcome
    /// of [`GitOp::StatusPorcelain`].
    pub fn dirty_count(&self, output: GitOutcome) -> (r: Result<usize>)
        ensures
            outcome_is(r, checked_output(output, op_summary(GitOp::StatusPorcelain)), |t: Seq<char>, v: usize| v == lines(t).len()),
    {
        match Self::run(&GitOp::StatusPorcelain, output) {
            Ok(out) => Ok(line_count(out.as_str())),
            Err(e) => Err(e),
        }
    }

    // -----------------------------------------------------------------------
    // Branch operations
    // -----------------------------------------------------------------------

    /// All local branch names, from the outcome of [`GitOp::LocalBranches`].
    pub fn local_branches(&self, output: GitOutcome) -> (r: Result<Vec<String>>)
        ensures
            outcome_is(r, checked_output(output, op_summary(GitOp::LocalBranches)), |t: Seq<char>, v: Vec<String>| views(v@) == lines(t)),
    {
        match Self::run(&GitOp::LocalBranches, output) {
            Ok(out) => Ok(lines_of(out.as_str())),
            Err(e) => Err(e),
        }
    }

    /// All remote branch names without `origin/`, excluding `HEAD` and the
    /// `origin/HEAD` symref, from the outcome of [`GitOp::RemoteBranches`].
    pub fn remote_branches(&self, output: GitOutcome) -> (r: Result<Vec<String>>)
        ensures
            outcome_is(r, checked_output(output, op_summary(GitOp::RemoteBranches)), |t: Seq<char>, v: Vec<String>| views(v@) == remote_names(lines(t))),
    {
        match Self::run(&GitOp::RemoteBranches, output) {
            Ok(out) => {
                let ls = lines_of(out.as_str());
                let mut res: Vec<String> = Vec::new();
                let mut i: usize = 0;
                assert(views(ls@).take(0) =~= Seq::<Seq<char>>::empty());
                assert(views(res@) =~= Seq::<Seq<char>>::empty());
                while i < ls.len()
                    invariant
                        i <= ls@.len(),
                        views(ls@) == lines(out@),
                        views(res@) == remote_names(views(ls@).take(i as int)),
                    decreases ls.len() - i,
                {
                    let l = ls[i].as_str();
                    let ghost t = views(ls@).take(i + 1);
                    assert(t.drop_last() == views(ls@).take(i as int));
                    assert(t.last() == l@);
                    if !same_text(l, "origin") {
                        let name = match strip_prefix_str(l, "origin/") {
                            Some(rest) => rest,
                            None => copy_str(l),
                        };
                        if !same_text(name.as_str(), "HEAD") {
                            proof {
                                assert(views(res@.push(name)) == views(res@).push(name@));
                            }
                            res.push(name);
                        }
                    }
                    i = i + 1;
                }
                assert(views(ls@).take(ls@.len() as int) == views(ls@));
                Ok(res)
            },
            Err(e) => Err(e),
        }
    }

    /// Local and remote branch names, from the outcomes of
    /// [`GitOp::LocalBranches`] and [`GitOp::RemoteBranches`]; the local
    /// outcome's error comes first.
    pub fn branches(&self, local: GitOutcome, remote: GitOutcome) -> (r: Result<BranchSet>)
        ensures
            match checked_output(local, op_summary(GitOp::LocalBranches)) {
                Err(e) => r matches Err(x) && x@ == e,
                Ok(lt) => match checked_output(remote, op_summary(GitOp::RemoteBranches)) {
                    Err(e) => r matches Err(x) && x@ == e,
                    Ok(rt) => r matches Ok(b) && views(b.local@) == lines(lt) && views(b.remote@)
                        == remote_names(lines(rt)),
                },
            },
    {
        let local = match self.local_branches(local) {
            Ok(l) => l,
            Err(e) => return Err(e),
        };
        let remote = match self.remote_branches(remote) {
            Ok(r) => r,
            Err(e) => return Err(e),
        };
        Ok(BranchSet { local, remote })
    }

    /// The local branches that have no branch of the same name on origin,
    /// from the outcomes of [`GitOp::LocalBranches`] and
    /// [`GitOp::RemoteBranches`].
    pub fn local_only_branches(&self, local: GitOutcome, remote: GitOutcome) -> (r: Result<
        Vec<String>,
    >)
        ensures
            match checked_output(local, op_summary(GitOp::LocalBranches)) {
                Err(e) => r matches Err(x) && x@ == e,
                Ok(lt) => match checked_output(remote, op_summary(GitOp::RemoteBranches)) {
                    Err(e) => r matches Err(x) && x@ == e,
                    Ok(rt) => r matches Ok(v) && views(v@) == not_in(
                        lines(lt),
                        remote_names(lines(rt)),
                    ),
                },
            },
    {
        let set = match self.branches(local, remote) {
            Ok(s) => s,
            Err(e) => return Err(e),
        };
        Ok(names_not_in(&set.local, &set.remote))
    }

    /// `(ahead, behind)` of `branch` relative to `origin/<branch>`, from the
    /// outcome of [`GitOp::AheadBehind`]; `(0, 0)` when the upstream is not
    /// configured (git fails with an unknown revision), when the output is
    /// not two counts, and 0 for a count that does not parse.  Any other
    /// failure is an error.
    pub fn ahead_behind(&self, branch: &str, output: GitOutcome) -> (r: Result<(usize, usize)>)
        ensures
            upstream_missing(output) ==> r == Ok::<(usize, usize), GitreeError>((0, 0)),
            !upstream_missing(output) ==> outcome_is(
                r,
                checked_output(
                    output,
                    "git "@ + join_spaces(
                        seq![
                            "rev-list"@,
                            "--left-right"@,
                            "--count"@,
                            "origin/"@ + branch@ + "..."@ + branch@,
                        ],
                    ),
                ),
                |t: Seq<char>, v: (usize, usize)| (v.0 as int, v.1 as int) == ahead_behind_of(t),
            ),
    {
        let missing = match &output {
            GitOutcome::Exited { code, stderr, .. } => {
                let failed = match code {
                    Some(c) => *c != 0,
                    None => true,
                };
                failed && has_substring(stderr.as_str(), "unknown revision")
            },
            _ => false,
        };
        if missing {
            return Ok((0, 0));
        }
        let op = GitOp::AheadBehind { branch: copy_str(branch) };
        let summary = Self::summary(&op);
        match Self::checked(output, summary) {
            Ok(out) => {
                let parts = words_of(out.as_str());
                if parts.len() == 2 {
                    let ahead = parse_usize_or_zero(parts[1].as_str());
                    let behind = parse_usize_or_zero(parts[0].as_str());
                    assert(views(parts@)[1] == parts@[1]@);
                    assert(views(parts@)[0] == parts@[0]@);
                    Ok((ahead, behind))
                } else {
                    Ok((0, 0))
                }
            },
            Err(e) => Err(e),
        }
    }

    // -----------------------------------------------------------------------
    // Worktree operations
    // -----------------------------------------------------------------------

    /// Checks the outcome of `git worktree add` ([`GitOp::WorktreeAdd`]).
    pub fn worktree_add(
        &self,
        path: &str,
        branch: &str,
        new: bool,
        base: Option<&str>,
        output: GitOutcome,
    ) -> (r: Result<()>)
        ensures
            outcome_is(
                r,
                checked_output(
                    output,
                    "git "@ + join_spaces(
                        worktree_add_args(
                            path@,
                            branch@,
                            new,
                            match base {
                                Some(b) => Some(b@),
                                None => None,
                            },
                        ),
                    ),
                ),
                |t: Seq<char>, v: ()| true,
            ),
    {
        let b = match base {
            Some(b) => Some(copy_str(b)),
            None => None,
        };
        let op = GitOp::WorktreeAdd { path: copy_str(path), branch: copy_str(branch), new, base: b };
        Self::finish(&op, output)
    }

    /// Checks the outcome of `git worktree remove` ([`GitOp::WorktreeRemove`]).
    pub fn worktree_remove(&self, path: &str, force: bool, output: GitOutcome) -> (r: Result<()>)
        ensures
            outcome_is(
                r,
                checked_output(
                    output,
                    "git "@ + join_spaces(
                        seq!["worktree"@, "remove"@] + (if force {
                            seq!["--force"@]
                        } else {
                            Seq::empty()
                        }) + arg(path@),
                    ),
                ),
                |t: Seq<char>, v: ()| true,
            ),
    {
        let op = GitOp::WorktreeRemove { path: copy_str(path), force };
        Self::finish(&op, output)
    }

    /// Decides what unsetting a config key takes, from the outcome of
    /// [`GitOp::ConfigGet`] for it: the `git config --unset` command when
    /// the key is set, nothing when it is unset, or the error of the lookup.
    pub fn config_unset(&self, key: &str, get_output: GitOutcome) -> (r: Result<
        Option<GitCommand>,
    >)
        ensures
            match config_get_result(get_output, "git "@ + join_spaces(seq!["config"@, "--get"@, key@])) {
                Err(e) => r matches Err(x) && x@ == e,
                Ok(None) => r matches Ok(None),
                Ok(Some(_)) => r matches Ok(Some(c)) && c.cwd@ == self@ && views(c.args@) == seq![
                    "config"@,
                    "--unset"@,
                    key@,
                ] && c.env@.len() == 0,
            },
    {
        match self.config_get(key, get_output) {
            Err(e) => Err(e),
            Ok(None) => Ok(None),
            Ok(Some(_)) => Ok(Some(self.request(&GitOp::ConfigUnset { key: copy_str(key) }))),
        }
    }

    /// Checks the outcome of `git worktree move` ([`GitOp::WorktreeMove`]).
    pub fn worktree_move(&self, from: &str, to: &str, output: GitOutcome) -> (r: Result<()>)
        ensures
            outcome_is(
                r,
                checked_output(output, "git "@ + join_spaces(seq!["worktree"@, "move"@, from@, to@])),
                |t: Seq<char>, v: ()| true,
            ),
    {
        let op = GitOp::WorktreeMove { from: copy_str(from), to: copy_str(to) };
        Self::finish(&op, output)
    }

    /// Checks the outcome of `git worktree repair` ([`GitOp::WorktreeRepair`]).
    pub fn worktree_repair(&self, output: GitOutcome) -> (r: Result<()>)
        ensures
            outcome_is(r, checked_output(output, op_summary(GitOp::WorktreeRepair)), |t: Seq<char>, v: ()| true),
    {
        Self::finish(&GitOp::WorktreeRepair, output)
    }

    /// Checks the outcome of `git worktree prune` ([`GitOp::WorktreePrune`]).
    pub fn worktree_prune(&self, output: GitOutcome) -> (r: Result<()>)
        ensures
            outcome_is(r, checked_output(output, op_summary(GitOp::WorktreePrune)), |t: Seq<char>, v: ()| true),
    {
        Self::finish(&GitOp::WorktreePrune, output)
    }

    /// The parsed worktree list, from the outcome of [`GitOp::WorktreeList`].
    pub fn worktree_list(&self, output: GitOutcome) -> (r: Result<Vec<WorktreeEntry>>)
        ensures
            outcome_is(
                r,
                checked_output(output, op_summary(GitOp::WorktreeList)),
                |t: Seq<char>, v: Vec<WorktreeEntry>| entry_views(v@) == parse_worktrees(t),
            ),
    {
        match Self::run(&GitOp::WorktreeList, output) {
            Ok(out) => Ok(WorktreeEntry::parse(out.as_str())),
            Err(e) => Err(e),
        }
    }

    // -----------------------------------------------------------------------
    // Fetch / merge / config
    // -----------------------------------------------------------------------

    /// Checks the outcome of `git fetch origin` ([`GitOp::Fetch`]).
    pub fn fetch(&self, output: GitOutcome) -> (r: Result<()>)
        ensures
            outcome_is(r, checked_output(output, op_summary(GitOp::Fetch)), |t: Seq<char>, v: ()| true),
    {
        Self::finish(&GitOp::Fetch, output)
    }

    /// Checks the outcome of `git fetch --prune origin` ([`GitOp::FetchPrune`]).
    pub fn run_fetch_prune(&self, output: GitOutcome) -> (r: Result<()>)
        ensures
            outcome_is(r, checked_output(output, op_summary(GitOp::FetchPrune)), |t: Seq<char>, v: ()| true),
    {
        Self::finish(&GitOp::FetchPrune, output)
    }

    /// Checks the outcome of `git merge --ff-only [--autostash] <ref>`
    /// ([`GitOp::MergeFfOnly`]).
    pub fn merge_ff_only(&self, refspec: &str, autostash: bool, output: GitOutcome) -> (r: Result<
        (),
    >)
        ensures
            outcome_is(
                r,
                checked_output(
                    output,
                    "git "@ + join_spaces(
                        seq!["merge"@, "--ff-only"@] + (if autostash {
                            seq!["--autostash"@]
                        } else {
                            Seq::empty()
                        }) + arg(refspec@),
                    ),
                ),
                |t: Seq<char>, v: ()| true,
            ),
    {
        let op = GitOp::MergeFfOnly { refspec: copy_str(refspec), autostash };
        Self::finish(&op, output)
    }

    /// Checks the outcome of `git config <key> <value>` ([`GitOp::ConfigSet`]).
    pub fn config_set(&self, key: &str, value: &str, output: GitOutcome) -> (r: Result<()>)
        ensures
            outcome_is(
                r,
                checked_output(output, "git "@ + join_spaces(seq!["config"@, key@, value@])),
                |t: Seq<char>, v: ()| true,
            ),
    {
        let op = GitOp::ConfigSet { key: copy_str(key), value: copy_str(value) };
        Self::finish(&op, output)
    }

    /// A config value, or `None` if the key is unset, from the outcome of
    /// [`GitOp::ConfigGet`].
    ///
    /// Exit code 1 with empty stderr is git's "key not found"; any other
    /// failure is an error.
    pub fn config_get(&self, key: &str, output: GitOutcome) -> (r: Result<Option<String>>)
        ensures
            match config_get_result(output, "git "@ + join_spaces(seq!["config"@, "--get"@, key@])) {
                Err(e) => r matches Err(x) && x@ == e,
                Ok(v) => r matches Ok(o) && opt_view(o) == v,
            },
    {
        let op = GitOp::ConfigGet { key: copy_str(key) };
        let summary = Self::summary(&op);
        
        match output {
            GitOutcome::NotFound => Err(GitreeError::GitNotFound),
            GitOutcome::SpawnFailed(m) => Err(GitreeError::Io(m)),
            GitOutcome::Exited { code, stdout, stderr } => {
                let err = trim_str(stderr.as_str());
                match code {
                    Some(c) => {
                        if c == 0 {
                            return Ok(Some(trim_str(stdout.as_str())));
                        }
                        if c == 1 && err.unicode_len() == 0 {
                            return Ok(None);
                        }
                    },
                    None => {},
                }
                Err(GitreeError::GitFailed { summary, stderr: err })
            },
        }
    }

    /// Checks the outcome of `git fsck --full` ([`GitOp::Fsck`]).
    pub fn fsck(&self, output: GitOutcome) -> (r: Result<()>)
        ensures
            outcome_is(r, checked_output(output, op_summary(GitOp::Fsck)), |t: Seq<char>, v: ()| true),
    {
        Self::finish(&GitOp::Fsck, output)
    }

    /// The number of stashes, from the outcome of [`GitOp::StashList`].
    pub fn stash_count(&self, output: GitOutcome) -> (r: Result<usize>)
        ensures
            outcome_is(r, checked_output(output, op_summary(GitOp::StashList)), |t: Seq<char>, v: usize| v == lines(t).len()),
    {
        match Self::run(&GitOp::StashList, output) {
            Ok(out) => Ok(line_count(out.as_str())),
            Err(e) => Err(e),
        }
    }

    /// The trimmed `git status --porcelain` output, from the outcome of
    /// [`GitOp::StatusPorcelain`].
    pub fn run_status_porcelain(&self, output: GitOutcome) -> (r: Result<String>)
        ensures
            outcome_is(r, checked_output(output, op_summary(GitOp::StatusPorcelain)), |t: Seq<char>, v: String| v@ == t),
    {
        Self::run(&GitOp::StatusPorcelain, output)
    }

    /// The trimmed `git rev-parse HEAD` output, from the outcome of
    /// [`GitOp::RevParseHead`].
    pub fn run_rev_parse_head(&self, output: GitOutcome) -> (r: Result<String>)
        ensures
            outcome_is(r, checked_output(output, op_summary(GitOp::RevParseHead)), |t: Seq<char>, v: String| v@ == t),
    {
        Self::run(&GitOp::RevParseHead, output)
    }

    /// Checks the outcome of `git branch -d|-D <name>` ([`GitOp::BranchDelete`]).
    pub fn branch_delete(&self, name: &str, force: bool, output: GitOutcome) -> (r: Result<()>)
        ensures
            outcome_is(
                r,
                checked_output(
                    output,
                    "git "@ + join_spaces(
                        seq![
                            "branch"@,
                            if force {
                                "-D"@
                            } else {
                                "-d"@
                            },
                            name@,
                        ],
                    ),
                ),
                |t: Seq<char>, v: ()| true,
            ),
    {
        let op = GitOp::BranchDelete { name: copy_str(name), force };
        Self::finish(&op, output)
    }

    /// Checks the outcome of `git clone --bare <url> <path>` run in the
    /// current directory ([`GitOp::CloneBare`]); a failure is summarised as
    /// `git clone --bare <url>`.
    pub fn clone_bare(url: &str, path: &str, output: GitOutcome) -> (r: Result<()>)
        ensures
            outcome_is(
                r,
                checked_output(output, "git clone --bare "@ + url@),
                |t: Seq<char>, v: ()| true,
            ),
    {
        let op = GitOp::CloneBare { url: copy_str(url), path: copy_str(path) };
        Self::finish(&op, output)
    }
}

/// What `git config --get` outcome stands for: the trimmed value, `None`
/// for an unset key (exit 1, empty stderr), or an error.
pub open spec fn config_get_result(out: GitOutcome, summary: Seq<char>) -> core::result::Result<
    Option<Seq<char>>,
    ErrorView,
> {
    match out {
        GitOutcome::NotFound => Err(ErrorView::GitNotFound),
        GitOutcome::SpawnFailed(m) => Err(ErrorView::Io(m@)),
        GitOutcome::Exited { code, stdout, stderr } => if code == Some(0i32) {
            Ok(Some(trim(stdout@)))
        } else if code == Some(1i32) && trim(stderr@).len() == 0 {
            Ok(None)
        } else {
            Err(ErrorView::GitFailed { summary: summary, stderr: trim(stderr@) })
        },
    }
}

/// The outcome of `git rev-list` for a range whose upstream is not
/// configured: git fails, naming an unknown revision.
pub open spec fn upstream_missing(out: GitOutcome) -> bool {
    match out {
        GitOutcome::Exited { code, stderr, .. } => code != Some(0i32) && contains(
            stderr@,
            "unknown revision"@,
        ),
        _ => false,
    }
}

/// What `git config --get` reports for a key that is not set: exit code 1
/// and nothing but whitespace on stderr.
pub open spec fn reports_unset(out: GitOutcome) -> bool {
    match out {
        GitOutcome::Exited { code, stderr, .. } => code == Some(1i32) && trim(stderr@).len() == 0,
        _ => false,
    }
}

/// Unsetting a config key is a no-op when the key is not set: the lookup
/// [`Git::config_unset`] reads gives `None`, so no `git config --unset` is
/// planned, exactly when git reports the key unset; a value is found, and
/// one unset planned, exactly when the lookup succeeds; any other outcome is
/// the lookup's error.  So once an unset has succeeded and git reports the
/// key unset, unsetting it again does nothing.
pub proof fn lemma_config_unset_idempotent(out: GitOutcome, summary: Seq<char>)
    ensures
        (config_get_result(out, summary) == core::result::Result::<Option<Seq<char>>, ErrorView>::Ok(
            None,
        )) <==> reports_unset(out),
        (config_get_result(out, summary) matches Ok(Some(_))) <==> (out matches GitOutcome::Exited {
            code,
            ..
        } && code == Some(0i32)),
{
}

/// Whether `name` occurs in `names`.
pub fn contains_name(names: &Vec<String>, name: &str) -> (b: bool)
    ensures
        b == views(names@).contains(name@),
{
    let mut i: usize = 0;
    while i < names.len()
        invariant
            i <= names@.len(),
            forall|k: int| 0 <= k < i ==> names@[k]@ != name@,
        decreases names.len() - i,
    {
        if same_text(names[i].as_str(), name) {
            assert(views(names@)[i as int] == name@);
            return true;
        }
        i = i + 1;
    }
    assert(forall|k: int| 0 <= k < views(names@).len() ==> views(names@)[k] != name@);
    false
}

/// The names in `xs`, in order, that do not occur in `ys`.
pub fn names_not_in(xs: &Vec<String>, ys: &Vec<String>) -> (r: Vec<String>)
    ensures
        views(r@) == not_in(views(xs@), views(ys@)),
{
    let mut r: Vec<String> = Vec::new();
    let mut i: usize = 0;
    assert(views(xs@).take(0) =~= Seq::<Seq<char>>::empty());
    assert(views(r@) =~= Seq::<Seq<char>>::empty());
    while i < xs.len()
        invariant
            i <= xs@.len(),
            views(r@) == not_in(views(xs@).take(i as int), views(ys@)),
        decreases xs.len() - i,
    {
        let x = xs[i].as_str();
        let ghost t = views(xs@).take(i + 1);
        assert(t.drop_last() == views(xs@).take(i as int));
        assert(t.last() == x@);
        if !contains_name(ys, x) {
            let c = copy_str(x);
            proof {
                assert(views(r@.push(c)) == views(r@).push(c@));
            }
            r.push(c);
        }
        i = i + 1;
    }
    assert(views(xs@).take(xs@.len() as int) == views(xs@));
    r
}

} // verus!
