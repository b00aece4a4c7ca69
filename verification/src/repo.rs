//! The wrapper root and its layout.
//!
//! The "wrapper root" is the top-level directory in a gitree-managed layout.
//! It contains:
//!
//! - `.bare/` — the shared git database
//! - `.git` — a *file* (not directory) with `gitdir: ./.bare`
//! - `.shared/` — gitignored files symlinked into each worktree
//! - one subdirectory per worktree (e.g. `main/`, `feature/foo/`)

use vstd::prelude::*;

use crate::error::{ErrorView, GitreeError, Result};
use crate::git::Git;
use crate::paths::{
    is_absolute, join, path_ends_with, path_ends_with_result, path_file_name,
    path_file_name_result, path_join, path_parent, path_parent_result,
};
use crate::text::{
    chars_of, copy_str, opt_view, same_text, string_of, strip_prefix, strip_prefix_str, trim,
    trim_str,
};
use crate::types::{branch_name_error, is_valid_branch_name, BareDir, BranchName, SharedDir, WorktreePath};

verus! {

/// What was found at one candidate directory: the directory and, when its
/// `.git` is a readable file, that file's content.
#[derive(Debug, Clone)]
pub struct Probe {
    /// The candidate directory.
    pub dir: String,
    /// The content of `<dir>/.git` if it is a readable file.
    pub git_file: Option<String>,
}

/// The mathematical value of a [`Probe`].
pub struct ProbeView {
    pub dir: Seq<char>,
    pub git_file: Option<Seq<char>>,
}

impl View for Probe {
    type V = ProbeView;

    open spec fn view(&self) -> ProbeView {
        ProbeView { dir: self.dir@, git_file: opt_view(self.git_file) }
    }
}

/// The views of a sequence of probes.
pub open spec fn probe_views(ps: Seq<Probe>) -> Seq<ProbeView> {
    ps.map_values(|p: Probe| p@)
}

/// Where the `.git` file content `content` in `dir` points: the trimmed
/// text after `gitdir:`, joined onto `dir`.
pub open spec fn gitdir_target(dir: Seq<char>, content: Seq<char>) -> Option<Seq<char>> {
    match strip_prefix(trim(content), "gitdir:"@) {
        Some(rest) => Some(path_join(dir, trim(rest))),
        None => None,
    }
}

/// `dir` holds a `.git` file whose `gitdir:` points at a `.bare` directory.
pub open spec fn points_at_bare(dir: Seq<char>, git_file: Option<Seq<char>>) -> bool {
    match git_file {
        Some(content) => match gitdir_target(dir, content) {
            Some(target) => path_ends_with_result(target, ".bare"@),
            None => false,
        },
        None => false,
    }
}

/// The first probed directory that is a wrapper root.
pub open spec fn first_wrapper(ps: Seq<ProbeView>) -> Option<Seq<char>>
    decreases ps.len(),
{
    if ps.len() == 0 {
        None
    } else if points_at_bare(ps[0].dir, ps[0].git_file) {
        Some(ps[0].dir)
    } else {
        first_wrapper(ps.drop_first())
    }
}

/// The wrapper owning a git common directory that is `.bare` or inside it.
pub open spec fn bare_owner(resolved: Seq<char>) -> Option<Seq<char>> {
    if path_file_name_result(resolved) == Some(".bare"@) {
        path_parent_result(resolved)
    } else {
        match path_parent_result(resolved) {
            Some(p) => if path_file_name_result(p) == Some(".bare"@) {
                path_parent_result(p)
            } else {
                None
            },
            None => None,
        }
    }
}

/// `s` without trailing `/` characters (`str::trim_end_matches('/')`).
pub open spec fn trim_trailing_slashes(s: Seq<char>) -> Seq<char>
    decreases s.len(),
{
    if s.len() > 0 && s.last() == '/' {
        trim_trailing_slashes(s.drop_last())
    } else {
        s
    }
}

/// The branch argument resolves without a filesystem lookup: its trimmed
/// form is not absolute and is a valid branch name.
pub open spec fn resolves_directly(raw: Seq<char>) -> bool {
    let t = trim_trailing_slashes(raw);
    !is_absolute(t) && is_valid_branch_name(t)
}

/// The directory of the wrapper found by [`Wrapper::from_cwd`].
pub open spec fn discovered(
    probes: Seq<ProbeView>,
    common: Option<(Seq<char>, Seq<ProbeView>)>,
) -> Option<Seq<char>> {
    match first_wrapper(probes) {
        Some(d) => Some(d),
        None => match common {
            Some((resolved, cps)) => match first_wrapper(cps) {
                Some(d) => Some(d),
                None => bare_owner(resolved),
            },
            None => None,
        },
    }
}

/// The git common directory, resolved to an absolute canonical path, and
/// the probes of its ancestors.
#[derive(Debug, Clone)]
pub struct CommonDirProbe {
    /// The resolved common directory.
    pub resolved: String,
    /// Probes of `resolved` and each of its ancestors, nearest first.
    pub probes: Vec<Probe>,
}

/// The wrapper root directory.
#[derive(Debug, Clone)]
pub struct Wrapper {
    path: String,
}

impl View for Wrapper {
    type V = Seq<char>;

    closed spec fn view(&self) -> Seq<char> {
        self.path@
    }
}

impl Wrapper {
    /// The wrapper rooted at `path`.
    pub fn from_path(path: &str) -> (w: Wrapper)
        ensures
            w@ == path@,
    {
        Wrapper { path: copy_str(path) }
    }

    /// Returns `true` if `dir`'s `.git` file (content `git_file`, `None`
    /// when it is not a readable file) points at `.bare`.
    pub fn is_wrapper_dir(dir: &str, git_file: Option<&str>) -> (b: bool)
        ensures
            b == points_at_bare(
                dir@,
                match git_file {
                    Some(c) => Some(c@),
                    None => None,
                },
            ),
    {
        match git_file {
            None => false,
            Some(content) => {
                let t = trim_str(content);
                match strip_prefix_str(t.as_str(), "gitdir:") {
                    Some(rest) => {
                        let path = trim_str(rest.as_str());
                        let target = join(dir, path.as_str());
                        path_ends_with(target.as_str(), ".bare")
                    },
                    None => false,
                }
            },
        }
    }

    /// The first probed directory that is a wrapper root.
    pub fn find_wrapper(probes: &[Probe]) -> (w: Option<Wrapper>)
        ensures
            match w {
                Some(w) => first_wrapper(probe_views(probes@)) == Some(w@),
                None => first_wrapper(probe_views(probes@)) is None,
            },
    {
        let mut i: usize = 0;
        assert(probe_views(probes@).skip(0) == probe_views(probes@));
        while i < probes.len()
            invariant
                i <= probes@.len(),
                first_wrapper(probe_views(probes@).skip(i as int)) == first_wrapper(
                    probe_views(probes@),
                ),
            decreases probes.len() - i,
        {
            let p = &probes[i];
            let ghost rest = probe_views(probes@).skip(i as int);
            assert(rest[0] == p@);
            assert(rest.drop_first() == probe_views(probes@).skip(i + 1));
            let content = match &p.git_file {
                Some(c) => Some(c.as_str()),
                None => None,
            };
            if Self::is_wrapper_dir(p.dir.as_str(), content) {
                return Some(Wrapper::from_path(p.dir.as_str()));
            }
            i = i + 1;
        }
        assert(probe_views(probes@).skip(i as int) =~= Seq::<ProbeView>::empty());
        None
    }

    /// The wrapper owning a resolved git common directory that is `.bare`
    /// or directly inside it.
    pub fn owner_of_bare(resolved: &str) -> (w: Option<Wrapper>)
        ensures
            match w {
                Some(w) => bare_owner(resolved@) == Some(w@),
                None => bare_owner(resolved@) is None,
            },
    {
        let is_bare = match path_file_name(resolved) {
            Some(n) => same_text(n.as_str(), ".bare"),
            None => false,
        };
        if is_bare {
            return match path_parent(resolved) {
                Some(p) => Some(Wrapper::from_path(p.as_str())),
                None => None,
            };
        }
        match path_parent(resolved) {
            Some(p) => {
                let inside = match path_file_name(p.as_str()) {
                    Some(n) => same_text(n.as_str(), ".bare"),
                    None => false,
                };
                if inside {
                    match path_parent(p.as_str()) {
                        Some(q) => Some(Wrapper::from_path(q.as_str())),
                        None => None,
                    }
                } else {
                    None
                }
            },
            None => None,
        }
    }

    /// Discovers the wrapper root from `cwd`.
    ///
    /// `probes` describe `cwd` and each of its ancestors, nearest first; the
    /// first of them that is a wrapper root wins.  Otherwise `common`, when
    /// git reported a common directory, describes it resolved and probed the
    /// same way: one of its ancestors that is a wrapper root, or the parent
    /// of the `.bare` directory it is or lies in.
    ///
    /// Fails with [`GitreeError::NotAWrapper`] naming `cwd` when neither
    /// finds a wrapper.
    pub fn from_cwd(cwd: &str, probes: &[Probe], common: Option<&CommonDirProbe>) -> (r: Result<
        Wrapper,
    >)
        ensures
            match discovered(
                probe_views(probes@),
                match common {
                    Some(c) => Some((c.resolved@, probe_views(c.probes@))),
                    None => None,
                },
            ) {
                Some(d) => r matches Ok(w) && w@ == d,
                None => r matches Err(e) && e@ == ErrorView::NotAWrapper(cwd@),
            },
    {
        match Self::find_wrapper(probes) {
            Some(w) => return Ok(w),
            None => {},
        }
        match common {
            Some(c) => {
                match Self::find_wrapper(c.probes.as_slice()) {
                    Some(w) => return Ok(w),
                    None => {},
                }
                match Self::owner_of_bare(c.resolved.as_str()) {
                    Some(w) => return Ok(w),
                    None => {},
                }
            },
            None => {},
        }
        Err(GitreeError::NotAWrapper(copy_str(cwd)))
    }

    /// Returns the path to the wrapper root.
    pub fn path(&self) -> (p: &str)
        ensures
            p@ == self@,
    {
        self.path.as_str()
    }

    /// Returns the `.bare/` directory.
    pub fn bare_dir(&self) -> (d: BareDir)
        ensures
            d@ == path_join(self@, ".bare"@),
    {
        BareDir::from_path(join(self.path.as_str(), ".bare").as_str())
    }

    /// Returns the `.shared/` directory.
    pub fn shared_dir(&self) -> (d: SharedDir)
        ensures
            d@ == path_join(self@, ".shared"@),
    {
        SharedDir::from_path(join(self.path.as_str(), ".shared").as_str())
    }

    /// Returns the `.git` file of the wrapper.
    pub fn git_file(&self) -> (p: String)
        ensures
            p@ == path_join(self@, ".git"@),
    {
        join(self.path.as_str(), ".git")
    }

    /// Returns the [`Git`] handle rooted at the wrapper.
    pub fn git(&self) -> (g: Git)
        ensures
            g@ == self@,
    {
        Git::new(self.path.as_str())
    }

    /// Returns the path for a worktree of the given branch name.
    ///
    /// Branch names with slashes (`feature/foo`) map to nested directories
    /// (`wrapper/feature/foo`).
    pub fn worktree_path(&self, branch: &str) -> (p: WorktreePath)
        ensures
            p@ == path_join(self@, branch@),
    {
        WorktreePath::from_path(join(self.path.as_str(), branch).as_str())
    }

    /// Returns the [`Git`] handle for a specific worktree path.
    pub fn git_for(&self, path: &str) -> (g: Git)
        ensures
            g@ == path@,
    {
        Git::new(path)
    }

    /// Returns `true` if the `.git` file (content `git_file`, `None` when it
    /// is not a readable file) exists and points at `.bare`.
    pub fn has_git_file(&self, git_file: Option<&str>) -> (b: bool)
        ensures
            b == points_at_bare(
                self@,
                match git_file {
                    Some(c) => Some(c@),
                    None => None,
                },
            ),
    {
        Self::is_wrapper_dir(self.path.as_str(), git_file)
    }

    /// Whether resolving `raw` needs the worktree at that path: its trimmed
    /// form is not a branch name to take as is, and not empty.
    pub fn needs_path_lookup(raw: &str) -> (b: bool)
        ensures
            b == (!resolves_directly(raw@) && trim_trailing_slashes(raw@).len() > 0),
    {
        let t = trim_slashes(raw);
        if !crate::paths::path_is_absolute(t.as_str()) {
            match BranchName::new(t.as_str()) {
                Ok(_) => return false,
                Err(_) => {},
            }
        }
        t.unicode_len() > 0
    }

    /// Resolves a user-supplied branch argument to a [`BranchName`].
    ///
    /// Accepts plain branch names and directory-style names (`branch/`)
    /// directly.  Otherwise, when the trimmed argument is not empty,
    /// `at_path` is the branch of the worktree found at the path `raw`
    /// names (see [`Wrapper::branch_at_path`]); without one, the trimmed
    /// argument is validated as a branch name.
    pub fn resolve_branch_arg(&self, raw: &str, at_path: Option<BranchName>) -> (r: Result<
        BranchName,
    >)
        ensures
            ({
                let t = trim_trailing_slashes(raw@);
                if resolves_directly(raw@) {
                    r matches Ok(b) && b@ == t
                } else if t.len() > 0 && at_path is Some {
                    r matches Ok(b) && b@ == at_path->0@
                } else {
                    match branch_name_error(t) {
                        None => r matches Ok(b) && b@ == t,
                        Some(m) => r matches Err(e) && e@ == ErrorView::Other(m),
                    }
                }
            }),
    {
        let t = trim_slashes(raw);
        if !crate::paths::path_is_absolute(t.as_str()) {
            match BranchName::new(t.as_str()) {
                Ok(b) => return Ok(b),
                Err(_) => {},
            }
        }
        if t.unicode_len() > 0 {
            match at_path {
                Some(b) => return Ok(b),
                None => {},
            }
        }
        BranchName::new(t.as_str())
    }

    /// The branch of the first worktree whose canonical path is `resolved`
    /// and whose branch is a valid name.  `worktrees` pairs each worktree's
    /// canonical path with its branch.
    pub fn branch_at_path(resolved: &str, worktrees: &[(String, Option<String>)]) -> (r: Option<
        BranchName,
    >)
        ensures
            match r {
                Some(b) => exists|i: int|
                    0 <= i < worktrees@.len() && worktrees@[i].0@ == resolved@ && (
                    worktrees@[i].1 matches Some(n) && n@ == b@ && is_valid_branch_name(n@))
                        && forall|j: int|
                        0 <= j < i ==> !(worktrees@[j].0@ == resolved@ && (
                        worktrees@[j].1 matches Some(n) && is_valid_branch_name(n@))),
                None => forall|j: int|
                    0 <= j < worktrees@.len() ==> !(worktrees@[j].0@ == resolved@ && (
                    worktrees@[j].1 matches Some(n) && is_valid_branch_name(n@))),
            },
    {
        let mut i: usize = 0;
        while i < worktrees.len()
            invariant
                i <= worktrees@.len(),
                forall|j: int|
                    0 <= j < i ==> !(worktrees@[j].0@ == resolved@ && (
                    worktrees@[j].1 matches Some(n) && is_valid_branch_name(n@))),
            decreases worktrees.len() - i,
        {
            let (p, b) = &worktrees[i];
            if same_text(p.as_str(), resolved) {
                match b {
                    Some(name) => match BranchName::new(name.as_str()) {
                        Ok(bn) => return Some(bn),
                        Err(_) => {},
                    },
                    None => {},
                }
            }
            i = i + 1;
        }
        None
    }
}

/// `s.trim_end_matches('/')`.
pub fn trim_slashes(s: &str) -> (r: String)
    ensures
        r@ == trim_trailing_slashes(s@),
{
    let v = chars_of(s);
    let mut j: usize = v.len();
    assert(v@.take(v@.len() as int) == v@);
    while j > 0 && v[j - 1] == '/'
        invariant
            j <= v@.len(),
            v@ == s@,
            trim_trailing_slashes(v@.take(j as int)) == trim_trailing_slashes(s@),
        decreases j,
    {
        assert(v@.take(j as int).drop_last() == v@.take(j - 1));
        j = j - 1;
    }
    let r = string_of(&v, 0, j);
    assert(r@ == v@.take(j as int));
    r
}


/// A directory-style argument (`branch/`, as shell completion offers it)
/// resolves as the plain one: a trailing `/` changes neither the trimmed
/// argument nor whether it is taken as a branch name directly, which is
/// all that [`Wrapper::resolve_branch_arg`] reads of it.
pub proof fn lemma_trailing_slash_resolves_alike(raw: Seq<char>)
    ensures
        trim_trailing_slashes(raw + "/"@) == trim_trailing_slashes(raw),
        resolves_directly(raw + "/"@) == resolves_directly(raw),
{
    reveal_strlit("/");
    let r = raw + "/"@;
    assert(r.last() == '/');
    assert(r.drop_last() =~= raw);
}

} // verus!
