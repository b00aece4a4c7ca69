//! Newtypes for domain primitives: validated branch names and the paths of
//! the wrapper layout.

use vstd::prelude::*;

use crate::error::{ErrorView, GitreeError, Result};
use crate::text::{
    chars_of, contains, copy_str, decimal, ends_with, has_substring, has_suffix, push_decimal,
    push_str,
};

verus! {

/// A character git does not allow in a branch name.
pub open spec fn is_invalid_branch_char(c: char) -> bool {
    c == ' ' || c == '~' || c == '^' || c == ':' || c == '?' || c == '*' || c == '[' || c == '\\'
}

/// Index of the first invalid branch-name character at or after `i`, or
/// `name.len()` if there is none.
pub open spec fn first_invalid_char_from(name: Seq<char>, i: int) -> int
    decreases name.len() - i,
{
    if i < 0 || i >= name.len() {
        name.len() as int
    } else if is_invalid_branch_char(name[i]) {
        i
    } else {
        first_invalid_char_from(name, i + 1)
    }
}

/// Why `name` is not a valid branch name, or `None` if it is one.
///
/// The rules are checked in this order: not empty; not starting with `-` or
/// `.`; not ending with `/` or `.lock`; none of ` ~^:?*[\`; no `..`, `//`
/// or `@{`.
pub open spec fn branch_name_error(name: Seq<char>) -> Option<Seq<char>> {
    let quoted = "branch name '"@ + name;
    if name.len() == 0 {
        Some("branch name is empty"@)
    } else if name[0] == '-' || name[0] == '.' {
        Some(quoted + "' must not start with '-' or '.'"@)
    } else if ends_with(name, "/"@) {
        Some(quoted + "' must not end with '/'"@)
    } else if ends_with(name, ".lock"@) {
        Some(quoted + "' must not end with '.lock'"@)
    } else if first_invalid_char_from(name, 0) < name.len() {
        let i = first_invalid_char_from(name, 0);
        Some(
            quoted + "' contains invalid character '"@ + seq![name[i]] + "' at position "@
                + decimal(i as nat),
        )
    } else if contains(name, ".."@) {
        Some(quoted + "' must not contain '..'"@)
    } else if contains(name, "//"@) {
        Some(quoted + "' must not contain '//'"@)
    } else if contains(name, "@{"@) {
        Some(quoted + "' must not contain '@{'"@)
    } else {
        None
    }
}

/// `name` is a valid git branch name.
pub open spec fn is_valid_branch_name(name: Seq<char>) -> bool {
    branch_name_error(name) is None
}

/// A validated git branch name.
///
/// Branch names in git cannot start with `-` or `.`, contain `..`, `//`,
/// `@{`, a space, `~`, `^`, `:`, `?`, `*`, `[` or `\`, or end with `/` or
/// `.lock`.  See <https://git-scm.com/docs/git-check-ref-format>.
#[derive(Debug, Clone, PartialEq, Eq, Hash)]
pub struct BranchName(String);

impl View for BranchName {
    type V = Seq<char>;

    closed spec fn view(&self) -> Seq<char> {
        self.0@
    }
}

proof fn lemma_first_invalid(name: Seq<char>, i: int, j: int)
    requires
        0 <= i <= j <= name.len(),
        forall|k: int| i <= k < j ==> !is_invalid_branch_char(name[k]),
    ensures
        first_invalid_char_from(name, i) == first_invalid_char_from(name, j),
    decreases j - i,
{
    if i < j {
        lemma_first_invalid(name, i + 1, j);
    }
}

impl BranchName {
    /// Validates and creates a [`BranchName`].
    ///
    /// Fails with [`GitreeError::Other`] carrying the reason if the name
    /// violates git's ref-name rules.
    pub fn new(name: &str) -> (r: Result<BranchName>)
        ensures
            match r {
                Ok(b) => is_valid_branch_name(name@) && b@ == name@,
                Err(e) => branch_name_error(name@) matches Some(m) && e@ == ErrorView::Other(m),
            },
    {
        match Self::validate(name) {
            Ok(()) => Ok(BranchName(copy_str(name))),
            Err(e) => Err(e),
        }
    }

    /// Returns the branch name as a string slice.
    pub fn as_str(&self) -> (s: &str)
        ensures
            s@ == self@,
    {
        self.0.as_str()
    }

    /// The branch name as an owned string (its display form).
    pub fn to_string(&self) -> (s: String)
        ensures
            s@ == self@,
    {
        copy_str(self.0.as_str())
    }

    /// Whether the branch name equals `other`.
    pub fn eq_str(&self, other: &str) -> (b: bool)
        ensures
            b == (self@ == other@),
    {
        crate::text::same_text(self.0.as_str(), other)
    }

    /// Checks `name` against git's ref-name rules.
    fn validate(name: &str) -> (r: Result<()>)
        ensures
            match r {
                Ok(()) => is_valid_branch_name(name@),
                Err(e) => branch_name_error(name@) matches Some(m) && e@ == ErrorView::Other(m),
            },
    {
        let v = chars_of(name);
        if v.len() == 0 {
            let mut m = String::new();
            push_str(&mut m, "branch name is empty");
            return Err(GitreeError::Other(m));
        }
        let mut m = String::new();
        push_str(&mut m, "branch name '");
        push_str(&mut m, name);
        if v[0] == '-' || v[0] == '.' {
            push_str(&mut m, "' must not start with '-' or '.'");
            return Err(GitreeError::Other(m));
        }
        if has_suffix(name, "/") {
            push_str(&mut m, "' must not end with '/'");
            return Err(GitreeError::Other(m));
        }
        if has_suffix(name, ".lock") {
            push_str(&mut m, "' must not end with '.lock'");
            return Err(GitreeError::Other(m));
        }
        let mut i: usize = 0;
        while i < v.len()
            invariant
                v@ == name@,
                i <= v@.len(),
                forall|k: int| 0 <= k < i ==> !is_invalid_branch_char(v@[k]),
                m@ == "branch name '"@ + name@,
                name@.len() > 0,
                !(name@[0] == '-' || name@[0] == '.'),
                !ends_with(name@, "/"@),
                !ends_with(name@, ".lock"@),
            decreases v.len() - i,
        {
            let ch = v[i];
            if ch == ' ' || ch == '~' || ch == '^' || ch == ':' || ch == '?' || ch == '*' || ch
                == '[' || ch == '\\' {
                proof {
                    lemma_first_invalid(name@, 0, i as int);
                    assert(first_invalid_char_from(name@, i as int) == i);
                }
                push_str(&mut m, "' contains invalid character '");
                m.push(ch);
                push_str(&mut m, "' at position ");
                push_decimal(&mut m, i);
                assert(m@ == "branch name '"@ + name@ + "' contains invalid character '"@ + seq![
                    name@[i as int],
                ] + "' at position "@ + decimal(i as nat));
                return Err(GitreeError::Other(m));
            }
            i = i + 1;
        }
        proof {
            lemma_first_invalid(name@, 0, i as int);
            assert(first_invalid_char_from(name@, i as int) == name@.len());
        }
        if has_substring(name, "..") {
            push_str(&mut m, "' must not contain '..'");
            assert(m@ == "branch name '"@ + name@ + "' must not contain '..'"@);
            return Err(GitreeError::Other(m));
        }
        if has_substring(name, "//") {
            push_str(&mut m, "' must not contain '//'");
            assert(m@ == "branch name '"@ + name@ + "' must not contain '//'"@);
            return Err(GitreeError::Other(m));
        }
        if has_substring(name, "@{") {
            push_str(&mut m, "' must not contain '@{'");
            return Err(GitreeError::Other(m));
        }
        Ok(())
    }
}

/// The `.bare/` directory inside the wrapper — the shared git database.
#[derive(Debug, Clone, PartialEq, Eq)]
pub struct BareDir(String);

/// The `.shared/` directory inside the wrapper — holds gitignored files
/// symlinked into each worktree.
#[derive(Debug, Clone, PartialEq, Eq)]
pub struct SharedDir(String);

/// The filesystem path of a single worktree.
#[derive(Debug, Clone, PartialEq, Eq)]
pub struct WorktreePath(String);

impl View for BareDir {
    type V = Seq<char>;

    closed spec fn view(&self) -> Seq<char> {
        self.0@
    }
}

impl View for SharedDir {
    type V = Seq<char>;

    closed spec fn view(&self) -> Seq<char> {
        self.0@
    }
}

impl View for WorktreePath {
    type V = Seq<char>;

    closed spec fn view(&self) -> Seq<char> {
        self.0@
    }
}

impl BareDir {
    /// Creates a new instance from a path.
    pub fn from_path(path: &str) -> (r: BareDir)
        ensures
            r@ == path@,
    {
        BareDir(copy_str(path))
    }

    /// Returns the inner path.
    pub fn as_path(&self) -> (p: &str)
        ensures
            p@ == self@,
    {
        self.0.as_str()
    }

    /// Consumes and returns the inner path.
    pub fn into_pathbuf(self) -> (p: String)
        ensures
            p@ == self@,
    {
        self.0
    }

    /// The path as it displays.
    pub fn to_string(&self) -> (s: String)
        ensures
            s@ == self@,
    {
        copy_str(self.0.as_str())
    }
}

impl SharedDir {
    /// Creates a new instance from a path.
    pub fn from_path(path: &str) -> (r: SharedDir)
        ensures
            r@ == path@,
    {
        SharedDir(copy_str(path))
    }

    /// Returns the inner path.
    pub fn as_path(&self) -> (p: &str)
        ensures
            p@ == self@,
    {
        self.0.as_str()
    }

    /// Consumes and returns the inner path.
    pub fn into_pathbuf(self) -> (p: String)
        ensures
            p@ == self@,
    {
        self.0
    }

    /// The path as it displays.
    pub fn to_string(&self) -> (s: String)
        ensures
            s@ == self@,
    {
        copy_str(self.0.as_str())
    }
}

impl WorktreePath {
    /// Creates a new instance from a path.
    pub fn from_path(path: &str) -> (r: WorktreePath)
        ensures
            r@ == path@,
    {
        WorktreePath(copy_str(path))
    }

    /// Returns the inner path.
    pub fn as_path(&self) -> (p: &str)
        ensures
            p@ == self@,
    {
        self.0.as_str()
    }

    /// Consumes and returns the inner path.
    pub fn into_pathbuf(self) -> (p: String)
        ensures
            p@ == self@,
    {
        self.0
    }

    /// The path as it displays.
    pub fn to_string(&self) -> (s: String)
        ensures
            s@ == self@,
    {
        copy_str(self.0.as_str())
    }
}


// ---------------------------------------------------------------------------
// Laws
// ---------------------------------------------------------------------------

proof fn lemma_first_invalid_at_most(name: Seq<char>, i: int, j: int)
    requires
        0 <= i <= j < name.len(),
        is_invalid_branch_char(name[j]),
    ensures
        i <= first_invalid_char_from(name, i) <= j,
    decreases j - i,
{
    if i < j && !is_invalid_branch_char(name[i]) {
        lemma_first_invalid_at_most(name, i + 1, j);
    }
}

/// No branch name holds a space or any of `~ ^ : ? * [ \`: a name with one
/// of them anywhere is refused.
pub proof fn lemma_branch_name_refuses_specials(name: Seq<char>, j: int)
    requires
        0 <= j < name.len(),
        name[j] == ' ' || name[j] == '~' || name[j] == '^' || name[j] == ':' || name[j] == '?'
            || name[j] == '*' || name[j] == '[' || name[j] == '\\',
    ensures
        !is_valid_branch_name(name),
{
    lemma_first_invalid_at_most(name, 0, j);
}

/// When a name passes the rules checked first (not empty, not starting
/// with `-` or `.`, not ending with `/` or `.lock`), the refusal for such a
/// character names the first one and its position.
pub proof fn lemma_branch_name_special_message(name: Seq<char>, j: int)
    requires
        0 <= j < name.len(),
        name[j] == ' ' || name[j] == '~' || name[j] == '^' || name[j] == ':' || name[j] == '?'
            || name[j] == '*' || name[j] == '[' || name[j] == '\\',
        forall|k: int|
            0 <= k < j ==> !(name[k] == ' ' || name[k] == '~' || name[k] == '^' || name[k] == ':'
                || name[k] == '?' || name[k] == '*' || name[k] == '[' || name[k] == '\\'),
        name[0] != '-' && name[0] != '.' && !ends_with(name, "/"@) && !ends_with(name, ".lock"@),
    ensures
        branch_name_error(name) == Some(
            "branch name '"@ + name + "' contains invalid character '"@ + seq![name[j]]
                + "' at position "@ + decimal(j as nat),
        ),
{
    lemma_first_invalid(name, 0, j);
    assert(first_invalid_char_from(name, j) == j);
}

} // verus!
