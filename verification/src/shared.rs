//! `.shared/` linking results and the gitignore trailing-slash check.

use vstd::prelude::*;

use crate::text::{chars_of, copy_str, lines, lines_of, trim, trim_str, views};

verus! {

/// Result of linking a single shared item.
#[derive(Debug, Clone)]
pub enum LinkResult {
    /// The symlink was created.
    Linked(String),
    /// The target already exists in the worktree.
    Skipped(String),
}

/// The gitignore lines, trimmed, that end with `/` and are neither empty
/// nor comments, in order.
pub open spec fn slash_patterns(ls: Seq<Seq<char>>) -> Seq<Seq<char>>
    decreases ls.len(),
{
    if ls.len() == 0 {
        Seq::empty()
    } else {
        let t = trim(ls.last());
        let prev = slash_patterns(ls.drop_last());
        if t.len() == 0 || t[0] == '#' || t.last() != '/' {
            prev
        } else {
            prev.push(t)
        }
    }
}

/// The trailing-slash patterns of a `.gitignore` with `content` (none for
/// a missing file).
pub open spec fn gitignore_warnings(content: Option<&str>) -> Seq<Seq<char>> {
    match content {
        Some(c) => slash_patterns(lines(c@)),
        None => Seq::empty(),
    }
}

/// Checks a `.gitignore` file for patterns with trailing slashes, which do
/// not match symlinked directories.
///
/// `content` is the file's content, `None` when it does not exist.  Each
/// warning pairs the pattern with the file's path.
pub fn check_gitignore_trailing_slash(gitignore: &str, content: Option<&str>) -> (r: Vec<
    (String, String),
>)
    ensures
        r@.len() == gitignore_warnings(content).len(),
        forall|i: int|
            0 <= i < r@.len() ==> r@[i].0@ == gitignore_warnings(content)[i] && r@[i].1@
                == gitignore@,
{
    let mut r: Vec<(String, String)> = Vec::new();
    match content {
        None => {
            assert(r@.len() == 0);
            r
        },
        Some(c) => {
            let ls = lines_of(c);
            let mut i: usize = 0;
            assert(views(ls@).take(0) =~= Seq::<Seq<char>>::empty());
            while i < ls.len()
                invariant
                    i <= ls@.len(),
                    views(ls@) == lines(c@),
                    r@.len() == slash_patterns(views(ls@).take(i as int)).len(),
                    forall|k: int|
                        0 <= k < r@.len() ==> r@[k].0@ == slash_patterns(
                            views(ls@).take(i as int),
                        )[k] && r@[k].1@ == gitignore@,
                decreases ls.len() - i,
            {
                let t = trim_str(ls[i].as_str());
                let tv = chars_of(t.as_str());
                let ghost tk = views(ls@).take(i + 1);
                assert(tk.drop_last() == views(ls@).take(i as int));
                assert(tk.last() == ls@[i as int]@);
                if !(tv.len() == 0 || tv[0] == '#' || tv[tv.len() - 1] != '/') {
                    r.push((t, copy_str(gitignore)));
                }
                i = i + 1;
            }
            assert(views(ls@).take(ls@.len() as int) == views(ls@));
            r
        },
    }
}

} // verus!
