//! Lexical operations on Unix paths held as strings.

use vstd::prelude::*;

use crate::text::{copy_str, opt_view, push_str};

verus! {

/// A path is absolute when it starts at the root (`Path::is_absolute` on
/// Unix).
pub open spec fn is_absolute(p: Seq<char>) -> bool {
    p.len() > 0 && p[0] == '/'
}

/// `Path::join` on Unix: an absolute `p` replaces `base`; otherwise `p` is
/// appended, with a `/` in between unless `base` is empty or already ends
/// with one.
pub open spec fn path_join(base: Seq<char>, p: Seq<char>) -> Seq<char> {
    if is_absolute(p) {
        p
    } else if base.len() == 0 || base.last() == '/' {
        base + p
    } else {
        base + "/"@ + p
    }
}

/// `Path::new(path).ends_with(child)`: whether `child` matches the last
/// components of `path`.
pub uninterp spec fn path_ends_with_result(path: Seq<char>, child: Seq<char>) -> bool;

/// `Path::new(path).file_name()`, as a string.
pub uninterp spec fn path_file_name_result(path: Seq<char>) -> Option<Seq<char>>;

/// `Path::new(path).parent()`, as a string.
pub uninterp spec fn path_parent_result(path: Seq<char>) -> Option<Seq<char>>;

/// `Path::new(a) == Path::new(b)`: whether two paths have the same
/// components.
pub uninterp spec fn path_eq_result(a: Seq<char>, b: Seq<char>) -> bool;

/// Whether `path` is absolute.
pub fn path_is_absolute(p: &str) -> (b: bool)
    ensures
        b == is_absolute(p@),
{
    let n = p.unicode_len();
    n > 0 && p.get_char(0) == '/'
}

/// `base.join(p)`.
pub fn join(base: &str, p: &str) -> (r: String)
    ensures
        r@ == path_join(base@, p@),
{
    if path_is_absolute(p) {
        return copy_str(p);
    }
    let n = base.unicode_len();
    let mut r = copy_str(base);
    if n > 0 && base.get_char(n - 1) != '/' {
        push_str(&mut r, "/");
    }
    push_str(&mut r, p);
    r
}

/// Calls `std::path::Path::ends_with`, which compares whole trailing
/// components.  The contract only names the result.
#[verifier::external_body]
pub(crate) fn path_ends_with(path: &str, child: &str) -> (b: bool)
    ensures
        b == path_ends_with_result(path@, child@),
{
    std::path::Path::new(path).ends_with(child)
}

/// Calls `std::path::Path::file_name`, the final component unless it is
/// `..`.  The contract only names the result.
#[verifier::external_body]
pub(crate) fn path_file_name(path: &str) -> (r: Option<String>)
    ensures
        opt_view(r) == path_file_name_result(path@),
{
    match std::path::Path::new(path).file_name() {
        Some(n) => Some(n.to_string_lossy().into_owned()),
        None => None,
    }
}

/// Calls `std::path::Path::parent`, the path without its final component.
/// The contract only names the result.
#[verifier::external_body]
pub(crate) fn path_parent(path: &str) -> (r: Option<String>)
    ensures
        opt_view(r) == path_parent_result(path@),
{
    match std::path::Path::new(path).parent() {
        Some(p) => Some(p.display().to_string()),
        None => None,
    }
}

/// Calls `==` on two `std::path::Path`s, which compares their components
/// (so `a/b` equals `a//b/`).  The contract only names the result.
#[verifier::external_body]
pub(crate) fn path_eq(a: &str, b: &str) -> (r: bool)
    ensures
        r == path_eq_result(a@, b@),
{
    std::path::Path::new(a) == std::path::Path::new(b)
}

} // verus!
