//! A branch glob compiled with globset, holding the pattern it was compiled
//! from.  Only the trusted constructor below makes a filter, so the
//! pattern a filter reports is the one its matcher was built from.

use vstd::prelude::*;

use crate::error::{ErrorView, GitreeError, Result};
use crate::text::push_str;

verus! {

#[verifier::external_type_specification]
#[verifier::external_body]
pub struct ExGlobSet(globset::GlobSet);

/// What building `pattern` (default options) into a glob set reports:
/// `None` when it parses and compiles, else the error's message.
pub uninterp spec fn glob_filter_error(pattern: Seq<char>) -> Option<Seq<char>>;

/// Whether `candidate` matches the glob set built from `pattern` with
/// default options.
pub uninterp spec fn glob_matches(pattern: Seq<char>, candidate: Seq<char>) -> bool;

/// A compiled branch glob, with the pattern it was compiled from.
pub struct BranchFilter {
    pattern: String,
    set: globset::GlobSet,
}

impl BranchFilter {
    /// The pattern the filter was compiled from.
    pub closed spec fn pattern(&self) -> Seq<char> {
        self.pattern@
    }
}

/// Calls `globset::Glob::new` (`GlobBuilder::new(pattern).build()`, default
/// options) and `globset::GlobSet::new` on the one glob; an error of either
/// becomes its message.  `GlobSet::new` reports a regex over globset's size
/// limit as an error rather than panicking; the literal matchers it builds
/// unwrap `AhoCorasick::new`, which fails only past 2^31 automaton states,
/// so `requires` bounds the pattern's length.  The filter holds the pattern
/// and the set built from it; the contract names the outcome.
#[verifier::external_body]
fn compile_filter(pattern: &str) -> (r: core::result::Result<BranchFilter, String>)
    requires
        pattern@.len() < 0x1000_0000,
    ensures
        match r {
            Ok(f) => glob_filter_error(pattern@) is None && f.pattern() == pattern@,
            Err(m) => glob_filter_error(pattern@) == Some(m@),
        },
{
    let glob = match globset::Glob::new(pattern) {
        Ok(g) => g,
        Err(e) => return Err(e.to_string()),
    };
    match globset::GlobSet::new([glob]) {
        Ok(set) => Ok(BranchFilter { pattern: pattern.to_string(), set }),
        Err(e) => Err(e.to_string()),
    }
}

/// Calls `globset::GlobSet::is_match` on the filter's set, which
/// `compile_filter` built from the filter's pattern.  The contract only
/// names the result.
#[verifier::external_body]
fn filter_is_match(f: &BranchFilter, candidate: &str) -> (r: bool)
    ensures
        r == glob_matches(f.pattern(), candidate@),
{
    f.set.is_match(candidate)
}

impl BranchFilter {
    /// Compiles `pattern` (of a length that fits the matcher, see
    /// `compile_filter`); a pattern that does not parse or compile is
    /// [`GitreeError::Other`] with globset's message.
    pub fn new(pattern: &str) -> (r: Result<BranchFilter>)
        requires
            pattern@.len() < 0x1000_0000,
        ensures
            match glob_filter_error(pattern@) {
                None => r matches Ok(f) && f.pattern() == pattern@,
                Some(m) => r matches Err(e) && e@ == ErrorView::Other(
                    "invalid glob pattern '"@ + pattern@ + "': "@ + m,
                ),
            },
    {
        match compile_filter(pattern) {
            Ok(f) => Ok(f),
            Err(msg) => {
                let mut m = String::new();
                push_str(&mut m, "invalid glob pattern '");
                push_str(&mut m, pattern);
                push_str(&mut m, "': ");
                push_str(&mut m, msg.as_str());
                Err(GitreeError::Other(m))
            },
        }
    }

    /// Whether `candidate` matches the pattern.
    pub fn matches(&self, candidate: &str) -> (r: bool)
        ensures
            r == glob_matches(self.pattern(), candidate@),
    {
        filter_is_match(self, candidate)
    }
}

} // verus!
