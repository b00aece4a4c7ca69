//! Completion support: the branch candidates of `gitree __complete`, and
//! the dynamic-completion code appended to the generated shell scripts.
//!
//! Subcommands whose name starts with a double underscore are hidden
//! internal helpers that generated completion scripts invoke.

use vstd::prelude::*;
use vstd::utf8::{decode_utf8, encode_utf8, valid_utf8};

use crate::error::{ErrorView, GitreeError, Result};
use crate::git::{contains_name, entry_views, lemma_not_in_members, names_not_in, not_in, BranchSet, EntryView, WorktreeEntry};
use crate::text::{
    contains, copy_str, lemma_replace_keeps, lemma_replace_leaves_none, lemma_replace_puts, push_str,
    replace, replace_str, replacement_separates, same_text, views,
};

verus! {

/// The bash completion code appended after the generated script.
pub const BASH_OVERRIDES: &'static str = "\n\n# gitree: dynamic branch completion (appended by `gitree completion bash`).\n# Renames the clap-generated _gitree function and wraps it so that the\n# branch positional of add/remove/switch/where and the --base option of add\n# are completed dynamically via `gitree __complete <context>`.\nif declare -F _gitree >/dev/null 2>&1; then\n    eval \"$(declare -f _gitree | sed '1s/^[A-Za-z_][A-Za-z0-9_]*/__gitree_clap_orig/')\"\n    _gitree() {\n        local sub=\"${COMP_WORDS[1]:-}\"\n        local cur prev\n        if [[ \"${BASH_VERSINFO[0]}\" -ge 4 ]]; then\n            cur=\"$2\"\n        else\n            cur=\"${COMP_WORDS[COMP_CWORD]}\"\n        fi\n        prev=\"$3\"\n\n        # Normalize subcommand aliases so branch completion fires when the\n        # user types `a`, `rm`, or `sw`.\n        case \"${sub}\" in\n            a) sub=\"add\" ;;\n            rm) sub=\"remove\" ;;\n            sw) sub=\"switch\" ;;\n        esac\n\n        case \"${sub}\" in\n            add)\n                if [[ \"${prev}\" == \"--base\" ]]; then\n                    COMPREPLY=( $(compgen -W \"$(gitree __complete base 2>/dev/null)\" -- \"${cur}\") )\n                    return 0\n                fi\n                if [[ \"${cur}\" != -* ]]; then\n                    local i has_new=0\n                    for ((i=2; i<COMP_CWORD; i++)); do\n                        case \"${COMP_WORDS[i]}\" in\n                            --new|-n) has_new=1 ;;\n                        esac\n                    done\n                    if [[ $has_new -eq 0 ]]; then\n                        COMPREPLY=( $(compgen -W \"$(gitree __complete add 2>/dev/null)\" -- \"${cur}\") )\n                        return 0\n                    fi\n                fi\n                ;;\n            remove|switch|where)\n                if [[ \"${cur}\" != -* ]]; then\n                    COMPREPLY=( $(compgen -W \"$(gitree __complete \"${sub}\" 2>/dev/null)\" -- \"${cur}\") )\n                    return 0\n                fi\n                ;;\n        esac\n        __gitree_clap_orig \"$@\"\n    }\nfi\n";

/// The zsh helper functions appended after the rewritten script.
pub const ZSH_HELPERS: &'static str = "\n\n# gitree: dynamic branch completion (appended by `gitree completion zsh`).\n_gitree_complete_add() {\n    if (( ${words[(I)--new]} || ${words[(I)-n]} )); then\n        return 0\n    fi\n    local -a branches\n    branches=(\"${(@f)$(gitree __complete add 2>/dev/null)}\")\n    compadd -- \"${branches[@]}\"\n}\n_gitree_complete_remove() {\n    local -a branches\n    branches=(\"${(@f)$(gitree __complete remove 2>/dev/null)}\")\n    compadd -- \"${branches[@]}\"\n}\n_gitree_complete_switch() {\n    local -a branches\n    branches=(\"${(@f)$(gitree __complete switch 2>/dev/null)}\")\n    compadd -- \"${branches[@]}\"\n}\n_gitree_complete_where() {\n    local -a branches\n    branches=(\"${(@f)$(gitree __complete where 2>/dev/null)}\")\n    compadd -- \"${branches[@]}\"\n}\n_gitree_complete_base() {\n    local -a branches\n    branches=(\"${(@f)$(gitree __complete base 2>/dev/null)}\")\n    compadd -- \"${branches[@]}\"\n}\n";

/// The fish completion rules appended after the generated script.
pub const FISH_OVERRIDES: &'static str = "\n\n# gitree: dynamic branch completion (appended by `gitree completion fish`).\n# Without these rules fish falls back to file completion for branch\n# positionals, so `gtr rm <prefix><TAB>` offers directory names.\ncomplete -c gitree -n '__fish_gitree_using_subcommand add a; and not __fish_contains_opt -s n new' -f -a '(gitree __complete add)' -d 'Branch'\ncomplete -c gitree -n '__fish_gitree_using_subcommand add a; and __fish_prev_arg_in --base' -f -a '(gitree __complete base)' -d 'Base ref'\ncomplete -c gitree -n '__fish_gitree_using_subcommand remove rm' -f -a '(gitree __complete remove)' -d 'Branch'\ncomplete -c gitree -n '__fish_gitree_using_subcommand switch sw' -f -a '(gitree __complete switch)' -d 'Branch'\ncomplete -c gitree -n '__fish_gitree_using_subcommand where' -f -a '(gitree __complete where)' -d 'Branch'\n";

/// The branches of the worktrees that have one, in order.
pub open spec fn worktree_branch_names(es: Seq<EntryView>) -> Seq<Seq<char>>
    decreases es.len(),
{
    if es.len() == 0 {
        Seq::empty()
    } else {
        let prev = worktree_branch_names(es.drop_last());
        match es.last().branch {
            Some(b) => prev.push(b),
            None => prev,
        }
    }
}

/// `xs` without repeats, each name kept where it first occurs.
pub open spec fn dedup(xs: Seq<Seq<char>>) -> Seq<Seq<char>>
    decreases xs.len(),
{
    if xs.len() == 0 {
        Seq::empty()
    } else {
        let d = dedup(xs.drop_last());
        if d.contains(xs.last()) {
            d
        } else {
            d.push(xs.last())
        }
    }
}

/// The `add` candidates: local branches without a worktree, then remote
/// branches without a worktree that are not local.
pub open spec fn add_candidates(
    local: Seq<Seq<char>>,
    remote: Seq<Seq<char>>,
    es: Seq<EntryView>,
) -> Seq<Seq<char>> {
    let active = worktree_branch_names(es);
    not_in(local, active) + not_in(not_in(remote, active), local)
}

/// Branches that currently have a worktree (the `remove`/`switch`/`where`
/// set).
pub fn worktree_branches(worktrees: &[WorktreeEntry]) -> (r: Vec<String>)
    ensures
        views(r@) == worktree_branch_names(entry_views(worktrees@)),
{
    let mut r: Vec<String> = Vec::new();
    let mut i: usize = 0;
    assert(entry_views(worktrees@).take(0) =~= Seq::<EntryView>::empty());
    assert(views(r@) =~= Seq::<Seq<char>>::empty());
    while i < worktrees.len()
        invariant
            i <= worktrees@.len(),
            views(r@) == worktree_branch_names(entry_views(worktrees@).take(i as int)),
        decreases worktrees.len() - i,
    {
        let ghost t = entry_views(worktrees@).take(i + 1);
        assert(t.drop_last() == entry_views(worktrees@).take(i as int));
        assert(t.last() == worktrees@[i as int]@);
        match &worktrees[i].branch {
            Some(b) => {
                let c = copy_str(b.as_str());
                proof {
                    assert(views(r@.push(c)) == views(r@).push(c@));
                }
                r.push(c);
            },
            None => {},
        }
        i = i + 1;
    }
    assert(entry_views(worktrees@).take(worktrees@.len() as int) == entry_views(worktrees@));
    r
}

/// Branches not currently checked out as a worktree (the `add` set): local
/// ones first, then remote ones that are not also local.
pub fn add_branches(branches: &BranchSet, worktrees: &[WorktreeEntry]) -> (r: Vec<String>)
    ensures
        views(r@) == add_candidates(
            views(branches.local@),
            views(branches.remote@),
            entry_views(worktrees@),
        ),
{
    let active = worktree_branches(worktrees);
    let mut r = names_not_in(&branches.local, &active);
    let remote = names_not_in(&branches.remote, &active);
    let extra = names_not_in(&remote, &branches.local);
    let mut i: usize = 0;
    let ghost start = views(r@);
    assert(views(extra@).take(0) =~= Seq::<Seq<char>>::empty());
    while i < extra.len()
        invariant
            i <= extra@.len(),
            views(r@) == start + views(extra@).take(i as int),
        decreases extra.len() - i,
    {
        let c = copy_str(extra[i].as_str());
        proof {
            assert(views(r@.push(c)) == views(r@).push(c@));
            assert(views(extra@).take(i + 1) == views(extra@).take(i as int).push(c@));
        }
        r.push(c);
        i = i + 1;
    }
    assert(views(extra@).take(extra@.len() as int) == views(extra@));
    r
}

/// All local and remote branches, without repeats (the `base` set).
pub fn all_branches(branches: &BranchSet) -> (r: Vec<String>)
    ensures
        views(r@) == dedup(views(branches.local@) + views(branches.remote@)),
{
    let mut all: Vec<String> = Vec::new();
    let mut i: usize = 0;
    assert(views(all@) =~= Seq::<Seq<char>>::empty());
    while i < branches.local.len()
        invariant
            i <= branches.local@.len(),
            views(all@) == views(branches.local@).take(i as int),
        decreases branches.local.len() - i,
    {
        let c = copy_str(branches.local[i].as_str());
        proof {
            assert(views(all@.push(c)) == views(all@).push(c@));
            assert(views(branches.local@).take(i + 1) == views(branches.local@).take(i as int).push(c@));
        }
        all.push(c);
        i = i + 1;
    }
    let mut j: usize = 0;
    while j < branches.remote.len()
        invariant
            j <= branches.remote@.len(),
            views(all@) == views(branches.local@) + views(branches.remote@).take(j as int),
        decreases branches.remote.len() - j,
    {
        let c = copy_str(branches.remote[j].as_str());
        proof {
            assert(views(all@.push(c)) == views(all@).push(c@));
            assert(views(branches.remote@).take(j + 1) == views(branches.remote@).take(j as int).push(c@));
        }
        all.push(c);
        j = j + 1;
    }
    assert(views(branches.remote@).take(branches.remote@.len() as int) == views(branches.remote@));
    let mut r: Vec<String> = Vec::new();
    let mut k: usize = 0;
    assert(views(all@).take(0) =~= Seq::<Seq<char>>::empty());
    assert(views(r@) =~= Seq::<Seq<char>>::empty());
    while k < all.len()
        invariant
            k <= all@.len(),
            views(r@) == dedup(views(all@).take(k as int)),
        decreases all.len() - k,
    {
        let x = all[k].as_str();
        let ghost t = views(all@).take(k + 1);
        assert(t.drop_last() == views(all@).take(k as int));
        assert(t.last() == x@);
        if !contains_name(&r, x) {
            let c = copy_str(x);
            proof {
                assert(views(r@.push(c)) == views(r@).push(c@));
            }
            r.push(c);
        }
        k = k + 1;
    }
    assert(views(all@).take(all@.len() as int) == views(all@));
    r
}

/// The candidates `gitree __complete <context>` prints.
pub open spec fn candidates_for(
    context: Option<Seq<char>>,
    local: Seq<Seq<char>>,
    remote: Seq<Seq<char>>,
    es: Seq<EntryView>,
) -> Seq<Seq<char>> {
    match context {
        Some(c) => if c == "remove"@ || c == "switch"@ || c == "where"@ {
            worktree_branch_names(es)
        } else if c == "base"@ {
            dedup(local + remote)
        } else {
            add_candidates(local, remote, es)
        },
        None => add_candidates(local, remote, es),
    }
}

/// The branch names for dynamic completion in `context`:
///
/// - `"remove"` / `"switch"` / `"where"`: branches that are worktrees;
/// - `"base"`: all local and remote branches, without repeats;
/// - `"add"`, anything else, or no context: branches not already checked
///   out as a worktree.
pub fn complete_branches(
    context: Option<&str>,
    branches: &BranchSet,
    worktrees: &[WorktreeEntry],
) -> (r: Vec<String>)
    ensures
        views(r@) == candidates_for(
            match context {
                Some(c) => Some(c@),
                None => None,
            },
            views(branches.local@),
            views(branches.remote@),
            entry_views(worktrees@),
        ),
{
    match context {
        Some(c) => {
            if same_text(c, "remove") || same_text(c, "switch") || same_text(c, "where") {
                worktree_branches(worktrees)
            } else if same_text(c, "base") {
                all_branches(branches)
            } else {
                add_branches(branches, worktrees)
            }
        },
        None => add_branches(branches, worktrees),
    }
}

/// Appends `bytes` to `buffer`.
fn append_bytes(buffer: &mut Vec<u8>, bytes: &[u8])
    ensures
        final(buffer)@ == old(buffer)@ + bytes@,
{
    let mut i: usize = 0;
    while i < bytes.len()
        invariant
            i <= bytes@.len(),
            buffer@ == old(buffer)@ + bytes@.take(i as int),
        decreases bytes.len() - i,
    {
        buffer.push(bytes[i]);
        assert(bytes@.take(i + 1) == bytes@.take(i as int).push(bytes@[i as int]));
        i = i + 1;
    }
    assert(bytes@.take(bytes@.len() as int) == bytes@);
}

/// Appends a bash wrapper that intercepts branch positional completion for
/// `add`/`remove`/`switch`/`where` (and their aliases) and `--base` values,
/// delegating to `gitree __complete <context>`.
pub fn append_bash_overrides(buffer: &mut Vec<u8>)
    ensures
        final(buffer)@ == old(buffer)@ + encode_utf8(BASH_OVERRIDES@),
{
    append_bytes(buffer, BASH_OVERRIDES.as_bytes());
}

/// Appends fish `complete` rules that offer branch names for the relevant
/// subcommands (matching their aliases too) and base refs for
/// `add --base`.
pub fn append_fish_overrides(buffer: &mut Vec<u8>)
    ensures
        final(buffer)@ == old(buffer)@ + encode_utf8(FISH_OVERRIDES@),
{
    append_bytes(buffer, FISH_OVERRIDES.as_bytes());
}

/// The message `String::from_utf8` gives for invalid `bytes`.
pub uninterp spec fn utf8_error_text(bytes: Seq<u8>) -> Seq<char>;

/// Calls `String::from_utf8`, which accepts exactly the valid UTF-8 byte
/// sequences and decodes them; for other input the contract names the
/// message of the error it returns.
#[verifier::external_body]
fn utf8_string(bytes: Vec<u8>) -> (r: core::result::Result<String, String>)
    ensures
        match r {
            Ok(s) => valid_utf8(bytes@) && s@ == decode_utf8(bytes@),
            Err(m) => !valid_utf8(bytes@) && m@ == utf8_error_text(bytes@),
        },
{
    match String::from_utf8(bytes) {
        Ok(s) => Ok(s),
        Err(e) => Err(e.to_string()),
    }
}

/// The zsh script with the `_default` action of each branch positional and
/// of `--base` pointed at gitree's helpers.
pub open spec fn zsh_rewrite(s: Seq<char>) -> Seq<char> {
    replace(
        replace(
            replace(
                replace(
                    replace(
                        s,
                        "Branch name to create a worktree for:_default"@,
                        "Branch name to create a worktree for:_gitree_complete_add"@,
                    ),
                    "BASE:_default"@,
                    "BASE:_gitree_complete_base"@,
                ),
                "Branch name whose worktree to remove:_default"@,
                "Branch name whose worktree to remove:_gitree_complete_remove"@,
            ),
            "Branch name to switch to:_default"@,
            "Branch name to switch to:_gitree_complete_switch"@,
        ),
        "Branch name:_default"@,
        "Branch name:_gitree_complete_where"@,
    )
}

/// Rewrites the generated zsh script so its branch positionals and
/// `--base` complete through gitree's helpers, and appends the helpers.
///
/// Fails with [`GitreeError::Other`] when the script is not valid UTF-8;
/// the buffer is left empty then.
pub fn append_zsh_overrides(buffer: &mut Vec<u8>) -> (r: Result<()>)
    ensures
        match r {
            Ok(()) => valid_utf8(old(buffer)@) && final(buffer)@ == encode_utf8(
                zsh_rewrite(decode_utf8(old(buffer)@)) + ZSH_HELPERS@,
            ),
            Err(e) => !valid_utf8(old(buffer)@) && final(buffer)@.len() == 0 && e@
                == ErrorView::Other(utf8_error_text(old(buffer)@)),
        },
{
    let mut bytes: Vec<u8> = Vec::new();
    core::mem::swap(&mut bytes, buffer);
    let script = match utf8_string(bytes) {
        Ok(s) => s,
        Err(m) => return Err(GitreeError::Other(m)),
    };
    proof {
        reveal_strlit("Branch name to create a worktree for:_default");
        reveal_strlit("BASE:_default");
        reveal_strlit("Branch name whose worktree to remove:_default");
        reveal_strlit("Branch name to switch to:_default");
        reveal_strlit("Branch name:_default");
    }
    let s1 = replace_str(
        script.as_str(),
        "Branch name to create a worktree for:_default",
        "Branch name to create a worktree for:_gitree_complete_add",
    );
    let s2 = replace_str(s1.as_str(), "BASE:_default", "BASE:_gitree_complete_base");
    let s3 = replace_str(
        s2.as_str(),
        "Branch name whose worktree to remove:_default",
        "Branch name whose worktree to remove:_gitree_complete_remove",
    );
    let s4 = replace_str(
        s3.as_str(),
        "Branch name to switch to:_default",
        "Branch name to switch to:_gitree_complete_switch",
    );
    let mut s5 = replace_str(
        s4.as_str(),
        "Branch name:_default",
        "Branch name:_gitree_complete_where",
    );
    push_str(&mut s5, ZSH_HELPERS);
    append_bytes(buffer, s5.as_str().as_bytes());
    Ok(())
}


/// The `add` candidates are the local and remote branches that are not
/// checked out in a worktree: no branch with a worktree is offered, and
/// every other branch is.
pub proof fn lemma_add_candidates_members(
    local: Seq<Seq<char>>,
    remote: Seq<Seq<char>>,
    es: Seq<EntryView>,
    x: Seq<char>,
)
    ensures
        add_candidates(local, remote, es).contains(x) <==> ((local.contains(x) || remote.contains(x))
            && !worktree_branch_names(es).contains(x)),
{
    let active = worktree_branch_names(es);
    let a = not_in(local, active);
    let b = not_in(not_in(remote, active), local);
    lemma_not_in_members(local, active, x);
    lemma_not_in_members(remote, active, x);
    lemma_not_in_members(not_in(remote, active), local, x);
    if (a + b).contains(x) {
        let i = choose|i: int| 0 <= i < (a + b).len() && (a + b)[i] == x;
        if i < a.len() {
            assert(a[i] == x);
        } else {
            assert(b[i - a.len()] == x);
        }
    }
    if a.contains(x) {
        let i = choose|i: int| 0 <= i < a.len() && a[i] == x;
        assert((a + b)[i] == x);
    }
    if b.contains(x) {
        let i = choose|i: int| 0 <= i < b.len() && b[i] == x;
        assert((a + b)[i + a.len()] == x);
    }
}

/// `dedup(xs)` holds each name of `xs` exactly once, and nothing else.
pub proof fn lemma_dedup_members(xs: Seq<Seq<char>>, x: Seq<char>)
    ensures
        dedup(xs).contains(x) <==> xs.contains(x),
        dedup(xs).no_duplicates(),
    decreases xs.len(),
{
    if xs.len() > 0 {
        lemma_dedup_members(xs.drop_last(), x);
        lemma_dedup_members(xs.drop_last(), xs.last());
        let d = dedup(xs.drop_last());
        if xs.drop_last().contains(x) {
            let i = choose|i: int| 0 <= i < xs.drop_last().len() && xs.drop_last()[i] == x;
            assert(xs[i] == x);
        }
        if xs.contains(x) && x != xs.last() {
            let i = choose|i: int| 0 <= i < xs.len() && xs[i] == x;
            assert(xs.drop_last()[i] == x);
        }
        if !d.contains(xs.last()) {
            let e = d.push(xs.last());
            assert(e.last() == xs.last());
            if d.contains(x) {
                let i = choose|i: int| 0 <= i < d.len() && d[i] == x;
                assert(e[i] == x);
            }
            if e.contains(x) {
                let i = choose|i: int| 0 <= i < e.len() && e[i] == x;
                if i < d.len() {
                    assert(d[i] == x);
                }
            }
            assert forall|i: int, j: int| 0 <= i < e.len() && 0 <= j < e.len() && i != j implies e[i]
                != e[j] by {
                if i < d.len() && j < d.len() {
                } else if i < d.len() {
                    assert(d[i] == e[i]);
                } else {
                    assert(d[j] == e[j]);
                }
            }
        }
    }
}

/// The `base` candidates list every local and remote branch once.
pub proof fn lemma_base_candidates(local: Seq<Seq<char>>, remote: Seq<Seq<char>>, x: Seq<char>)
    ensures
        dedup(local + remote).contains(x) <==> (local.contains(x) || remote.contains(x)),
        dedup(local + remote).no_duplicates(),
{
    lemma_dedup_members(local + remote, x);
    let a = local + remote;
    if a.contains(x) {
        let i = choose|i: int| 0 <= i < a.len() && a[i] == x;
        if i < local.len() {
            assert(local[i] == x);
        } else {
            assert(remote[i - local.len()] == x);
        }
    }
    if local.contains(x) {
        let i = choose|i: int| 0 <= i < local.len() && local[i] == x;
        assert(a[i] == x);
    }
    if remote.contains(x) {
        let i = choose|i: int| 0 <= i < remote.len() && remote[i] == x;
        assert(a[i + local.len()] == x);
    }
}


/// Two texts that start alike, whose first character recurs in neither, and
/// that differ at `d` keep apart under replacement.
proof fn lemma_pair_separates(w: Seq<char>, to: Seq<char>, d: int)
    requires
        w.len() > 0,
        to.len() > 0,
        w[0] == to[0],
        forall|k: int| 1 <= k < w.len() ==> #[trigger] w[k] != w[0],
        forall|j: int| 1 <= j < to.len() ==> #[trigger] to[j] != to[0],
        0 <= d < w.len(),
        d < to.len(),
        w[d] != to[d],
    ensures
        replacement_separates(w, to),
{
    if to.len() >= w.len() && to.subrange(0, w.len() as int) == w {
        assert(to.subrange(0, w.len() as int)[d] == to[d]);
    }
    if w.len() >= to.len() && w.subrange(0, to.len() as int) == to {
        assert(w.subrange(0, to.len() as int)[d] == w[d]);
    }
}

/// The zsh rewrite's patterns and replacements pairwise keep apart
/// ([`replacement_separates`]) wherever one step could touch another's text.
proof fn lemma_zsh_separations()
    ensures
        replacement_separates("Branch name to create a worktree for:_default"@, "Branch name to create a worktree for:_gitree_complete_add"@),
        replacement_separates("Branch name to create a worktree for:_default"@, "BASE:_gitree_complete_base"@),
        replacement_separates("Branch name to create a worktree for:_default"@, "Branch name whose worktree to remove:_gitree_complete_remove"@),
        replacement_separates("Branch name to create a worktree for:_default"@, "Branch name to switch to:_gitree_complete_switch"@),
        replacement_separates("Branch name to create a worktree for:_default"@, "Branch name:_gitree_complete_where"@),
        replacement_separates("Branch name to create a worktree for:_gitree_complete_add"@, "BASE:_default"@),
        replacement_separates("Branch name to create a worktree for:_gitree_complete_add"@, "Branch name whose worktree to remove:_default"@),
        replacement_separates("Branch name to create a worktree for:_gitree_complete_add"@, "Branch name to switch to:_default"@),
        replacement_separates("Branch name to create a worktree for:_gitree_complete_add"@, "Branch name:_default"@),
        replacement_separates("BASE:_default"@, "BASE:_gitree_complete_base"@),
        replacement_separates("BASE:_default"@, "Branch name whose worktree to remove:_gitree_complete_remove"@),
        replacement_separates("BASE:_default"@, "Branch name to switch to:_gitree_complete_switch"@),
        replacement_separates("BASE:_default"@, "Branch name:_gitree_complete_where"@),
        replacement_separates("BASE:_default"@, "Branch name to create a worktree for:_default"@),
        replacement_separates("BASE:_gitree_complete_base"@, "Branch name whose worktree to remove:_default"@),
        replacement_separates("BASE:_gitree_complete_base"@, "Branch name to switch to:_default"@),
        replacement_separates("BASE:_gitree_complete_base"@, "Branch name:_default"@),
        replacement_separates("Branch name whose worktree to remove:_default"@, "Branch name whose worktree to remove:_gitree_complete_remove"@),
        replacement_separates("Branch name whose worktree to remove:_default"@, "Branch name to switch to:_gitree_complete_switch"@),
        replacement_separates("Branch name whose worktree to remove:_default"@, "Branch name:_gitree_complete_where"@),
        replacement_separates("Branch name whose worktree to remove:_default"@, "Branch name to create a worktree for:_default"@),
        replacement_separates("Branch name whose worktree to remove:_default"@, "BASE:_default"@),
        replacement_separates("Branch name whose worktree to remove:_gitree_complete_remove"@, "Branch name to switch to:_default"@),
        replacement_separates("Branch name whose worktree to remove:_gitree_complete_remove"@, "Branch name:_default"@),
        replacement_separates("Branch name to switch to:_default"@, "Branch name to switch to:_gitree_complete_switch"@),
        replacement_separates("Branch name to switch to:_default"@, "Branch name:_gitree_complete_where"@),
        replacement_separates("Branch name to switch to:_default"@, "Branch name to create a worktree for:_default"@),
        replacement_separates("Branch name to switch to:_default"@, "BASE:_default"@),
        replacement_separates("Branch name to switch to:_default"@, "Branch name whose worktree to remove:_default"@),
        replacement_separates("Branch name to switch to:_gitree_complete_switch"@, "Branch name:_default"@),
        replacement_separates("Branch name:_default"@, "Branch name:_gitree_complete_where"@),
        replacement_separates("Branch name:_default"@, "Branch name to create a worktree for:_default"@),
        replacement_separates("Branch name:_default"@, "BASE:_default"@),
        replacement_separates("Branch name:_default"@, "Branch name whose worktree to remove:_default"@),
        replacement_separates("Branch name:_default"@, "Branch name to switch to:_default"@),
{
    reveal_strlit("Branch name to create a worktree for:_default");
    reveal_strlit("BASE:_default");
    reveal_strlit("Branch name whose worktree to remove:_default");
    reveal_strlit("Branch name to switch to:_default");
    reveal_strlit("Branch name:_default");
    reveal_strlit("Branch name to create a worktree for:_gitree_complete_add");
    reveal_strlit("BASE:_gitree_complete_base");
    reveal_strlit("Branch name whose worktree to remove:_gitree_complete_remove");
    reveal_strlit("Branch name to switch to:_gitree_complete_switch");
    reveal_strlit("Branch name:_gitree_complete_where");
    assert forall|k: int| 1 <= k < "Branch name to create a worktree for:_default"@.len() implies #[trigger] "Branch name to create a worktree for:_default"@[k] != "Branch name to create a worktree for:_default"@[0] by {}
    assert forall|k: int| 1 <= k < "BASE:_default"@.len() implies #[trigger] "BASE:_default"@[k] != "BASE:_default"@[0] by {}
    assert forall|k: int| 1 <= k < "Branch name whose worktree to remove:_default"@.len() implies #[trigger] "Branch name whose worktree to remove:_default"@[k] != "Branch name whose worktree to remove:_default"@[0] by {}
    assert forall|k: int| 1 <= k < "Branch name to switch to:_default"@.len() implies #[trigger] "Branch name to switch to:_default"@[k] != "Branch name to switch to:_default"@[0] by {}
    assert forall|k: int| 1 <= k < "Branch name:_default"@.len() implies #[trigger] "Branch name:_default"@[k] != "Branch name:_default"@[0] by {}
    assert forall|k: int| 1 <= k < "Branch name to create a worktree for:_gitree_complete_add"@.len() implies #[trigger] "Branch name to create a worktree for:_gitree_complete_add"@[k] != "Branch name to create a worktree for:_gitree_complete_add"@[0] by {}
    assert forall|k: int| 1 <= k < "BASE:_gitree_complete_base"@.len() implies #[trigger] "BASE:_gitree_complete_base"@[k] != "BASE:_gitree_complete_base"@[0] by {}
    assert forall|k: int| 1 <= k < "Branch name whose worktree to remove:_gitree_complete_remove"@.len() implies #[trigger] "Branch name whose worktree to remove:_gitree_complete_remove"@[k] != "Branch name whose worktree to remove:_gitree_complete_remove"@[0] by {}
    assert forall|k: int| 1 <= k < "Branch name to switch to:_gitree_complete_switch"@.len() implies #[trigger] "Branch name to switch to:_gitree_complete_switch"@[k] != "Branch name to switch to:_gitree_complete_switch"@[0] by {}
    assert forall|k: int| 1 <= k < "Branch name:_gitree_complete_where"@.len() implies #[trigger] "Branch name:_gitree_complete_where"@[k] != "Branch name:_gitree_complete_where"@[0] by {}
    lemma_pair_separates("Branch name to create a worktree for:_default"@, "Branch name to create a worktree for:_gitree_complete_add"@, 38);
    lemma_pair_separates("Branch name to create a worktree for:_default"@, "BASE:_gitree_complete_base"@, 1);
    lemma_pair_separates("Branch name to create a worktree for:_default"@, "Branch name whose worktree to remove:_gitree_complete_remove"@, 12);
    lemma_pair_separates("Branch name to create a worktree for:_default"@, "Branch name to switch to:_gitree_complete_switch"@, 15);
    lemma_pair_separates("Branch name to create a worktree for:_default"@, "Branch name:_gitree_complete_where"@, 11);
    lemma_pair_separates("Branch name to create a worktree for:_gitree_complete_add"@, "BASE:_default"@, 1);
    lemma_pair_separates("Branch name to create a worktree for:_gitree_complete_add"@, "Branch name whose worktree to remove:_default"@, 12);
    lemma_pair_separates("Branch name to create a worktree for:_gitree_complete_add"@, "Branch name to switch to:_default"@, 15);
    lemma_pair_separates("Branch name to create a worktree for:_gitree_complete_add"@, "Branch name:_default"@, 11);
    lemma_pair_separates("BASE:_default"@, "BASE:_gitree_complete_base"@, 6);
    lemma_pair_separates("BASE:_default"@, "Branch name whose worktree to remove:_gitree_complete_remove"@, 1);
    lemma_pair_separates("BASE:_default"@, "Branch name to switch to:_gitree_complete_switch"@, 1);
    lemma_pair_separates("BASE:_default"@, "Branch name:_gitree_complete_where"@, 1);
    lemma_pair_separates("BASE:_default"@, "Branch name to create a worktree for:_default"@, 1);
    lemma_pair_separates("BASE:_gitree_complete_base"@, "Branch name whose worktree to remove:_default"@, 1);
    lemma_pair_separates("BASE:_gitree_complete_base"@, "Branch name to switch to:_default"@, 1);
    lemma_pair_separates("BASE:_gitree_complete_base"@, "Branch name:_default"@, 1);
    lemma_pair_separates("Branch name whose worktree to remove:_default"@, "Branch name whose worktree to remove:_gitree_complete_remove"@, 38);
    lemma_pair_separates("Branch name whose worktree to remove:_default"@, "Branch name to switch to:_gitree_complete_switch"@, 12);
    lemma_pair_separates("Branch name whose worktree to remove:_default"@, "Branch name:_gitree_complete_where"@, 11);
    lemma_pair_separates("Branch name whose worktree to remove:_default"@, "Branch name to create a worktree for:_default"@, 12);
    lemma_pair_separates("Branch name whose worktree to remove:_default"@, "BASE:_default"@, 1);
    lemma_pair_separates("Branch name whose worktree to remove:_gitree_complete_remove"@, "Branch name to switch to:_default"@, 12);
    lemma_pair_separates("Branch name whose worktree to remove:_gitree_complete_remove"@, "Branch name:_default"@, 11);
    lemma_pair_separates("Branch name to switch to:_default"@, "Branch name to switch to:_gitree_complete_switch"@, 26);
    lemma_pair_separates("Branch name to switch to:_default"@, "Branch name:_gitree_complete_where"@, 11);
    lemma_pair_separates("Branch name to switch to:_default"@, "Branch name to create a worktree for:_default"@, 15);
    lemma_pair_separates("Branch name to switch to:_default"@, "BASE:_default"@, 1);
    lemma_pair_separates("Branch name to switch to:_default"@, "Branch name whose worktree to remove:_default"@, 12);
    lemma_pair_separates("Branch name to switch to:_gitree_complete_switch"@, "Branch name:_default"@, 11);
    lemma_pair_separates("Branch name:_default"@, "Branch name:_gitree_complete_where"@, 13);
    lemma_pair_separates("Branch name:_default"@, "Branch name to create a worktree for:_default"@, 11);
    lemma_pair_separates("Branch name:_default"@, "BASE:_default"@, 1);
    lemma_pair_separates("Branch name:_default"@, "Branch name whose worktree to remove:_default"@, 11);
    lemma_pair_separates("Branch name:_default"@, "Branch name to switch to:_default"@, 11);
}

/// Gitree's zsh rewrite leaves no `_default` action on any branch
/// positional or on `--base`: none of the five patterns survives, and each
/// one that the generated script holds is replaced by its helper.
pub proof fn lemma_zsh_rewrite_targets(s: Seq<char>)
    ensures
        !contains(zsh_rewrite(s), "Branch name to create a worktree for:_default"@),
        contains(s, "Branch name to create a worktree for:_default"@) ==> contains(zsh_rewrite(s), "Branch name to create a worktree for:_gitree_complete_add"@),
        !contains(zsh_rewrite(s), "BASE:_default"@),
        contains(s, "BASE:_default"@) ==> contains(zsh_rewrite(s), "BASE:_gitree_complete_base"@),
        !contains(zsh_rewrite(s), "Branch name whose worktree to remove:_default"@),
        contains(s, "Branch name whose worktree to remove:_default"@) ==> contains(zsh_rewrite(s), "Branch name whose worktree to remove:_gitree_complete_remove"@),
        !contains(zsh_rewrite(s), "Branch name to switch to:_default"@),
        contains(s, "Branch name to switch to:_default"@) ==> contains(zsh_rewrite(s), "Branch name to switch to:_gitree_complete_switch"@),
        !contains(zsh_rewrite(s), "Branch name:_default"@),
        contains(s, "Branch name:_default"@) ==> contains(zsh_rewrite(s), "Branch name:_gitree_complete_where"@),
{
    lemma_zsh_separations();
    let x0 = s;
    let x1 = replace(x0, "Branch name to create a worktree for:_default"@, "Branch name to create a worktree for:_gitree_complete_add"@);
    let x2 = replace(x1, "BASE:_default"@, "BASE:_gitree_complete_base"@);
    let x3 = replace(x2, "Branch name whose worktree to remove:_default"@, "Branch name whose worktree to remove:_gitree_complete_remove"@);
    let x4 = replace(x3, "Branch name to switch to:_default"@, "Branch name to switch to:_gitree_complete_switch"@);
    let x5 = replace(x4, "Branch name:_default"@, "Branch name:_gitree_complete_where"@);
    assert(zsh_rewrite(s) == x5);
    lemma_replace_leaves_none(x0, "Branch name to create a worktree for:_default"@, "Branch name to create a worktree for:_default"@, "Branch name to create a worktree for:_gitree_complete_add"@);
    lemma_replace_leaves_none(x1, "Branch name to create a worktree for:_default"@, "BASE:_default"@, "BASE:_gitree_complete_base"@);
    lemma_replace_leaves_none(x2, "Branch name to create a worktree for:_default"@, "Branch name whose worktree to remove:_default"@, "Branch name whose worktree to remove:_gitree_complete_remove"@);
    lemma_replace_leaves_none(x3, "Branch name to create a worktree for:_default"@, "Branch name to switch to:_default"@, "Branch name to switch to:_gitree_complete_switch"@);
    lemma_replace_leaves_none(x4, "Branch name to create a worktree for:_default"@, "Branch name:_default"@, "Branch name:_gitree_complete_where"@);
    if contains(s, "Branch name to create a worktree for:_default"@) {
        lemma_replace_puts(x0, "Branch name to create a worktree for:_default"@, "Branch name to create a worktree for:_gitree_complete_add"@);
        lemma_replace_keeps(x1, "Branch name to create a worktree for:_gitree_complete_add"@, "BASE:_default"@, "BASE:_gitree_complete_base"@);
        lemma_replace_keeps(x2, "Branch name to create a worktree for:_gitree_complete_add"@, "Branch name whose worktree to remove:_default"@, "Branch name whose worktree to remove:_gitree_complete_remove"@);
        lemma_replace_keeps(x3, "Branch name to create a worktree for:_gitree_complete_add"@, "Branch name to switch to:_default"@, "Branch name to switch to:_gitree_complete_switch"@);
        lemma_replace_keeps(x4, "Branch name to create a worktree for:_gitree_complete_add"@, "Branch name:_default"@, "Branch name:_gitree_complete_where"@);
    }
    lemma_replace_leaves_none(x1, "BASE:_default"@, "BASE:_default"@, "BASE:_gitree_complete_base"@);
    lemma_replace_leaves_none(x2, "BASE:_default"@, "Branch name whose worktree to remove:_default"@, "Branch name whose worktree to remove:_gitree_complete_remove"@);
    lemma_replace_leaves_none(x3, "BASE:_default"@, "Branch name to switch to:_default"@, "Branch name to switch to:_gitree_complete_switch"@);
    lemma_replace_leaves_none(x4, "BASE:_default"@, "Branch name:_default"@, "Branch name:_gitree_complete_where"@);
    if contains(s, "BASE:_default"@) {
        lemma_replace_keeps(x0, "BASE:_default"@, "Branch name to create a worktree for:_default"@, "Branch name to create a worktree for:_gitree_complete_add"@);
        lemma_replace_puts(x1, "BASE:_default"@, "BASE:_gitree_complete_base"@);
        lemma_replace_keeps(x2, "BASE:_gitree_complete_base"@, "Branch name whose worktree to remove:_default"@, "Branch name whose worktree to remove:_gitree_complete_remove"@);
        lemma_replace_keeps(x3, "BASE:_gitree_complete_base"@, "Branch name to switch to:_default"@, "Branch name to switch to:_gitree_complete_switch"@);
        lemma_replace_keeps(x4, "BASE:_gitree_complete_base"@, "Branch name:_default"@, "Branch name:_gitree_complete_where"@);
    }
    lemma_replace_leaves_none(x2, "Branch name whose worktree to remove:_default"@, "Branch name whose worktree to remove:_default"@, "Branch name whose worktree to remove:_gitree_complete_remove"@);
    lemma_replace_leaves_none(x3, "Branch name whose worktree to remove:_default"@, "Branch name to switch to:_default"@, "Branch name to switch to:_gitree_complete_switch"@);
    lemma_replace_leaves_none(x4, "Branch name whose worktree to remove:_default"@, "Branch name:_default"@, "Branch name:_gitree_complete_where"@);
    if contains(s, "Branch name whose worktree to remove:_default"@) {
        lemma_replace_keeps(x0, "Branch name whose worktree to remove:_default"@, "Branch name to create a worktree for:_default"@, "Branch name to create a worktree for:_gitree_complete_add"@);
        lemma_replace_keeps(x1, "Branch name whose worktree to remove:_default"@, "BASE:_default"@, "BASE:_gitree_complete_base"@);
        lemma_replace_puts(x2, "Branch name whose worktree to remove:_default"@, "Branch name whose worktree to remove:_gitree_complete_remove"@);
        lemma_replace_keeps(x3, "Branch name whose worktree to remove:_gitree_complete_remove"@, "Branch name to switch to:_default"@, "Branch name to switch to:_gitree_complete_switch"@);
        lemma_replace_keeps(x4, "Branch name whose worktree to remove:_gitree_complete_remove"@, "Branch name:_default"@, "Branch name:_gitree_complete_where"@);
    }
    lemma_replace_leaves_none(x3, "Branch name to switch to:_default"@, "Branch name to switch to:_default"@, "Branch name to switch to:_gitree_complete_switch"@);
    lemma_replace_leaves_none(x4, "Branch name to switch to:_default"@, "Branch name:_default"@, "Branch name:_gitree_complete_where"@);
    if contains(s, "Branch name to switch to:_default"@) {
        lemma_replace_keeps(x0, "Branch name to switch to:_default"@, "Branch name to create a worktree for:_default"@, "Branch name to create a worktree for:_gitree_complete_add"@);
        lemma_replace_keeps(x1, "Branch name to switch to:_default"@, "BASE:_default"@, "BASE:_gitree_complete_base"@);
        lemma_replace_keeps(x2, "Branch name to switch to:_default"@, "Branch name whose worktree to remove:_default"@, "Branch name whose worktree to remove:_gitree_complete_remove"@);
        lemma_replace_puts(x3, "Branch name to switch to:_default"@, "Branch name to switch to:_gitree_complete_switch"@);
        lemma_replace_keeps(x4, "Branch name to switch to:_gitree_complete_switch"@, "Branch name:_default"@, "Branch name:_gitree_complete_where"@);
    }
    lemma_replace_leaves_none(x4, "Branch name:_default"@, "Branch name:_default"@, "Branch name:_gitree_complete_where"@);
    if contains(s, "Branch name:_default"@) {
        lemma_replace_keeps(x0, "Branch name:_default"@, "Branch name to create a worktree for:_default"@, "Branch name to create a worktree for:_gitree_complete_add"@);
        lemma_replace_keeps(x1, "Branch name:_default"@, "BASE:_default"@, "BASE:_gitree_complete_base"@);
        lemma_replace_keeps(x2, "Branch name:_default"@, "Branch name whose worktree to remove:_default"@, "Branch name whose worktree to remove:_gitree_complete_remove"@);
        lemma_replace_keeps(x3, "Branch name:_default"@, "Branch name to switch to:_default"@, "Branch name to switch to:_gitree_complete_switch"@);
        lemma_replace_puts(x4, "Branch name:_default"@, "Branch name:_gitree_complete_where"@);
    }
}

} // verus!
