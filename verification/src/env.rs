//! `gitree env <shell>` — shell integration script generation.
//!
//! The scripts define `<alias>()` (dispatcher) and `<alias>sw` (switch with
//! native `cd`), and wire up shell completions so that `<alias>` delegates to
//! the `gitree` completion function installed via `gitree completion <shell>`.

use vstd::prelude::*;

use crate::error::{ErrorView, GitreeError, Result};
use crate::text::{chars_of, contains, copy_str, occurs_at, push_str, same_text};

verus! {

/// An ASCII letter.
pub open spec fn is_ascii_letter(c: char) -> bool {
    ('a' <= c && c <= 'z') || ('A' <= c && c <= 'Z')
}

/// A character allowed after the first one of an alias: an ASCII letter or
/// digit, or `_`.
pub open spec fn is_alias_char(c: char) -> bool {
    is_ascii_letter(c) || ('0' <= c && c <= '9') || c == '_'
}

/// Why `alias` is not a safe shell identifier, or `None` if it is one: it
/// must be non-empty, start with an ASCII letter or `_`, and continue with
/// ASCII letters, digits or `_`.
pub open spec fn alias_error(alias: Seq<char>) -> Option<Seq<char>> {
    if alias.len() == 0 {
        Some("alias name must not be empty"@)
    } else if !(is_ascii_letter(alias[0]) || alias[0] == '_') {
        Some("alias name must start with a letter or underscore: '"@ + alias + "'"@)
    } else if exists|i: int| 1 <= i < alias.len() && !is_alias_char(#[trigger] alias[i]) {
        Some("alias name may only contain letters, digits, or underscores: '"@ + alias + "'"@)
    } else {
        None
    }
}

/// Validates that an alias name is a safe shell identifier.
///
/// This prevents injection of arbitrary shell commands through `--alias`.
pub fn validate_alias(alias: &str) -> (r: Result<()>)
    ensures
        match alias_error(alias@) {
            None => r is Ok,
            Some(m) => r matches Err(e) && e@ == ErrorView::Other(m),
        },
{
    let v = chars_of(alias);
    let mut m = String::new();
    if v.len() == 0 {
        push_str(&mut m, "alias name must not be empty");
        return Err(GitreeError::Other(m));
    }
    let first = v[0];
    if !(('a' <= first && first <= 'z') || ('A' <= first && first <= 'Z') || first == '_') {
        push_str(&mut m, "alias name must start with a letter or underscore: '");
        push_str(&mut m, alias);
        push_str(&mut m, "'");
        return Err(GitreeError::Other(m));
    }
    let mut i: usize = 1;
    while i < v.len()
        invariant
            1 <= i <= v@.len(),
            v@ == alias@,
            forall|k: int| 1 <= k < i ==> is_alias_char(v@[k]),
            m@ == Seq::<char>::empty(),
            is_ascii_letter(v@[0]) || v@[0] == '_',
        decreases v.len() - i,
    {
        let c = v[i];
        if !(('a' <= c && c <= 'z') || ('A' <= c && c <= 'Z') || ('0' <= c && c <= '9') || c
            == '_') {
            assert(!is_alias_char(alias@[i as int]));
            push_str(&mut m, "alias name may only contain letters, digits, or underscores: '");
            push_str(&mut m, alias);
            push_str(&mut m, "'");
            return Err(GitreeError::Other(m));
        }
        i = i + 1;
    }
    Ok(())
}

/// The switch alias for `alias`: `<alias>sw`.
pub open spec fn switch_alias_text(alias: Seq<char>) -> Seq<char> {
    alias + "sw"@
}

/// The name of the lazily-loading bash completion function: `_<alias>_complete`.
pub open spec fn lazy_completion_name(alias: Seq<char>) -> Seq<char> {
    "_"@ + alias + "_complete"@
}

/// Builds the switch alias name from the base alias (e.g. `gtr` -> `gtrsw`).
pub fn switch_alias(alias: &str) -> (s: String)
    ensures
        s@ == switch_alias_text(alias@),
{
    let mut s = copy_str(alias);
    push_str(&mut s, "sw");
    s
}

/// The bash completion function name for `alias`.
pub fn lazy_completion(alias: &str) -> (s: String)
    ensures
        s@ == lazy_completion_name(alias@),
{
    let mut s = String::new();
    push_str(&mut s, "_");
    push_str(&mut s, alias);
    push_str(&mut s, "_complete");
    s
}

/// The script `gitree env <shell> --alias <alias>` prints, or why there is
/// none.
pub open spec fn env_script_text(shell: Seq<char>, alias: Seq<char>) -> core::result::Result<
    Seq<char>,
    Seq<char>,
> {
    match alias_error(alias) {
        Some(m) => Err(m),
        None => if shell == "bash"@ {
            Ok(bash_script_text(alias))
        } else if shell == "zsh"@ {
            Ok(zsh_script_text(alias))
        } else if shell == "fish"@ {
            Ok(fish_script_text(alias))
        } else if shell == "posix"@ || shell == "sh"@ {
            Ok(posix_script_text(alias))
        } else {
            Err("unsupported shell '"@ + shell + "'. Supported: bash, zsh, fish, posix"@)
        },
    }
}

/// Generates the shell integration script for `shell` (`bash`, `zsh`,
/// `fish`, `posix` or `sh`) with the function name `alias`.
///
/// Fails with [`GitreeError::Other`] when the alias is not a safe shell
/// identifier or the shell is not supported.
pub fn env_script(shell: &str, alias: &str) -> (r: Result<String>)
    ensures
        match env_script_text(shell@, alias@) {
            Ok(t) => r matches Ok(s) && s@ == t,
            Err(m) => r matches Err(e) && e@ == ErrorView::Other(m),
        },
{
    match validate_alias(alias) {
        Ok(()) => {},
        Err(e) => return Err(e),
    }
    if same_text(shell, "bash") {
        Ok(bash_script(alias))
    } else if same_text(shell, "zsh") {
        Ok(zsh_script(alias))
    } else if same_text(shell, "fish") {
        Ok(fish_script(alias))
    } else if same_text(shell, "posix") || same_text(shell, "sh") {
        Ok(posix_script(alias))
    } else {
        let mut m = String::new();
        push_str(&mut m, "unsupported shell '");
        push_str(&mut m, shell);
        push_str(&mut m, "'. Supported: bash, zsh, fish, posix");
        Err(GitreeError::Other(m))
    }
}

/// Part of the bash zsh core text.
pub const BASH_ZSH_CORE_1: &'static str = "# ";

/// Part of the bash zsh core text.
pub const BASH_ZSH_CORE_2: &'static str = "() — dispatcher: `";

/// Part of the bash zsh core text.
pub const BASH_ZSH_CORE_3: &'static str = " sw <branch>` does native cd, everything\n# else passes through to gitree.\n";

/// Part of the bash zsh core text.
pub const BASH_ZSH_CORE_4: &'static str = "() {\n    if [[ \"$1\" == \"sw\" || \"$1\" == \"switch\" ]]; then\n        shift\n        local result\n        result=$(gitree switch \"$@\") && eval \"$result\"\n    else\n        gitree \"$@\"\n    fi\n}\n\n# ";

/// Part of the bash zsh core text.
pub const BASH_ZSH_CORE_5: &'static str = " — switch to a worktree (changes directory natively)\nalias ";

/// Part of the bash zsh core text.
pub const BASH_ZSH_CORE_6: &'static str = "='";

/// Part of the bash zsh core text.
pub const BASH_ZSH_CORE_7: &'static str = " sw'\n";

/// Part of the bash script text.
pub const BASH_1: &'static str = "# gitree shell integration for bash\n# Usage: eval \"$(gitree env bash)\"\n\n";

/// Part of the bash script text.
pub const BASH_2: &'static str = "\n# Completions: ";

/// Part of the bash script text.
pub const BASH_3: &'static str = " delegates to the gitree bash completion function\n# (installed via `gitree completion bash`).  The completion file is loaded\n# lazily because it may not be sourced yet when ";

/// Part of the bash script text.
pub const BASH_4: &'static str = " is first completed.\n";

/// Part of the bash script text.
pub const BASH_5: &'static str = "() {\n    if ! declare -F _gitree >/dev/null 2>&1; then\n        local f\n        for f in \\\n            \"${XDG_DATA_HOME:-$HOME/.local/share}/bash-completion/completions/gitree\" \\\n            \"/usr/share/bash-completion/completions/gitree\" \\\n            \"/etc/bash_completion.d/gitree\"; do\n            [[ -f \"$f\" ]] && source \"$f\" && break\n        done\n    fi\n    if declare -F _gitree >/dev/null 2>&1; then\n        _gitree \"$@\"\n    fi\n}\ncomplete -F ";

/// Part of the bash script text.
pub const BASH_6: &'static str = " ";

/// Part of the bash script text.
pub const BASH_7: &'static str = "\n";

/// Part of the zsh script text.
pub const ZSH_1: &'static str = "# gitree shell integration for zsh\n# Usage: eval \"$(gitree env zsh)\"\n\n";

/// Part of the zsh script text.
pub const ZSH_2: &'static str = "\n# Completions: ";

/// Part of the zsh script text.
pub const ZSH_3: &'static str = " delegates to the gitree zsh completion function\n# (installed via `gitree completion zsh`).  `compdef` is available after\n# `compinit`; guard in case this script is sourced before compinit runs.\nif command -v compdef >/dev/null 2>&1; then\n    compdef _gitree ";

/// Part of the zsh script text.
pub const ZSH_4: &'static str = "\nfi\n";

/// Part of the fish script text.
pub const FISH_1: &'static str = "# gitree shell integration for fish\n# Usage: gitree env fish | source\n\n# ";

/// Part of the fish script text.
pub const FISH_2: &'static str = "() — dispatcher: `";

/// Part of the fish script text.
pub const FISH_3: &'static str = " sw <branch>` does native cd, everything\n# else passes through to gitree.\nfunction ";

/// Part of the fish script text.
pub const FISH_4: &'static str = "\n    switch $argv[1]\n        case sw switch\n            gitree switch $argv[2..] | source\n        case '*'\n            gitree $argv\n    end\nend\n\n# ";

/// Part of the fish script text.
pub const FISH_5: &'static str = " — switch to a worktree (changes directory natively).\n# Defined as a function (not `alias ";

/// Part of the fish script text.
pub const FISH_6: &'static str = "=\"";

/// Part of the fish script text.
pub const FISH_7: &'static str = " sw\"`) so that its\n# `--wraps` is `gitree switch`, giving branch-name TAB completion.  An alias\n# would set `--wraps` to `";

/// Part of the fish script text.
pub const FISH_8: &'static str = " sw`, and clap's fish completions only match\n# the canonical subcommand name `switch`, so branch completion would never\n# fire.\nfunction ";

/// Part of the fish script text.
pub const FISH_9: &'static str = " --wraps='gitree switch' --description='switch to a worktree'\n    ";

/// Part of the fish script text.
pub const FISH_10: &'static str = " sw $argv\nend\n\n# Completion: ";

/// Part of the fish script text.
pub const FISH_11: &'static str = " delegates to gitree.  The gitree.fish completion rules\n# (installed via `gitree completion fish`) are applied to ";

/// Part of the fish script text.
pub const FISH_12: &'static str = " via fish's\n# --wraps mechanism.\ncomplete --command ";

/// Part of the fish script text.
pub const FISH_13: &'static str = " --wraps gitree\n";

/// Part of the posix script text.
pub const POSIX_1: &'static str = "# gitree shell integration for POSIX shells\n# Usage: eval \"$(gitree env posix)\"\n\n# ";

/// Part of the posix script text.
pub const POSIX_2: &'static str = "() — dispatcher: `";

/// Part of the posix script text.
pub const POSIX_3: &'static str = " sw <branch>` does native cd, everything\n# else passes through to gitree.\n";

/// Part of the posix script text.
pub const POSIX_4: &'static str = "() {\n    if [ \"$1\" = \"sw\" ] || [ \"$1\" = \"switch\" ]; then\n        shift\n        result=$(gitree switch \"$@\") && eval \"$result\"\n    else\n        gitree \"$@\"\n    fi\n}\n\n# ";

/// Part of the posix script text.
pub const POSIX_5: &'static str = " — switch to a worktree (changes directory natively)\nalias ";

/// Part of the posix script text.
pub const POSIX_6: &'static str = "='";

/// Part of the posix script text.
pub const POSIX_7: &'static str = " sw'\n";

/// The text `bash_zsh_core` produces for `alias`.
pub open spec fn bash_zsh_core_text(alias: Seq<char>) -> Seq<char> {
    BASH_ZSH_CORE_1@
        + alias
        + BASH_ZSH_CORE_2@
        + alias
        + BASH_ZSH_CORE_3@
        + alias
        + BASH_ZSH_CORE_4@
        + switch_alias_text(alias)
        + BASH_ZSH_CORE_5@
        + switch_alias_text(alias)
        + BASH_ZSH_CORE_6@
        + alias
        + BASH_ZSH_CORE_7@
}

/// The text `bash_script` produces for `alias`.
pub open spec fn bash_script_text(alias: Seq<char>) -> Seq<char> {
    BASH_1@
        + bash_zsh_core_text(alias)
        + BASH_2@
        + alias
        + BASH_3@
        + alias
        + BASH_4@
        + lazy_completion_name(alias)
        + BASH_5@
        + lazy_completion_name(alias)
        + BASH_6@
        + alias
        + BASH_7@
}

/// The text `zsh_script` produces for `alias`.
pub open spec fn zsh_script_text(alias: Seq<char>) -> Seq<char> {
    ZSH_1@
        + bash_zsh_core_text(alias)
        + ZSH_2@
        + alias
        + ZSH_3@
        + alias
        + ZSH_4@
}

/// The text `fish_script` produces for `alias`.
pub open spec fn fish_script_text(alias: Seq<char>) -> Seq<char> {
    FISH_1@
        + alias
        + FISH_2@
        + alias
        + FISH_3@
        + alias
        + FISH_4@
        + switch_alias_text(alias)
        + FISH_5@
        + switch_alias_text(alias)
        + FISH_6@
        + alias
        + FISH_7@
        + alias
        + FISH_8@
        + switch_alias_text(alias)
        + FISH_9@
        + alias
        + FISH_10@
        + alias
        + FISH_11@
        + alias
        + FISH_12@
        + alias
        + FISH_13@
}

/// The text `posix_script` produces for `alias`.
pub open spec fn posix_script_text(alias: Seq<char>) -> Seq<char> {
    POSIX_1@
        + alias
        + POSIX_2@
        + alias
        + POSIX_3@
        + alias
        + POSIX_4@
        + switch_alias_text(alias)
        + POSIX_5@
        + switch_alias_text(alias)
        + POSIX_6@
        + alias
        + POSIX_7@
}

/// The bash zsh core text for `alias`.
pub fn bash_zsh_core(alias: &str) -> (s: String)
    ensures
        s@ == bash_zsh_core_text(alias@),
{
    let sw = switch_alias(alias);
    let mut s = String::new();
    push_str(&mut s, BASH_ZSH_CORE_1);
    push_str(&mut s, alias);
    push_str(&mut s, BASH_ZSH_CORE_2);
    push_str(&mut s, alias);
    push_str(&mut s, BASH_ZSH_CORE_3);
    push_str(&mut s, alias);
    push_str(&mut s, BASH_ZSH_CORE_4);
    push_str(&mut s, sw.as_str());
    push_str(&mut s, BASH_ZSH_CORE_5);
    push_str(&mut s, sw.as_str());
    push_str(&mut s, BASH_ZSH_CORE_6);
    push_str(&mut s, alias);
    push_str(&mut s, BASH_ZSH_CORE_7);
    s
}

/// The bash script text for `alias`.
pub fn bash_script(alias: &str) -> (s: String)
    ensures
        s@ == bash_script_text(alias@),
{
    let lazy = lazy_completion(alias);
    let core = bash_zsh_core(alias);
    let mut s = String::new();
    push_str(&mut s, BASH_1);
    push_str(&mut s, core.as_str());
    push_str(&mut s, BASH_2);
    push_str(&mut s, alias);
    push_str(&mut s, BASH_3);
    push_str(&mut s, alias);
    push_str(&mut s, BASH_4);
    push_str(&mut s, lazy.as_str());
    push_str(&mut s, BASH_5);
    push_str(&mut s, lazy.as_str());
    push_str(&mut s, BASH_6);
    push_str(&mut s, alias);
    push_str(&mut s, BASH_7);
    s
}

/// The zsh script text for `alias`.
pub fn zsh_script(alias: &str) -> (s: String)
    ensures
        s@ == zsh_script_text(alias@),
{
    let core = bash_zsh_core(alias);
    let mut s = String::new();
    push_str(&mut s, ZSH_1);
    push_str(&mut s, core.as_str());
    push_str(&mut s, ZSH_2);
    push_str(&mut s, alias);
    push_str(&mut s, ZSH_3);
    push_str(&mut s, alias);
    push_str(&mut s, ZSH_4);
    s
}

/// The fish script text for `alias`.
pub fn fish_script(alias: &str) -> (s: String)
    ensures
        s@ == fish_script_text(alias@),
{
    let sw = switch_alias(alias);
    let mut s = String::new();
    push_str(&mut s, FISH_1);
    push_str(&mut s, alias);
    push_str(&mut s, FISH_2);
    push_str(&mut s, alias);
    push_str(&mut s, FISH_3);
    push_str(&mut s, alias);
    push_str(&mut s, FISH_4);
    push_str(&mut s, sw.as_str());
    push_str(&mut s, FISH_5);
    push_str(&mut s, sw.as_str());
    push_str(&mut s, FISH_6);
    push_str(&mut s, alias);
    push_str(&mut s, FISH_7);
    push_str(&mut s, alias);
    push_str(&mut s, FISH_8);
    push_str(&mut s, sw.as_str());
    push_str(&mut s, FISH_9);
    push_str(&mut s, alias);
    push_str(&mut s, FISH_10);
    push_str(&mut s, alias);
    push_str(&mut s, FISH_11);
    push_str(&mut s, alias);
    push_str(&mut s, FISH_12);
    push_str(&mut s, alias);
    push_str(&mut s, FISH_13);
    s
}

/// The posix script text for `alias`.
pub fn posix_script(alias: &str) -> (s: String)
    ensures
        s@ == posix_script_text(alias@),
{
    let sw = switch_alias(alias);
    let mut s = String::new();
    push_str(&mut s, POSIX_1);
    push_str(&mut s, alias);
    push_str(&mut s, POSIX_2);
    push_str(&mut s, alias);
    push_str(&mut s, POSIX_3);
    push_str(&mut s, alias);
    push_str(&mut s, POSIX_4);
    push_str(&mut s, sw.as_str());
    push_str(&mut s, POSIX_5);
    push_str(&mut s, sw.as_str());
    push_str(&mut s, POSIX_6);
    push_str(&mut s, alias);
    push_str(&mut s, POSIX_7);
    s
}


// ---------------------------------------------------------------------------
// Laws
// ---------------------------------------------------------------------------

proof fn lemma_occurs_in(a: Seq<char>, x: Seq<char>, b: Seq<char>)
    ensures
        contains(a + x + b, x),
{
    let s = a + x + b;
    assert(s.subrange(a.len() as int, (a.len() + x.len()) as int) =~= x);
    assert(occurs_at(s, x, a.len() as int));
}

proof fn lemma_contains_within(a: Seq<char>, s: Seq<char>, b: Seq<char>, x: Seq<char>)
    requires
        contains(s, x),
    ensures
        contains(a + s + b, x),
{
    let i = choose|i: int| occurs_at(s, x, i);
    let t = a + s + b;
    assert(t.subrange(a.len() + i, a.len() + i + x.len()) =~= s.subrange(i, i + x.len()));
    assert(occurs_at(t, x, a.len() + i));
}

/// The start of the definition of the shell function `alias`
/// (bash, zsh, POSIX): `<alias>() {`.
pub open spec fn function_definition(alias: Seq<char>) -> Seq<char> {
    alias + "() {"@
}

/// The definition of the switch alias (bash, zsh, POSIX):
/// `alias <alias>sw='<alias> sw'`.
pub open spec fn switch_alias_definition(alias: Seq<char>) -> Seq<char> {
    "alias "@ + switch_alias_text(alias) + "='"@ + alias + " sw'"@
}

/// The start of the fish function `alias`: `function <alias>` and a line
/// break.
pub open spec fn fish_function_definition(alias: Seq<char>) -> Seq<char> {
    "function "@ + alias + "\n"@
}

/// The start of the fish function `<alias>sw`, which wraps
/// `gitree switch`.
pub open spec fn fish_switch_definition(alias: Seq<char>) -> Seq<char> {
    "function "@ + switch_alias_text(alias) + " --wraps='gitree switch'"@
}

proof fn lemma_core_defines(alias: Seq<char>)
    ensures
        contains(bash_zsh_core_text(alias), function_definition(alias)),
        contains(bash_zsh_core_text(alias), switch_alias_definition(alias)),
{
    reveal_strlit("() {\n    if [[ \"$1\" == \"sw\" || \"$1\" == \"switch\" ]]; then\n        shift\n        local result\n        result=$(gitree switch \"$@\") && eval \"$result\"\n    else\n        gitree \"$@\"\n    fi\n}\n\n# ");
    reveal_strlit(" — switch to a worktree (changes directory natively)\nalias ");
    reveal_strlit("='");
    reveal_strlit(" sw'\n");
    reveal_strlit("() {");
    reveal_strlit("alias ");
    reveal_strlit("='");
    reveal_strlit(" sw'");
    reveal_strlit("\n");
    let sw = switch_alias_text(alias);
    let c4 = BASH_ZSH_CORE_4@;
    let c5 = BASH_ZSH_CORE_5@;
    assert(c4.take(4) =~= "() {"@);
    let t = bash_zsh_core_text(alias);
    let a1 = BASH_ZSH_CORE_1@ + alias + BASH_ZSH_CORE_2@ + alias + BASH_ZSH_CORE_3@;
    let b1 = c4.skip(4) + sw + c5 + sw + BASH_ZSH_CORE_6@ + alias + BASH_ZSH_CORE_7@;
    assert(c4 =~= "() {"@ + c4.skip(4));
    assert(t =~= a1 + function_definition(alias) + b1);
    lemma_occurs_in(a1, function_definition(alias), b1);
    let n5 = c5.len() as int;
    assert(c5 =~= c5.take(n5 - 6) + "alias "@);
    assert(BASH_ZSH_CORE_6@ =~= "='"@);
    assert(BASH_ZSH_CORE_7@ =~= " sw'"@ + "\n"@);
    let a2 = BASH_ZSH_CORE_1@ + alias + BASH_ZSH_CORE_2@ + alias + BASH_ZSH_CORE_3@ + alias + c4 + sw
        + c5.take(n5 - 6);
    assert(t =~= a2 + switch_alias_definition(alias) + "\n"@);
    lemma_occurs_in(a2, switch_alias_definition(alias), "\n"@);
}

proof fn lemma_posix_defines(alias: Seq<char>)
    ensures
        contains(posix_script_text(alias), function_definition(alias)),
        contains(posix_script_text(alias), switch_alias_definition(alias)),
{
    reveal_strlit("() {\n    if [ \"$1\" = \"sw\" ] || [ \"$1\" = \"switch\" ]; then\n        shift\n        result=$(gitree switch \"$@\") && eval \"$result\"\n    else\n        gitree \"$@\"\n    fi\n}\n\n# ");
    reveal_strlit(" — switch to a worktree (changes directory natively)\nalias ");
    reveal_strlit("='");
    reveal_strlit(" sw'\n");
    reveal_strlit("() {");
    reveal_strlit("alias ");
    reveal_strlit("='");
    reveal_strlit(" sw'");
    reveal_strlit("\n");
    let sw = switch_alias_text(alias);
    let c4 = POSIX_4@;
    let c5 = POSIX_5@;
    let t = posix_script_text(alias);
    let a1 = POSIX_1@ + alias + POSIX_2@ + alias + POSIX_3@;
    let b1 = c4.skip(4) + sw + c5 + sw + POSIX_6@ + alias + POSIX_7@;
    assert(c4 =~= "() {"@ + c4.skip(4));
    assert(t =~= a1 + function_definition(alias) + b1);
    lemma_occurs_in(a1, function_definition(alias), b1);
    let n5 = c5.len() as int;
    assert(c5 =~= c5.take(n5 - 6) + "alias "@);
    assert(POSIX_6@ =~= "='"@);
    assert(POSIX_7@ =~= " sw'"@ + "\n"@);
    let a2 = POSIX_1@ + alias + POSIX_2@ + alias + POSIX_3@ + alias + c4 + sw + c5.take(n5 - 6);
    assert(t =~= a2 + switch_alias_definition(alias) + "\n"@);
    lemma_occurs_in(a2, switch_alias_definition(alias), "\n"@);
}

proof fn lemma_fish_defines(alias: Seq<char>)
    ensures
        contains(fish_script_text(alias), fish_function_definition(alias)),
        contains(fish_script_text(alias), fish_switch_definition(alias)),
{
    reveal_strlit(" sw <branch>` does native cd, everything\n# else passes through to gitree.\nfunction ");
    reveal_strlit("\n    switch $argv[1]\n        case sw switch\n            gitree switch $argv[2..] | source\n        case '*'\n            gitree $argv\n    end\nend\n\n# ");
    reveal_strlit(" sw`, and clap's fish completions only match\n# the canonical subcommand name `switch`, so branch completion would never\n# fire.\nfunction ");
    reveal_strlit(" --wraps='gitree switch' --description='switch to a worktree'\n    ");
    reveal_strlit("function ");
    reveal_strlit("\n");
    reveal_strlit(" --wraps='gitree switch'");
    let sw = switch_alias_text(alias);
    let c3 = FISH_3@;
    let c4 = FISH_4@;
    let c8 = FISH_8@;
    let c9 = FISH_9@;
    let n3 = c3.len() as int;
    let n8 = c8.len() as int;
    let t = fish_script_text(alias);
    assert(c3 =~= c3.take(n3 - 9) + "function "@);
    assert(c4 =~= "\n"@ + c4.skip(1));
    let a1 = FISH_1@ + alias + FISH_2@ + alias + c3.take(n3 - 9);
    let rest = c4.skip(1) + sw + FISH_5@ + sw + FISH_6@ + alias + FISH_7@ + alias + c8 + sw + c9
        + alias + FISH_10@ + alias + FISH_11@ + alias + FISH_12@ + alias + FISH_13@;
    assert(t =~= a1 + fish_function_definition(alias) + rest);
    lemma_occurs_in(a1, fish_function_definition(alias), rest);
    assert(c8 =~= c8.take(n8 - 9) + "function "@);
    assert(c9 =~= " --wraps='gitree switch'"@ + c9.skip(24));
    let a2 = FISH_1@ + alias + FISH_2@ + alias + c3 + alias + c4 + sw + FISH_5@ + sw + FISH_6@ + alias
        + FISH_7@ + alias + c8.take(n8 - 9);
    let b2 = c9.skip(24) + alias + FISH_10@ + alias + FISH_11@ + alias + FISH_12@ + alias + FISH_13@;
    assert(t =~= a2 + fish_switch_definition(alias) + b2);
    lemma_occurs_in(a2, fish_switch_definition(alias), b2);
}

/// The script `gitree env` prints defines the dispatcher function `alias`
/// and the switch shortcut `<alias>sw` for every shell it supports.
pub proof fn lemma_env_script_defines(shell: Seq<char>, alias: Seq<char>)
    requires
        env_script_text(shell, alias) is Ok,
    ensures
        ({
            let t = env_script_text(shell, alias)->Ok_0;
            if shell == "fish"@ {
                contains(t, fish_function_definition(alias)) && contains(
                    t,
                    fish_switch_definition(alias),
                )
            } else {
                contains(t, function_definition(alias)) && contains(t, switch_alias_definition(alias))
            }
        }),
{
    reveal_strlit("bash");
    reveal_strlit("zsh");
    reveal_strlit("fish");
    reveal_strlit("posix");
    reveal_strlit("sh");
    let t = env_script_text(shell, alias)->Ok_0;
    if shell == "fish"@ {
        assert(shell[0] == 'f');
    }
    if shell == "bash"@ {
        assert(shell[0] == 'b');
        lemma_core_defines(alias);
        let rest = BASH_2@ + alias + BASH_3@ + alias + BASH_4@ + lazy_completion_name(alias) + BASH_5@
            + lazy_completion_name(alias) + BASH_6@ + alias + BASH_7@;
        assert(t =~= BASH_1@ + bash_zsh_core_text(alias) + rest);
        lemma_contains_within(BASH_1@, bash_zsh_core_text(alias), rest, function_definition(alias));
        lemma_contains_within(
            BASH_1@,
            bash_zsh_core_text(alias),
            rest,
            switch_alias_definition(alias),
        );
    } else if shell == "zsh"@ {
        assert(shell[0] == 'z');
        lemma_core_defines(alias);
        let rest = ZSH_2@ + alias + ZSH_3@ + alias + ZSH_4@;
        assert(t =~= ZSH_1@ + bash_zsh_core_text(alias) + rest);
        lemma_contains_within(ZSH_1@, bash_zsh_core_text(alias), rest, function_definition(alias));
        lemma_contains_within(
            ZSH_1@,
            bash_zsh_core_text(alias),
            rest,
            switch_alias_definition(alias),
        );
    } else if shell == "fish"@ {
        lemma_fish_defines(alias);
    } else {
        assert(shell == "posix"@ || shell == "sh"@);
        assert(shell[0] != 'f');
        assert(t == posix_script_text(alias));
        lemma_posix_defines(alias);
    }
}


/// The bash script defines the completion function it registers for the
/// dispatcher: it holds `_<alias>_complete() {` and
/// `complete -F _<alias>_complete <alias>`.
pub proof fn lemma_bash_completion_defined(alias: Seq<char>)
    ensures
        contains(bash_script_text(alias), "_"@ + alias + "_complete() {"@),
        contains(bash_script_text(alias), "complete -F _"@ + alias + "_complete "@ + alias),
{
    reveal_strlit("() {\n    if ! declare -F _gitree >/dev/null 2>&1; then\n        local f\n        for f in \\\n            \"${XDG_DATA_HOME:-$HOME/.local/share}/bash-completion/completions/gitree\" \\\n            \"/usr/share/bash-completion/completions/gitree\" \\\n            \"/etc/bash_completion.d/gitree\"; do\n            [[ -f \"$f\" ]] && source \"$f\" && break\n        done\n    fi\n    if declare -F _gitree >/dev/null 2>&1; then\n        _gitree \"$@\"\n    fi\n}\ncomplete -F ");
    reveal_strlit("() {");
    reveal_strlit("complete -F ");
    reveal_strlit("complete -F _");
    reveal_strlit("_");
    reveal_strlit("_complete");
    reveal_strlit("_complete() {");
    reveal_strlit("_complete ");
    reveal_strlit(" ");
    reveal_strlit("\n");
    let c5 = BASH_5@;
    let n5 = c5.len() as int;
    let lazy = lazy_completion_name(alias);
    let p = BASH_1@ + bash_zsh_core_text(alias) + BASH_2@ + alias + BASH_3@ + alias + BASH_4@;
    let t = bash_script_text(alias);
    let x1 = "_"@ + alias + "_complete() {"@;
    assert(c5 =~= "() {"@ + c5.skip(4));
    assert(lazy + "() {"@ =~= x1);
    let b1 = c5.skip(4) + lazy + BASH_6@ + alias + BASH_7@;
    assert(t =~= p + x1 + b1);
    lemma_occurs_in(p, x1, b1);
    let x2 = "complete -F _"@ + alias + "_complete "@ + alias;
    assert(c5 =~= c5.take(n5 - 12) + "complete -F "@);
    assert(BASH_6@ =~= " "@);
    assert("complete -F "@ + lazy + " "@ + alias =~= x2);
    let a2 = p + lazy + c5.take(n5 - 12);
    assert(t =~= a2 + x2 + BASH_7@);
    lemma_occurs_in(a2, x2, BASH_7@);
}

} // verus!
