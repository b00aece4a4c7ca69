use gitree::env::{bash_script, env_script, fish_script, posix_script, validate_alias, zsh_script};

#[test]
fn bash_script_default_alias() {
    let script = bash_script("gtr");
    assert!(script.contains("gtr()"));
    assert!(script.contains("gtrsw"));
    assert!(script.contains("gitree switch"));
    assert!(script.contains("complete -F _gtr_complete gtr"));
    assert!(script.contains("_gtr_complete"));
}

#[test]
fn bash_script_custom_alias() {
    let script = bash_script("mygt");
    assert!(script.contains("mygt()"));
    assert!(script.contains("mygtsw"));
    assert!(script.contains("complete -F _mygt_complete mygt"));
    assert!(!script.contains("gtr"));
}

#[test]
fn zsh_script_default_alias() {
    let script = zsh_script("gtr");
    assert!(script.contains("gtr()"));
    assert!(script.contains("gtrsw"));
    assert!(script.contains("compdef _gitree gtr"));
}

#[test]
fn zsh_script_custom_alias() {
    let script = zsh_script("wt");
    assert!(script.contains("wt()"));
    assert!(script.contains("wtsw"));
    assert!(script.contains("compdef _gitree wt"));
}

#[test]
fn fish_script_default_alias() {
    let script = fish_script("gtr");
    assert!(script.contains("function gtr\n"));
    assert!(script.contains("function gtrsw --wraps='gitree switch'"));
    assert!(script.contains("gtr sw $argv"));
    assert!(script.contains("complete --command gtr --wraps gitree"));
}

#[test]
fn fish_script_custom_alias() {
    let script = fish_script("wt");
    assert!(script.contains("function wt\n"));
    assert!(script.contains("function wtsw --wraps='gitree switch'"));
    assert!(script.contains("wt sw $argv"));
    assert!(script.contains("complete --command wt --wraps gitree"));
}

#[test]
fn posix_script_default_alias() {
    let script = posix_script("gtr");
    assert!(script.contains("gtr()"));
    assert!(script.contains("gtrsw"));
}

#[test]
fn posix_script_custom_alias() {
    let script = posix_script("gw");
    assert!(script.contains("gw()"));
    assert!(script.contains("gwsw"));
}

#[test]
fn validate_alias_accepts_valid_names() {
    assert!(validate_alias("gtr").is_ok());
    assert!(validate_alias("_gt").is_ok());
    assert!(validate_alias("my_alias_2").is_ok());
}

#[test]
fn validate_alias_rejects_empty() {
    assert!(validate_alias("").is_err());
}

#[test]
fn validate_alias_rejects_invalid_start() {
    assert!(validate_alias("1gt").is_err());
    assert!(validate_alias("-gt").is_err());
}

#[test]
fn validate_alias_rejects_special_chars() {
    assert!(validate_alias("gt-r").is_err());
    assert!(validate_alias("gt;rm").is_err());
    assert!(validate_alias("gt rm").is_err());
}

#[test]
fn env_script_dispatches_on_shell() {
    assert_eq!(env_script("bash", "gtr").unwrap(), bash_script("gtr"));
    assert_eq!(env_script("zsh", "gtr").unwrap(), zsh_script("gtr"));
    assert_eq!(env_script("fish", "gtr").unwrap(), fish_script("gtr"));
    assert_eq!(env_script("posix", "gtr").unwrap(), posix_script("gtr"));
    assert_eq!(env_script("sh", "gtr").unwrap(), posix_script("gtr"));
}

#[test]
fn env_script_rejects_unknown_shell() {
    let err = env_script("tcsh", "gtr").unwrap_err();
    assert_eq!(
        err.message(),
        "unsupported shell 'tcsh'. Supported: bash, zsh, fish, posix"
    );
}

#[test]
fn env_script_rejects_bad_alias_before_shell() {
    assert!(env_script("tcsh", "bad alias").is_err());
    assert!(env_script("bash", "1gt").is_err());
}

#[test]
fn env_scripts_define_function_and_switch_alias() {
    for shell in ["bash", "zsh", "posix", "sh"] {
        let s = env_script(shell, "gwt").unwrap();
        assert!(s.contains("gwt() {"));
        assert!(s.contains("alias gwtsw='gwt sw'"));
    }
    let f = env_script("fish", "gwt").unwrap();
    assert!(f.contains("function gwt\n"));
    assert!(f.contains("function gwtsw --wraps='gitree switch'"));
}
