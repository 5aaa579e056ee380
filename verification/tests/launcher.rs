//! Tests for the launcher's per-request computation: argument vector,
//! environment merge, and the `NAME=value` layout.

use dbus_executor::{build_argv, build_envp, format_entry, plan_launch, ExecParams};
use dbus_executor::env::{env_contains_key, merge_env};

fn pairs(entries: &[(&str, &str)]) -> Vec<(String, String)> {
    entries.iter().map(|(k, v)| (k.to_string(), v.to_string())).collect()
}

fn value_of<'a>(entries: &'a [(String, String)], key: &str) -> Option<&'a str> {
    let mut found: Option<&'a str> = None;
    for (k, v) in entries {
        if k == key {
            found = Some(v.as_str());
        }
    }
    found
}

#[test]
fn argv_is_command_then_args_in_order() {
    let args = vec!["-l".to_string(), "--color".to_string(), "/tmp".to_string()];
    let argv = build_argv(&"ls".to_string(), &args);
    assert_eq!(argv, vec!["ls", "-l", "--color", "/tmp"]);
}

#[test]
fn argv_of_bare_command_is_just_the_command() {
    let argv = build_argv(&"true".to_string(), &Vec::new());
    assert_eq!(argv, vec!["true"]);
}

#[test]
fn format_entry_joins_name_and_value() {
    assert_eq!(format_entry(&"PATH".to_string(), &"/usr/bin".to_string()), "PATH=/usr/bin");
    assert_eq!(format_entry(&"EMPTY".to_string(), &"".to_string()), "EMPTY=");
}

#[test]
fn envp_lays_entries_out_in_order() {
    let env = pairs(&[("PATH", "/usr/bin"), ("HOME", "/root")]);
    let envp = build_envp(&env);
    assert_eq!(envp, vec!["PATH=/usr/bin", "HOME=/root"]);
}

#[test]
fn merge_overrides_win_and_inherited_keys_survive() {
    let inherited = pairs(&[("PATH", "/usr/bin"), ("HOME", "/root"), ("TERM", "xterm")]);
    let overrides = Some(pairs(&[("PATH", "/custom/bin"), ("FOO", "bar")]));
    let merged = merge_env(&inherited, &overrides);
    assert_eq!(merged.len(), 4);
    assert_eq!(value_of(&merged, "PATH"), Some("/custom/bin"));
    assert_eq!(value_of(&merged, "FOO"), Some("bar"));
    assert_eq!(value_of(&merged, "HOME"), Some("/root"));
    assert_eq!(value_of(&merged, "TERM"), Some("xterm"));
    // Non-overridden inherited entries keep their order, then the overrides.
    assert_eq!(
        merged,
        pairs(&[("HOME", "/root"), ("TERM", "xterm"), ("PATH", "/custom/bin"), ("FOO", "bar")])
    );
}

#[test]
fn merge_without_overrides_changes_nothing() {
    let inherited = pairs(&[("PATH", "/usr/bin"), ("HOME", "/root")]);
    let merged = merge_env(&inherited, &None);
    assert_eq!(merged, inherited);
}

#[test]
fn merge_with_empty_overrides_changes_nothing() {
    let inherited = pairs(&[("PATH", "/usr/bin"), ("HOME", "/root")]);
    let merged = merge_env(&inherited, &Some(Vec::new()));
    assert_eq!(merged, inherited);
}

#[test]
fn merge_into_empty_environment_keeps_only_overrides() {
    let merged = merge_env(&Vec::new(), &Some(pairs(&[("ONLY", "one")])));
    assert_eq!(merged, pairs(&[("ONLY", "one")]));
}

#[test]
fn contains_key_finds_only_present_names() {
    let env = pairs(&[("PATH", "/usr/bin"), ("HOME", "/root")]);
    assert!(env_contains_key(&env, &"PATH".to_string()));
    assert!(env_contains_key(&env, &"HOME".to_string()));
    assert!(!env_contains_key(&env, &"PATHX".to_string()));
    assert!(!env_contains_key(&env, &"".to_string()));
}

#[test]
fn plan_for_bare_command_inherits_everything() {
    let params = ExecParams::without_args("true");
    let inherited = pairs(&[("PATH", "/usr/bin"), ("HOME", "/root")]);
    let plan = plan_launch(&params, &inherited);
    assert_eq!(plan.argv, vec!["true"]);
    assert_eq!(plan.env, inherited);
    assert_eq!(plan.envp, vec!["PATH=/usr/bin", "HOME=/root"]);
}

#[test]
fn plan_applies_args_and_overrides() {
    let params = ExecParams::with_env(
        "env",
        vec!["-0".to_string()],
        pairs(&[("PATH", "/custom/bin"), ("FOO", "bar")]),
    );
    let inherited = pairs(&[("PATH", "/usr/bin"), ("HOME", "/root")]);
    let plan = plan_launch(&params, &inherited);
    assert_eq!(plan.argv, vec!["env", "-0"]);
    assert_eq!(plan.env.len(), 3);
    assert_eq!(value_of(&plan.env, "PATH"), Some("/custom/bin"));
    assert_eq!(value_of(&plan.env, "FOO"), Some("bar"));
    assert_eq!(value_of(&plan.env, "HOME"), Some("/root"));
    assert_eq!(plan.envp.len(), 3);
    for (i, (k, v)) in plan.env.iter().enumerate() {
        assert_eq!(plan.envp[i], format!("{}={}", k, v));
    }
}
