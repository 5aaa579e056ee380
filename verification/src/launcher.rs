//! The launcher's per-request computation: the argument vector, the merged
//! environment, and its `NAME=value` layout for the spawning layer.

use vstd::prelude::*;
use vstd::string::StringExecFns;
use crate::env::{env_has_key, env_lookup, merge_env, override_entries, retained, unique_keys};
use crate::params::ExecParams;

verus! {

/// One environment entry laid out for the spawning layer: name, `=`, value.
pub open spec fn entry_line(key: Seq<char>, value: Seq<char>) -> Seq<char> {
    key + seq!['='] + value
}

/// Lays one environment entry out as `NAME=value`.
pub fn format_entry(key: &String, value: &String) -> (r: String)
    ensures
        r@ == entry_line(key@, value@),
{
    let mut line = key.clone();
    line.append("=");
    line.append(value.as_str());
    proof {
        reveal_strlit("=");
        assert(line@ =~= entry_line(key@, value@));
    }
    line
}

/// Builds the program's argument vector: the command itself first, per OS
/// convention, then the request's arguments in order.
pub fn build_argv(cmd: &String, args: &Vec<String>) -> (argv: Vec<String>)
    ensures
        argv@.len() == args@.len() + 1,
        argv@[0]@ == cmd@,
        forall|k: int| 0 <= k < args@.len() ==> argv@[k + 1]@ == args@[k]@,
{
    let mut argv: Vec<String> = Vec::new();
    argv.push(cmd.clone());
    let mut k: usize = 0;
    while k < args.len()
        invariant
            k <= args@.len(),
            argv@.len() == k + 1,
            argv@[0]@ == cmd@,
            forall|m: int| 0 <= m < k ==> argv@[m + 1]@ == args@[m]@,
        decreases args@.len() - k,
    {
        argv.push(args[k].clone());
        k = k + 1;
    }
    argv
}

/// Lays a merged environment out entry by entry as `NAME=value` lines.
pub fn build_envp(entries: &Vec<(String, String)>) -> (envp: Vec<String>)
    ensures
        envp@.len() == entries@.len(),
        forall|k: int|
            0 <= k < entries@.len() ==> envp@[k]@ == entry_line(entries@[k].0@, entries@[k].1@),
{
    let mut envp: Vec<String> = Vec::new();
    let mut k: usize = 0;
    while k < entries.len()
        invariant
            k <= entries@.len(),
            envp@.len() == k,
            forall|m: int| 0 <= m < k ==> envp@[m]@ == entry_line(entries@[m].0@, entries@[m].1@),
        decreases entries@.len() - k,
    {
        let entry = &entries[k];
        envp.push(format_entry(&entry.0, &entry.1));
        k = k + 1;
    }
    envp
}

/// Everything the spawning layer needs for one request: the argument vector,
/// the merged environment as pairs, and the same environment as `NAME=value`
/// lines.
pub struct LaunchPlan {
    pub argv: Vec<String>,
    pub env: Vec<(String, String)>,
    pub envp: Vec<String>,
}

impl LaunchPlan {
    /// The plan realises `params` under the inherited environment: argv is
    /// the command followed by the request's arguments in order; env is the
    /// inherited mapping with every override name taking the override's
    /// value, no name lost, none duplicated — the non-overridden inherited
    /// entries in their order, then the overrides in theirs; envp lays env
    /// out line by line.
    pub open spec fn is_plan_for(self, params: ExecParams, inherited: Seq<(String, String)>) -> bool {
        &&& self.argv@.len() == params.args@.len() + 1
        &&& self.argv@[0]@ == params.cmd@
        &&& forall|k: int| 0 <= k < params.args@.len() ==> self.argv@[k + 1]@ == params.args@[k]@
        &&& unique_keys(self.env@)
        &&& self.env@ == retained(inherited, override_entries(params.env)) + override_entries(
            params.env,
        )
        &&& forall|key: Seq<char>|
            env_lookup(self.env@, key) == (if env_has_key(override_entries(params.env), key) {
                env_lookup(override_entries(params.env), key)
            } else {
                env_lookup(inherited, key)
            })
        &&& self.envp@.len() == self.env@.len()
        &&& forall|k: int|
            0 <= k < self.env@.len() ==> self.envp@[k]@ == entry_line(
                self.env@[k].0@,
                self.env@[k].1@,
            )
    }
}

/// Computes the launch plan for one dequeued request: merge the overrides
/// into the inherited environment and build the argument vector.
pub fn plan_launch(params: &ExecParams, inherited: &Vec<(String, String)>) -> (plan: LaunchPlan)
    requires
        unique_keys(inherited@),
        unique_keys(override_entries(params.env)),
    ensures
        plan.is_plan_for(*params, inherited@),
{
    let argv = build_argv(&params.cmd, &params.args);
    let env = merge_env(inherited, &params.env);
    let envp = build_envp(&env);
    LaunchPlan { argv, env, envp }
}

} // verus!
