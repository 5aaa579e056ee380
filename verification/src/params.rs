//! The execution request: the one domain value that travels from the bus
//! endpoint through the handoff channel to the launcher worker.

use vstd::prelude::*;

verus! {

/// A request to execute one command: the program to run, its arguments in
/// order (without the program name), and optional environment overrides.
///
/// Absent overrides mean "inherit the parent environment unchanged"; an
/// explicitly empty mapping behaves the same but is kept distinct.
#[derive(Debug, Clone)]
pub struct ExecParams {
    pub cmd: String,
    pub args: Vec<String>,
    pub env: Option<Vec<(String, String)>>,
}

impl ExecParams {
    /// A request with no arguments and no overrides.
    pub fn without_args(cmd: &str) -> (r: ExecParams)
        ensures
            r.cmd@ == cmd@,
            r.args@ == Seq::<String>::empty(),
            r.env is None,
    {
        ExecParams { cmd: cmd.to_owned(), args: Vec::new(), env: None }
    }

    /// A request with arguments and no overrides.
    pub fn with_args(cmd: &str, args: Vec<String>) -> (r: ExecParams)
        ensures
            r.cmd@ == cmd@,
            r.args == args,
            r.env is None,
    {
        ExecParams { cmd: cmd.to_owned(), args, env: None }
    }

    /// A request with arguments and environment overrides.
    pub fn with_env(cmd: &str, args: Vec<String>, overrides: Vec<(String, String)>) -> (r:
        ExecParams)
        ensures
            r.cmd@ == cmd@,
            r.args == args,
            r.env == Some(overrides),
    {
        ExecParams { cmd: cmd.to_owned(), args, env: Some(overrides) }
    }
}

} // verus!
