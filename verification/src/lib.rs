//! An IPC-triggered process launcher.
//!
//! Callers on a local message bus submit "execute a command" requests; the
//! requests travel through an in-process handoff channel to a single launcher
//! worker, which merges the caller's environment overrides into the inherited
//! environment, builds the argument vector, and hands both to the process
//! spawning layer.
//!
//! The verified core is the request-to-process pipeline: request
//! construction, the environment-merge algorithm, and the argv/envp layout.

pub mod endpoint;
pub mod env;
pub mod launcher;
pub mod params;

pub use endpoint::{Executor, HandoffError, RequestReceiver, handoff_channel};
pub use params::ExecParams;
pub use launcher::{LaunchPlan, build_argv, build_envp, format_entry, plan_launch};
