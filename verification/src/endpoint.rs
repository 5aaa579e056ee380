//! The bus-facing endpoint and the handoff channel: every call builds one
//! execution request and queues it, fire-and-forget, for the single launcher
//! worker.

use vstd::prelude::*;
use crate::params::ExecParams;

verus! {

#[verifier::external_type_specification]
#[verifier::external_body]
#[verifier::reject_recursive_types(T)]
pub struct ExSender<T>(std::sync::mpsc::Sender<T>);

#[verifier::external_type_specification]
#[verifier::external_body]
#[verifier::reject_recursive_types(T)]
pub struct ExReceiver<T>(std::sync::mpsc::Receiver<T>);

/// Relies on std::sync::mpsc::channel: it yields the two ends of one new
/// unbounded multi-producer single-consumer first-in-first-out queue.
#[verifier::external_body]
fn request_channel() -> (std::sync::mpsc::Sender<ExecParams>, std::sync::mpsc::Receiver<
    ExecParams,
>) {
    std::sync::mpsc::channel()
}

/// Relies on std::sync::mpsc::Sender::send: it never blocks, it fails only
/// when the receiving end is gone, and the error hands the unsent value back.
#[verifier::external_body]
fn channel_send(sender: &std::sync::mpsc::Sender<ExecParams>, params: ExecParams) -> (r: Result<
    (),
    ExecParams,
>)
    ensures
        r matches Err(rejected) ==> rejected == params,
{
    match sender.send(params) {
        Ok(()) => Ok(()),
        Err(std::sync::mpsc::SendError(rejected)) => Err(rejected),
    }
}

/// Relies on std::sync::mpsc::Receiver::recv: it blocks until a value is
/// queued and yields it, or fails once every sender is gone and the queue is
/// drained.
#[verifier::external_body]
fn channel_recv(receiver: &std::sync::mpsc::Receiver<ExecParams>) -> Option<ExecParams> {
    match receiver.recv() {
        Ok(params) => Some(params),
        Err(std::sync::mpsc::RecvError) => None,
    }
}

/// The one caller-visible failure: the launcher's end of the handoff channel
/// is gone, so the request was not accepted; it is handed back to the caller.
#[derive(Debug)]
pub struct HandoffError {
    pub rejected: ExecParams,
}

/// The bus-facing endpoint. Each call shape builds one execution request and
/// attempts a non-blocking enqueue; success means "queued", never "ran".
pub struct Executor {
    pub sender: std::sync::mpsc::Sender<ExecParams>,
}

impl Executor {
    /// Queues one request for the launcher worker. Whatever the channel
    /// does, a failure hands exactly the rejected request back.
    pub fn submit(&self, params: ExecParams) -> (r: Result<(), HandoffError>)
        ensures
            r matches Err(e) ==> e.rejected == params,
    {
        match channel_send(&self.sender, params) {
            Ok(()) => Ok(()),
            Err(rejected) => Err(HandoffError { rejected }),
        }
    }

    /// Executes a command with no arguments and no overrides.
    pub fn cmd(&self, cmd: &str) -> (r: Result<(), HandoffError>)
        ensures
            r matches Err(e) ==> {
                &&& e.rejected.cmd@ == cmd@
                &&& e.rejected.args@ == Seq::<String>::empty()
                &&& e.rejected.env is None
            },
    {
        self.submit(ExecParams::without_args(cmd))
    }

    /// Executes a command with arguments and no overrides.
    pub fn cmd_args(&self, cmd: &str, args: Vec<String>) -> (r: Result<(), HandoffError>)
        ensures
            r matches Err(e) ==> {
                &&& e.rejected.cmd@ == cmd@
                &&& e.rejected.args == args
                &&& e.rejected.env is None
            },
    {
        self.submit(ExecParams::with_args(cmd, args))
    }

    /// Executes a command with arguments and environment overrides.
    pub fn cmd_args_env(&self, cmd: &str, args: Vec<String>, env: Vec<(String, String)>) -> (r:
        Result<(), HandoffError>)
        ensures
            r matches Err(e) ==> {
                &&& e.rejected.cmd@ == cmd@
                &&& e.rejected.args == args
                &&& e.rejected.env == Some(env)
            },
    {
        self.submit(ExecParams::with_env(cmd, args, env))
    }
}

/// The launcher worker's end of the handoff channel.
pub struct RequestReceiver {
    receiver: std::sync::mpsc::Receiver<ExecParams>,
}

impl RequestReceiver {
    /// Blocks until the next queued request arrives and yields it; yields
    /// nothing once every endpoint is gone and the queue is drained.
    pub fn next_request(&self) -> Option<ExecParams> {
        channel_recv(&self.receiver)
    }
}

/// Creates the handoff channel: the endpoint for the bus side and the
/// receiver for the launcher worker.
pub fn handoff_channel() -> (Executor, RequestReceiver) {
    let (sender, receiver) = request_channel();
    (Executor { sender }, RequestReceiver { receiver })
}

} // verus!
