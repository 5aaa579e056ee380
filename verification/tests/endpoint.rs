//! Tests for the bus-facing endpoint and the handoff channel: fire-and-forget
//! acceptance, the consumer-gone fault, and in-order exactly-once delivery.

use dbus_executor::{handoff_channel, ExecParams};

#[test]
fn call_returns_before_anything_dequeues() {
    let (executor, receiver) = handoff_channel();
    // Nothing is dequeuing yet; the call must still return success at once.
    let outcome = executor.cmd("sleep-equivalent-long-running-command");
    assert!(outcome.is_ok());
    let queued = receiver.next_request().expect("the request must be queued");
    assert_eq!(queued.cmd, "sleep-equivalent-long-running-command");
}

#[test]
fn call_fails_once_the_consumer_is_gone() {
    let (executor, receiver) = handoff_channel();
    drop(receiver);
    let fault = executor.cmd("true").expect_err("the handoff must fail");
    assert_eq!(fault.rejected.cmd, "true");
    assert!(fault.rejected.args.is_empty());
    assert!(fault.rejected.env.is_none());
}

#[test]
fn failed_handoff_hands_the_whole_request_back() {
    let (executor, receiver) = handoff_channel();
    drop(receiver);
    let overrides = vec![("FOO".to_string(), "bar".to_string())];
    let fault = executor
        .cmd_args_env("printenv", vec!["FOO".to_string()], overrides.clone())
        .expect_err("the handoff must fail");
    assert_eq!(fault.rejected.cmd, "printenv");
    assert_eq!(fault.rejected.args, vec!["FOO".to_string()]);
    assert_eq!(fault.rejected.env, Some(overrides));
}

#[test]
fn queued_calls_arrive_once_each_in_submission_order() {
    let (executor, receiver) = handoff_channel();
    executor.cmd("first").unwrap();
    executor.cmd_args("second", vec!["arg".to_string()]).unwrap();
    let first = receiver.next_request().expect("first request");
    assert_eq!(first.cmd, "first");
    assert!(first.args.is_empty());
    assert!(first.env.is_none());
    let second = receiver.next_request().expect("second request");
    assert_eq!(second.cmd, "second");
    assert_eq!(second.args, vec!["arg".to_string()]);
    drop(executor);
    assert!(receiver.next_request().is_none());
}

#[test]
fn each_call_shape_builds_the_right_request() {
    let (executor, receiver) = handoff_channel();
    executor.cmd("a").unwrap();
    executor.cmd_args("b", vec!["x".to_string(), "y".to_string()]).unwrap();
    executor
        .cmd_args_env("c", Vec::new(), vec![("K".to_string(), "v".to_string())])
        .unwrap();
    let a = receiver.next_request().unwrap();
    assert_eq!((a.cmd.as_str(), a.args.len(), a.env.is_none()), ("a", 0, true));
    let b = receiver.next_request().unwrap();
    assert_eq!(b.args, vec!["x".to_string(), "y".to_string()]);
    assert!(b.env.is_none());
    let c = receiver.next_request().unwrap();
    assert_eq!(c.env, Some(vec![("K".to_string(), "v".to_string())]));
    assert!(c.args.is_empty());
}

#[test]
fn submit_queues_a_prebuilt_request() {
    let (executor, receiver) = handoff_channel();
    let params = ExecParams {
        cmd: "echo".to_string(),
        args: vec!["hi".to_string()],
        env: Some(Vec::new()),
    };
    executor.submit(params).unwrap();
    let queued = receiver.next_request().unwrap();
    assert_eq!(queued.cmd, "echo");
    assert_eq!(queued.args, vec!["hi".to_string()]);
    assert_eq!(queued.env, Some(Vec::new()));
}
