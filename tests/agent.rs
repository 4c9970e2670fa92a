use mqtterminal::protocol::parse_command;
use mqtterminal::reply::{compose_reply, reply_payload, AgentError, CommandOutput};
use mqtterminal::session::{Action, Agent, Event, Outcome, Phase, RetryPolicy};

fn output(stdout: &[u8], stderr: &[u8], success: bool) -> CommandOutput {
    CommandOutput { stdout: stdout.to_vec(), stderr: stderr.to_vec(), success }
}

/// An agent that has connected and subscribed, with the standard policy.
fn listening() -> Agent {
    let (mut a, first) = Agent::start(RetryPolicy::standard());
    assert_eq!(first, Action::Connect);
    assert_eq!(a.step(Event::Connected(true)), Action::Subscribe);
    assert_eq!(a.step(Event::Subscribed(true)), Action::Receive);
    assert_eq!(a.phase, Phase::Listening);
    a
}

#[test]
fn echo_command_replies_with_stdout() {
    let mut a = listening();
    let act = a.step(Event::Message(b"COMMAND/echo hi".to_vec()));
    assert_eq!(act, Action::Execute(b"echo hi".to_vec()));
    let act = a.step(Event::CommandRan(output(b"hi\n", b"", true)));
    assert_eq!(act, Action::Publish(b"OUTPUT/hi\n".to_vec()));
    assert_eq!(a.step(Event::Published(true)), Action::Receive);
}

#[test]
fn failing_command_replies_with_stderr() {
    let mut a = listening();
    let act = a.step(Event::Message(b"COMMAND/exit 1".to_vec()));
    assert_eq!(act, Action::Execute(b"exit 1".to_vec()));
    let act = a.step(Event::CommandRan(output(b"ignored", b"boom", false)));
    assert_eq!(act, Action::Publish(b"OUTPUT/boom".to_vec()));
}

#[test]
fn status_message_is_ignored() {
    let mut a = listening();
    let before = a;
    assert_eq!(a.step(Event::Message(b"STATUS/ping".to_vec())), Action::Receive);
    assert_eq!(a, before);
}

#[test]
fn reconnect_on_third_attempt_resumes_processing() {
    let mut a = listening();
    let mut log: Vec<Action> = Vec::new();
    log.push(a.step(Event::Idle(false)));
    log.push(a.step(Event::Reconnected(false)));
    log.push(a.step(Event::Reconnected(false)));
    log.push(a.step(Event::Reconnected(true)));
    log.push(a.step(Event::Subscribed(true)));
    let tries: Vec<&Action> =
        log.iter().filter(|x| matches!(x, Action::Reconnect { .. })).collect();
    assert_eq!(tries.len(), 3);
    assert_eq!(*tries[2], Action::Reconnect { attempt: 3, delay_ms: 5000 });
    assert_eq!(log.iter().filter(|x| **x == Action::Subscribe).count(), 1);
    assert_eq!(log[4], Action::Receive);
    assert_eq!(a.phase, Phase::Listening);
    assert_eq!(a.attempts, 0);
    let act = a.step(Event::Message(b"COMMAND/ls".to_vec()));
    assert_eq!(act, Action::Execute(b"ls".to_vec()));
}

#[test]
fn reconnect_gives_up_after_twelve_attempts() {
    let mut a = listening();
    assert_eq!(a.step(Event::Idle(false)), Action::Reconnect { attempt: 1, delay_ms: 5000 });
    for n in 2..=12u32 {
        assert_eq!(a.step(Event::Reconnected(false)), Action::Reconnect { attempt: n, delay_ms: 5000 });
    }
    assert_eq!(a.step(Event::Reconnected(false)), Action::CheckLink);
    assert_eq!(a.step(Event::LinkChecked(false)), Action::Exit(Outcome::Clean));
    assert_eq!(a.phase, Phase::Finished);
}

#[test]
fn policy_without_attempts_closes_at_once() {
    let mut a = listening();
    a.policy = RetryPolicy { max_attempts: 0, delay_ms: 0 };
    assert_eq!(a.step(Event::Idle(false)), Action::CheckLink);
}

#[test]
fn idle_wake_while_connected_keeps_waiting() {
    let mut a = listening();
    assert_eq!(a.step(Event::Idle(true)), Action::Receive);
    assert_eq!(a.phase, Phase::Listening);
}

#[test]
fn graceful_shutdown_unsubscribes_then_disconnects() {
    let mut a = listening();
    assert_eq!(a.step(Event::StreamEnded), Action::CheckLink);
    assert_eq!(a.step(Event::LinkChecked(true)), Action::Unsubscribe);
    assert_eq!(a.step(Event::Unsubscribed(true)), Action::Disconnect);
    assert_eq!(a.step(Event::Disconnected(true)), Action::Exit(Outcome::Clean));
}

#[test]
fn teardown_failures_are_fatal() {
    let mut a = listening();
    a.step(Event::StreamEnded);
    a.step(Event::LinkChecked(true));
    let act = a.step(Event::Unsubscribed(false));
    assert_eq!(act, Action::Exit(Outcome::Fatal(AgentError::Teardown)));

    let mut b = listening();
    b.step(Event::StreamEnded);
    b.step(Event::LinkChecked(true));
    b.step(Event::Unsubscribed(true));
    let act = b.step(Event::Disconnected(false));
    assert_eq!(act, Action::Exit(Outcome::Fatal(AgentError::Teardown)));
}

#[test]
fn connect_and_subscribe_failures_are_fatal() {
    let (mut a, _) = Agent::start(RetryPolicy::standard());
    assert_eq!(a.step(Event::Connected(false)), Action::Exit(Outcome::Fatal(AgentError::Connection)));

    let (mut b, _) = Agent::start(RetryPolicy::standard());
    b.step(Event::Connected(true));
    assert_eq!(b.step(Event::Subscribed(false)), Action::Exit(Outcome::Fatal(AgentError::Connection)));

    let mut c = listening();
    c.step(Event::Idle(false));
    c.step(Event::Reconnected(true));
    assert_eq!(c.step(Event::Subscribed(false)), Action::Exit(Outcome::Fatal(AgentError::Connection)));
}

#[test]
fn spawn_failure_is_fatal() {
    let mut a = listening();
    a.step(Event::Message(b"COMMAND/nosuch".to_vec()));
    assert_eq!(a.step(Event::SpawnFailed), Action::Exit(Outcome::Fatal(AgentError::Execution)));
}

#[test]
fn undecodable_output_is_fatal() {
    let mut a = listening();
    a.step(Event::Message(b"COMMAND/cat bin".to_vec()));
    let act = a.step(Event::CommandRan(output(&[0xff, 0xfe], b"", true)));
    assert_eq!(act, Action::Exit(Outcome::Fatal(AgentError::Encoding)));
}

#[test]
fn publish_failure_is_not_fatal() {
    let mut a = listening();
    a.step(Event::Message(b"COMMAND/true".to_vec()));
    a.step(Event::CommandRan(output(b"", b"", true)));
    assert_eq!(a.step(Event::Published(false)), Action::Receive);
    assert_eq!(a.phase, Phase::Listening);
}

#[test]
fn expects_matches_the_phase() {
    let a = listening();
    assert!(a.expects(&Event::Idle(true)));
    assert!(!a.expects(&Event::Reconnected(true)));
    assert!(!a.expects(&Event::SpawnFailed));
}

#[test]
fn exit_codes() {
    assert_eq!(Outcome::Clean.exit_code(), 0);
    assert_eq!(Outcome::Fatal(AgentError::Teardown).exit_code(), 1);
}

#[test]
fn parse_command_edges() {
    assert_eq!(parse_command(b""), None);
    assert_eq!(parse_command(b"COMMAND"), None);
    assert_eq!(parse_command(b"command/ls"), None);
    assert_eq!(parse_command(b"COMMAND/"), Some(Vec::new()));
    assert_eq!(parse_command(b"COMMAND/COMMAND/x"), Some(b"COMMAND/x".to_vec()));
    assert_eq!(parse_command(b"xCOMMAND/ls"), None);
}

#[test]
fn compose_reply_uses_given_validity() {
    let o = output(b"out", b"err", true);
    assert_eq!(compose_reply(&o, true, true), Ok(b"OUTPUT/out".to_vec()));
    assert_eq!(compose_reply(&o, true, false), Err(AgentError::Encoding));
    assert_eq!(compose_reply(&o, false, true), Err(AgentError::Encoding));
    let f = output(b"out", b"", false);
    assert_eq!(compose_reply(&f, true, true), Ok(b"OUTPUT/".to_vec()));
}

#[test]
fn reply_payload_checks_both_streams() {
    let bad_err = output(b"fine", &[0xc3, 0x28], true);
    assert_eq!(reply_payload(&bad_err), Err(AgentError::Encoding));
    let multibyte = output("h\u{e9}".as_bytes(), b"", true);
    assert_eq!(reply_payload(&multibyte), Ok("OUTPUT/h\u{e9}".as_bytes().to_vec()));
}
