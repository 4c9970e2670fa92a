use vstd::prelude::*;

use crate::protocol::{command_of, parse_command};
use crate::reply::{is_utf8, reply_of, reply_payload, AgentError, CommandOutput};

verus! {

/// Reconnection attempts made after the broker drops the session.
pub const MAX_RECONNECT_ATTEMPTS: u32 = 12;

/// Pause before each reconnection attempt, in milliseconds.
pub const RECONNECT_DELAY_MS: u64 = 5000;

/// Quality of service for subscribe, publish and the last will: exactly once.
pub const QOS: i32 = 2;

/// Whether the broker should drop the subscription when the session ends.
pub const CLEAN_SESSION: bool = false;

/// How a lost session is retried: at most `max_attempts` times, each after a
/// pause of `delay_ms`.
#[derive(Clone, Copy, Debug, PartialEq, Eq, Structural)]
pub struct RetryPolicy {
    pub max_attempts: u32,
    pub delay_ms: u64,
}

impl RetryPolicy {
    /// Twelve attempts, five seconds apart.
    pub fn standard() -> (r: RetryPolicy)
        ensures
            r.max_attempts == 12,
            r.delay_ms == 5000,
    {
        RetryPolicy { max_attempts: MAX_RECONNECT_ATTEMPTS, delay_ms: RECONNECT_DELAY_MS }
    }
}

/// Where the agent stands in the life of its broker session.
#[derive(Clone, Copy, Debug, PartialEq, Eq, Structural)]
pub enum Phase {
    /// Waiting for the first connection to be made.
    Connecting,
    /// Waiting for a subscription to the topic, first or after a reconnect.
    Subscribing,
    /// Connected and waiting for inbound traffic.
    Listening,
    /// Waiting for a command to run.
    Executing,
    /// Waiting for a reply to be sent.
    Publishing,
    /// Waiting for the outcome of a reconnection attempt.
    Reconnecting,
    /// The loop is over; waiting to learn whether the session is still up.
    Closing,
    /// Waiting for the unsubscribe of a graceful shutdown.
    Unsubscribing,
    /// Waiting for the disconnect of a graceful shutdown.
    Disconnecting,
    /// Nothing left to do.
    Finished,
}

/// How the agent ends.
#[derive(Clone, Copy, Debug, PartialEq, Eq, Structural)]
pub enum Outcome {
    /// A graceful shutdown, or the end of the loop once reconnection gave up.
    Clean,
    /// A fatal condition.
    Fatal(AgentError),
}

impl Outcome {
    /// The process exit status for this outcome.
    pub fn exit_code(&self) -> (r: i32)
        ensures
            r == (if *self == Outcome::Clean { 0i32 } else { 1i32 }),
    {
        match self {
            Outcome::Clean => 0,
            Outcome::Fatal(_) => 1,
        }
    }
}

/// What the surrounding driver reports back after carrying out an action.
pub enum Event {
    /// The connection attempt succeeded or not.
    Connected(bool),
    /// The subscription succeeded or not.
    Subscribed(bool),
    /// An inbound message with this payload.
    Message(Vec<u8>),
    /// A wake without a message; says whether the session is still up.
    Idle(bool),
    /// The inbound stream closed.
    StreamEnded,
    /// The command ran to completion.
    CommandRan(CommandOutput),
    /// The shell could not be started.
    SpawnFailed,
    /// The reply was sent or not.
    Published(bool),
    /// The reconnection attempt succeeded or not.
    Reconnected(bool),
    /// Whether the session is still up.
    LinkChecked(bool),
    /// The unsubscribe succeeded or not.
    Unsubscribed(bool),
    /// The disconnect succeeded or not.
    Disconnected(bool),
}

pub enum EventView {
    Connected(bool),
    Subscribed(bool),
    Message(Seq<u8>),
    Idle(bool),
    StreamEnded,
    CommandRan(Seq<u8>, Seq<u8>, bool),
    SpawnFailed,
    Published(bool),
    Reconnected(bool),
    LinkChecked(bool),
    Unsubscribed(bool),
    Disconnected(bool),
}

impl View for Event {
    type V = EventView;

    open spec fn view(&self) -> EventView {
        match self {
            Event::Connected(b) => EventView::Connected(*b),
            Event::Subscribed(b) => EventView::Subscribed(*b),
            Event::Message(p) => EventView::Message(p@),
            Event::Idle(b) => EventView::Idle(*b),
            Event::StreamEnded => EventView::StreamEnded,
            Event::CommandRan(o) => EventView::CommandRan(o.stdout@, o.stderr@, o.success),
            Event::SpawnFailed => EventView::SpawnFailed,
            Event::Published(b) => EventView::Published(*b),
            Event::Reconnected(b) => EventView::Reconnected(*b),
            Event::LinkChecked(b) => EventView::LinkChecked(*b),
            Event::Unsubscribed(b) => EventView::Unsubscribed(*b),
            Event::Disconnected(b) => EventView::Disconnected(*b),
        }
    }
}

/// What the agent asks the surrounding driver to do next.
#[derive(Debug, PartialEq, Eq)]
pub enum Action {
    /// Connect to the broker.
    Connect,
    /// Subscribe to the topic.
    Subscribe,
    /// Wait for the next inbound event.
    Receive,
    /// Run this command text in the host shell.
    Execute(Vec<u8>),
    /// Publish this payload on the topic.
    Publish(Vec<u8>),
    /// Wait `delay_ms`, then try to reconnect; this is attempt number `attempt`.
    Reconnect { attempt: u32, delay_ms: u64 },
    /// Report whether the session is still up.
    CheckLink,
    /// Unsubscribe from the topic.
    Unsubscribe,
    /// Disconnect from the broker.
    Disconnect,
    /// Stop with this outcome.
    Exit(Outcome),
}

pub enum ActionView {
    Connect,
    Subscribe,
    Receive,
    Execute(Seq<u8>),
    Publish(Seq<u8>),
    Reconnect { attempt: u32, delay_ms: u64 },
    CheckLink,
    Unsubscribe,
    Disconnect,
    Exit(Outcome),
}

impl View for Action {
    type V = ActionView;

    open spec fn view(&self) -> ActionView {
        match self {
            Action::Connect => ActionView::Connect,
            Action::Subscribe => ActionView::Subscribe,
            Action::Receive => ActionView::Receive,
            Action::Execute(c) => ActionView::Execute(c@),
            Action::Publish(p) => ActionView::Publish(p@),
            Action::Reconnect { attempt, delay_ms } => ActionView::Reconnect {
                attempt: *attempt,
                delay_ms: *delay_ms,
            },
            Action::CheckLink => ActionView::CheckLink,
            Action::Unsubscribe => ActionView::Unsubscribe,
            Action::Disconnect => ActionView::Disconnect,
            Action::Exit(o) => ActionView::Exit(*o),
        }
    }
}

/// The agent's decision state: its phase, the number of reconnection attempts
/// made since the session was lost, and its retry policy.
#[derive(Clone, Copy, Debug, PartialEq, Eq, Structural)]
pub struct Agent {
    pub phase: Phase,
    pub attempts: u32,
    pub policy: RetryPolicy,
}

/// Whether `e` answers what an agent in phase `p` asked for.
pub open spec fn accepts(p: Phase, e: EventView) -> bool {
    match (p, e) {
        (Phase::Connecting, EventView::Connected(_)) => true,
        (Phase::Subscribing, EventView::Subscribed(_)) => true,
        (Phase::Listening, EventView::Message(_)) => true,
        (Phase::Listening, EventView::Idle(_)) => true,
        (Phase::Listening, EventView::StreamEnded) => true,
        (Phase::Executing, EventView::CommandRan(_, _, _)) => true,
        (Phase::Executing, EventView::SpawnFailed) => true,
        (Phase::Publishing, EventView::Published(_)) => true,
        (Phase::Reconnecting, EventView::Reconnected(_)) => true,
        (Phase::Closing, EventView::LinkChecked(_)) => true,
        (Phase::Unsubscribing, EventView::Unsubscribed(_)) => true,
        (Phase::Disconnecting, EventView::Disconnected(_)) => true,
        _ => false,
    }
}

impl Agent {
    /// Attempts never exceed the policy, and an agent that is reconnecting
    /// has made at least one attempt.
    pub open spec fn wf(&self) -> bool {
        &&& self.attempts <= self.policy.max_attempts
        &&& self.phase == Phase::Reconnecting ==> self.attempts >= 1
    }

    pub open spec fn enter(self, p: Phase) -> Agent {
        Agent { phase: p, ..self }
    }

    pub open spec fn enter_with(self, p: Phase, attempts: u32) -> Agent {
        Agent { phase: p, attempts, policy: self.policy }
    }
}

/// The session was lost: start the first reconnection attempt, or give up at
/// once under a policy that allows none.
pub open spec fn on_link_lost(a: Agent) -> (Agent, ActionView) {
    if a.policy.max_attempts == 0 {
        (a.enter_with(Phase::Closing, 0), ActionView::CheckLink)
    } else {
        (
            a.enter_with(Phase::Reconnecting, 1),
            ActionView::Reconnect { attempt: 1, delay_ms: a.policy.delay_ms },
        )
    }
}

/// A reconnection attempt ended: resubscribe on success, else try again while
/// the policy allows, else leave the loop.
pub open spec fn on_reconnect(a: Agent, ok: bool) -> (Agent, ActionView) {
    if ok {
        (a.enter(Phase::Subscribing), ActionView::Subscribe)
    } else if a.attempts < a.policy.max_attempts {
        let n = (a.attempts + 1) as u32;
        (
            a.enter_with(Phase::Reconnecting, n),
            ActionView::Reconnect { attempt: n, delay_ms: a.policy.delay_ms },
        )
    } else {
        (a.enter(Phase::Closing), ActionView::CheckLink)
    }
}

/// Routes an inbound payload: a command is run, anything else is ignored.
pub open spec fn on_message(a: Agent, p: Seq<u8>) -> (Agent, ActionView) {
    match command_of(p) {
        Some(c) => (a.enter(Phase::Executing), ActionView::Execute(c)),
        None => (a, ActionView::Receive),
    }
}

/// A command finished: publish its reply, or stop if its output is not text.
pub open spec fn on_command_ran(a: Agent, o: Seq<u8>, e: Seq<u8>, success: bool) -> (
    Agent,
    ActionView,
) {
    match reply_of(o, e, success, is_utf8(o), is_utf8(e)) {
        Ok(p) => (a.enter(Phase::Publishing), ActionView::Publish(p)),
        Err(err) => (a.enter(Phase::Finished), ActionView::Exit(Outcome::Fatal(err))),
    }
}

/// Stop on a fatal condition.
pub open spec fn fail(a: Agent, err: AgentError) -> (Agent, ActionView) {
    (a.enter(Phase::Finished), ActionView::Exit(Outcome::Fatal(err)))
}

/// The agent's next state and action after event `e`. An event that the
/// current phase does not wait for (see `accepts`) changes nothing.
pub open spec fn next(a: Agent, e: EventView) -> (Agent, ActionView) {
    match (a.phase, e) {
        (Phase::Connecting, EventView::Connected(ok)) => if ok {
            (a.enter(Phase::Subscribing), ActionView::Subscribe)
        } else {
            fail(a, AgentError::Connection)
        },
        (Phase::Subscribing, EventView::Subscribed(ok)) => if ok {
            (a.enter_with(Phase::Listening, 0), ActionView::Receive)
        } else {
            fail(a, AgentError::Connection)
        },
        (Phase::Listening, EventView::Message(p)) => on_message(a, p),
        (Phase::Listening, EventView::Idle(up)) => if up {
            (a, ActionView::Receive)
        } else {
            on_link_lost(a)
        },
        (Phase::Listening, EventView::StreamEnded) => (a.enter(Phase::Closing), ActionView::CheckLink),
        (Phase::Executing, EventView::CommandRan(o, e, s)) => on_command_ran(a, o, e, s),
        (Phase::Executing, EventView::SpawnFailed) => fail(a, AgentError::Execution),
        (Phase::Publishing, EventView::Published(_)) => (
            a.enter(Phase::Listening),
            ActionView::Receive,
        ),
        (Phase::Reconnecting, EventView::Reconnected(ok)) => on_reconnect(a, ok),
        (Phase::Closing, EventView::LinkChecked(up)) => if up {
            (a.enter(Phase::Unsubscribing), ActionView::Unsubscribe)
        } else {
            (a.enter(Phase::Finished), ActionView::Exit(Outcome::Clean))
        },
        (Phase::Unsubscribing, EventView::Unsubscribed(ok)) => if ok {
            (a.enter(Phase::Disconnecting), ActionView::Disconnect)
        } else {
            fail(a, AgentError::Teardown)
        },
        (Phase::Disconnecting, EventView::Disconnected(ok)) => if ok {
            (a.enter(Phase::Finished), ActionView::Exit(Outcome::Clean))
        } else {
            fail(a, AgentError::Teardown)
        },
        _ => (a, ActionView::Receive),
    }
}

impl Agent {
    /// A fresh agent under `policy`; its first action is to connect.
    pub fn start(policy: RetryPolicy) -> (r: (Agent, Action))
        ensures
            r.0 == (Agent { phase: Phase::Connecting, attempts: 0, policy }),
            r.0.wf(),
            r.1@ == ActionView::Connect,
    {
        (Agent { phase: Phase::Connecting, attempts: 0, policy }, Action::Connect)
    }

    /// Whether `ev` answers what this agent last asked for.
    pub fn expects(&self, ev: &Event) -> (r: bool)
        ensures
            r == accepts(self.phase, ev@),
    {
        match (self.phase, ev) {
            (Phase::Connecting, Event::Connected(_)) => true,
            (Phase::Subscribing, Event::Subscribed(_)) => true,
            (Phase::Listening, Event::Message(_)) => true,
            (Phase::Listening, Event::Idle(_)) => true,
            (Phase::Listening, Event::StreamEnded) => true,
            (Phase::Executing, Event::CommandRan(_)) => true,
            (Phase::Executing, Event::SpawnFailed) => true,
            (Phase::Publishing, Event::Published(_)) => true,
            (Phase::Reconnecting, Event::Reconnected(_)) => true,
            (Phase::Closing, Event::LinkChecked(_)) => true,
            (Phase::Unsubscribing, Event::Unsubscribed(_)) => true,
            (Phase::Disconnecting, Event::Disconnected(_)) => true,
            _ => false,
        }
    }

    fn fail(&mut self, err: AgentError) -> (r: Action)
        ensures
            (*final(self), r@) == fail(*old(self), err),
    {
        self.phase = Phase::Finished;
        Action::Exit(Outcome::Fatal(err))
    }

    /// Decides what follows a reconnection attempt.
    fn try_reconnect(&mut self, ok: bool) -> (r: Action)
        requires
            old(self).wf(),
            old(self).phase == Phase::Reconnecting,
        ensures
            final(self).wf(),
            (*final(self), r@) == on_reconnect(*old(self), ok),
    {
        if ok {
            self.phase = Phase::Subscribing;
            Action::Subscribe
        } else if self.attempts < self.policy.max_attempts {
            self.attempts = self.attempts + 1;
            Action::Reconnect { attempt: self.attempts, delay_ms: self.policy.delay_ms }
        } else {
            self.phase = Phase::Closing;
            Action::CheckLink
        }
    }

    fn link_lost(&mut self) -> (r: Action)
        requires
            old(self).wf(),
        ensures
            final(self).wf(),
            (*final(self), r@) == on_link_lost(*old(self)),
    {
        if self.policy.max_attempts == 0 {
            self.phase = Phase::Closing;
            self.attempts = 0;
            Action::CheckLink
        } else {
            self.phase = Phase::Reconnecting;
            self.attempts = 1;
            Action::Reconnect { attempt: 1, delay_ms: self.policy.delay_ms }
        }
    }

    fn route(&mut self, payload: &[u8]) -> (r: Action)
        ensures
            (*final(self), r@) == on_message(*old(self), payload@),
    {
        match parse_command(payload) {
            Some(c) => {
                self.phase = Phase::Executing;
                Action::Execute(c)
            },
            None => Action::Receive,
        }
    }

    fn publish_output(&mut self, out: &CommandOutput) -> (r: Action)
        ensures
            (*final(self), r@) == on_command_ran(
                *old(self),
                out.stdout@,
                out.stderr@,
                out.success,
            ),
    {
        match reply_payload(out) {
            Ok(p) => {
                self.phase = Phase::Publishing;
                Action::Publish(p)
            },
            Err(e) => self.fail(e),
        }
    }

    /// Takes the driver's report of what came of the last action and returns
    /// the next action.
    pub fn step(&mut self, ev: Event) -> (r: Action)
        requires
            old(self).wf(),
            accepts(old(self).phase, ev@),
        ensures
            final(self).wf(),
            (*final(self), r@) == next(*old(self), ev@),
    {
        match ev {
            Event::Connected(ok) => {
                if ok {
                    self.phase = Phase::Subscribing;
                    Action::Subscribe
                } else {
                    self.fail(AgentError::Connection)
                }
            },
            Event::Subscribed(ok) => {
                if ok {
                    self.phase = Phase::Listening;
                    self.attempts = 0;
                    Action::Receive
                } else {
                    self.fail(AgentError::Connection)
                }
            },
            Event::Message(p) => self.route(p.as_slice()),
            Event::Idle(up) => {
                if up {
                    Action::Receive
                } else {
                    self.link_lost()
                }
            },
            Event::StreamEnded => {
                self.phase = Phase::Closing;
                Action::CheckLink
            },
            Event::CommandRan(out) => self.publish_output(&out),
            Event::SpawnFailed => self.fail(AgentError::Execution),
            Event::Published(_) => {
                self.phase = Phase::Listening;
                Action::Receive
            },
            Event::Reconnected(ok) => self.try_reconnect(ok),
            Event::LinkChecked(up) => {
                if up {
                    self.phase = Phase::Unsubscribing;
                    Action::Unsubscribe
                } else {
                    self.phase = Phase::Finished;
                    Action::Exit(Outcome::Clean)
                }
            },
            Event::Unsubscribed(ok) => {
                if ok {
                    self.phase = Phase::Disconnecting;
                    Action::Disconnect
                } else {
                    self.fail(AgentError::Teardown)
                }
            },
            Event::Disconnected(ok) => {
                if ok {
                    self.phase = Phase::Finished;
                    Action::Exit(Outcome::Clean)
                } else {
                    self.fail(AgentError::Teardown)
                }
            },
        }
    }
}

} // verus!
