use vstd::prelude::*;

use crate::protocol::{command_of, command_prefix, has_prefix, output_prefix};
use crate::reply::is_utf8;
use crate::session::{next, ActionView, Agent, EventView, Outcome, Phase};

verus! {

/// The state reached and the actions issued when `evs` is fed to `a`, in order.
pub open spec fn run(a: Agent, evs: Seq<EventView>) -> (Agent, Seq<ActionView>)
    decreases evs.len(),
{
    if evs.len() == 0 {
        (a, Seq::empty())
    } else {
        let (b, acts) = run(a, evs.drop_last());
        let (c, act) = next(b, evs.last());
        (c, acts.push(act))
    }
}

/// `n` failed reconnection attempts.
pub open spec fn failures(n: nat) -> Seq<EventView> {
    Seq::new(n, |i: int| EventView::Reconnected(false))
}

/// Reconnection attempts numbered 1 to `n`, each after `delay_ms`.
pub open spec fn attempts(n: nat, delay_ms: u64) -> Seq<ActionView> {
    Seq::new(n, |i: int| ActionView::Reconnect { attempt: (i + 1) as u32, delay_ms })
}

/// The session drops while listening, then `n` reconnection attempts fail.
pub open spec fn drop_then_fail(n: nat) -> Seq<EventView> {
    seq![EventView::Idle(false)] + failures(n)
}

/// A payload without the command prefix runs nothing and publishes nothing:
/// the agent stays as it was and waits for the next event.
pub proof fn non_command_is_ignored(a: Agent, p: Seq<u8>)
    requires
        a.phase == Phase::Listening,
        !has_prefix(p, command_prefix()),
    ensures
        next(a, EventView::Message(p)) == (a, ActionView::Receive),
{
}

/// A payload with the command prefix runs exactly the text that follows the
/// prefix.
pub proof fn command_is_payload_without_prefix(a: Agent, p: Seq<u8>)
    requires
        a.phase == Phase::Listening,
        has_prefix(p, command_prefix()),
    ensures
        next(a, EventView::Message(p)).1 == ActionView::Execute(p.skip(command_prefix().len() as int)),
        command_prefix() + p.skip(command_prefix().len() as int) == p,
{
    assert(command_prefix() + p.skip(command_prefix().len() as int) =~= p);
}

/// A command that succeeds publishes `OUTPUT/` followed by its standard output.
pub proof fn success_publishes_stdout(a: Agent, out: Seq<u8>, err: Seq<u8>)
    requires
        a.phase == Phase::Executing,
        is_utf8(out),
        is_utf8(err),
    ensures
        next(a, EventView::CommandRan(out, err, true)).1 == ActionView::Publish(output_prefix() + out),
{
}

/// A command that fails publishes `OUTPUT/` followed by its standard error.
pub proof fn failure_publishes_stderr(a: Agent, out: Seq<u8>, err: Seq<u8>)
    requires
        a.phase == Phase::Executing,
        is_utf8(out),
        is_utf8(err),
    ensures
        next(a, EventView::CommandRan(out, err, false)).1 == ActionView::Publish(output_prefix() + err),
{
}

/// Every step keeps the agent well formed, and every reconnection attempt it
/// asks for is numbered within the policy, one past the attempts before it,
/// and waits the policy's delay first.
pub proof fn attempts_stay_within_policy(a: Agent, e: EventView)
    requires
        a.wf(),
    ensures
        next(a, e).0.wf(),
        next(a, e).0.policy == a.policy,
        next(a, e).1 matches ActionView::Reconnect { attempt, delay_ms } ==> {
            &&& 1 <= attempt <= a.policy.max_attempts
            &&& attempt == next(a, e).0.attempts
            &&& delay_ms == a.policy.delay_ms
            &&& (a.phase == Phase::Reconnecting ==> attempt == a.attempts + 1)
        },
{
}

proof fn failing_attempts(a: Agent, n: nat)
    requires
        a.wf(),
        a.phase == Phase::Listening,
        n < a.policy.max_attempts,
    ensures
        run(a, drop_then_fail(n)) == (
            a.enter_with(Phase::Reconnecting, (n + 1) as u32),
            attempts(n + 1, a.policy.delay_ms),
        ),
    decreases n,
{
    let evs = drop_then_fail(n);
    let d = a.policy.delay_ms;
    assert(evs.len() == n + 1);
    if n == 0 {
        assert(evs.drop_last() =~= Seq::<EventView>::empty());
        assert(evs.last() == EventView::Idle(false));
        assert(run(a, evs.drop_last()) == (a, Seq::<ActionView>::empty()));
        assert(Seq::<ActionView>::empty().push(ActionView::Reconnect { attempt: 1, delay_ms: d })
            =~= attempts(1, d));
    } else {
        let m = (n - 1) as nat;
        failing_attempts(a, m);
        assert(evs.drop_last() =~= drop_then_fail(m));
        assert(evs.last() == EventView::Reconnected(false));
        let b = a.enter_with(Phase::Reconnecting, (m + 1) as u32);
        assert(run(a, evs.drop_last()) == (b, attempts(m + 1, d)));
        assert(next(b, EventView::Reconnected(false)) == (
            a.enter_with(Phase::Reconnecting, (n + 1) as u32),
            ActionView::Reconnect { attempt: (n + 1) as u32, delay_ms: d },
        ));
        assert(attempts(m + 1, d).push(ActionView::Reconnect { attempt: (n + 1) as u32, delay_ms: d })
            =~= attempts(n + 1, d));
    }
}

/// When the session drops and reconnection succeeds on attempt `k`, exactly
/// `k` attempts are made, numbered 1 to `k` and each after the policy's
/// delay; the topic is then subscribed once, and once that succeeds the agent
/// listens again.
pub proof fn reconnect_succeeds_on_attempt(a: Agent, k: nat)
    requires
        a.wf(),
        a.phase == Phase::Listening,
        1 <= k <= a.policy.max_attempts,
    ensures
        ({
            let (b, acts) = run(
                a,
                drop_then_fail((k - 1) as nat).push(EventView::Reconnected(true)).push(
                    EventView::Subscribed(true),
                ),
            );
            &&& acts == attempts(k, a.policy.delay_ms).push(ActionView::Subscribe).push(
                ActionView::Receive,
            )
            &&& b == a.enter_with(Phase::Listening, 0)
        }),
{
    let m = (k - 1) as nat;
    let d = a.policy.delay_ms;
    failing_attempts(a, m);
    let e1 = drop_then_fail(m).push(EventView::Reconnected(true));
    let evs = e1.push(EventView::Subscribed(true));
    assert(evs.drop_last() =~= e1);
    assert(e1.drop_last() =~= drop_then_fail(m));
    let b = a.enter_with(Phase::Reconnecting, (m + 1) as u32);
    assert(run(a, e1) == (b.enter(Phase::Subscribing), attempts(k, d).push(ActionView::Subscribe)));
    assert(run(a, evs) == (
        a.enter_with(Phase::Listening, 0),
        attempts(k, d).push(ActionView::Subscribe).push(ActionView::Receive),
    ));
}

/// When every attempt that the policy allows fails, the loop ends without
/// publishing anything; the session being down, it ends cleanly with no
/// unsubscribe or disconnect.
pub proof fn reconnect_gives_up(a: Agent)
    requires
        a.wf(),
        a.phase == Phase::Listening,
        a.policy.max_attempts >= 1,
    ensures
        ({
            let n = a.policy.max_attempts as nat;
            let (b, acts) = run(a, drop_then_fail(n).push(EventView::LinkChecked(false)));
            &&& acts == attempts(n, a.policy.delay_ms).push(ActionView::CheckLink).push(
                ActionView::Exit(Outcome::Clean),
            )
            &&& b.phase == Phase::Finished
        }),
{
    let n = a.policy.max_attempts as nat;
    let d = a.policy.delay_ms;
    failing_attempts(a, (n - 1) as nat);
    let e1 = drop_then_fail(n);
    let evs = e1.push(EventView::LinkChecked(false));
    assert(evs.drop_last() =~= e1);
    assert(e1.drop_last() =~= drop_then_fail((n - 1) as nat));
    assert(e1.last() == EventView::Reconnected(false));
    let b = a.enter_with(Phase::Reconnecting, n as u32);
    assert(run(a, e1) == (b.enter(Phase::Closing), attempts(n, d).push(ActionView::CheckLink)));
}

} // verus!
