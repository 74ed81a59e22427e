//! The session driver: a two-state machine that reconnects to the validator
//! for as long as the process lives. The caller performs each action and
//! reports what happened as the next event.

use vstd::prelude::*;
use crate::peer::ConnectError;

verus! {

/// Seconds to wait after a failed connection attempt.
pub const RETRY_INTERVAL_SECS: u64 = 1;

#[derive(Clone, Copy, Debug, PartialEq, Eq, Structural)]
pub enum DriverState {
    /// No channel: the next step is a connection attempt.
    Connecting,
    /// A channel is handed to the signing session, which serves requests.
    Running,
}

#[derive(Clone, Copy, Debug, PartialEq, Eq, Structural)]
pub enum DriverEvent {
    /// A connection attempt failed.
    ConnectFailed(ConnectError),
    /// A connection attempt produced a channel.
    Connected,
    /// The signing session's request loop returned (with an error or not).
    SessionEnded,
}

#[derive(Clone, Copy, Debug, PartialEq, Eq, Structural)]
pub enum DriverAction {
    /// Attempt a connection now.
    Connect,
    /// Wait `RETRY_INTERVAL_SECS`, then attempt a connection.
    SleepThenConnect,
    /// Hand the channel to the signing session and run its request loop,
    /// with the same key and session state as before.
    RunSession,
}

/// One transition. An event that cannot arise in a state leaves the state as
/// it is and repeats that state's action.
pub open spec fn step_spec(s: DriverState, e: DriverEvent) -> (DriverState, DriverAction) {
    match (s, e) {
        (DriverState::Connecting, DriverEvent::ConnectFailed(_)) => (DriverState::Connecting, DriverAction::SleepThenConnect),
        (DriverState::Connecting, DriverEvent::Connected) => (DriverState::Running, DriverAction::RunSession),
        (DriverState::Running, DriverEvent::SessionEnded) => (DriverState::Connecting, DriverAction::Connect),
        (DriverState::Connecting, _) => (DriverState::Connecting, DriverAction::Connect),
        (DriverState::Running, _) => (DriverState::Running, DriverAction::RunSession),
    }
}

/// The state after a run of events, and the actions taken on the way.
pub open spec fn run(s: DriverState, evs: Seq<DriverEvent>) -> (DriverState, Seq<DriverAction>)
    decreases evs.len(),
{
    if evs.len() == 0 {
        (s, Seq::empty())
    } else {
        let (s1, a) = step_spec(s, evs[0]);
        let (s2, acts) = run(s1, evs.drop_first());
        (s2, seq![a] + acts)
    }
}

/// The state the driver starts in, and the action it starts with.
pub fn start() -> (r: (DriverState, DriverAction))
    ensures
        r == (DriverState::Connecting, DriverAction::Connect),
{
    (DriverState::Connecting, DriverAction::Connect)
}

/// Decides the next state and action from the current state and an event.
pub fn step(s: DriverState, e: DriverEvent) -> (r: (DriverState, DriverAction))
    ensures
        r == step_spec(s, e),
{
    match (s, e) {
        (DriverState::Connecting, DriverEvent::ConnectFailed(_)) => (DriverState::Connecting, DriverAction::SleepThenConnect),
        (DriverState::Connecting, DriverEvent::Connected) => (DriverState::Running, DriverAction::RunSession),
        (DriverState::Running, DriverEvent::SessionEnded) => (DriverState::Connecting, DriverAction::Connect),
        (DriverState::Connecting, _) => (DriverState::Connecting, DriverAction::Connect),
        (DriverState::Running, _) => (DriverState::Running, DriverAction::RunSession),
    }
}

/// The event that a connection attempt reports to the driver.
pub fn attempt_event<T>(attempt: &Result<T, ConnectError>) -> (r: DriverEvent)
    ensures
        *attempt matches Ok(_) ==> r == DriverEvent::Connected,
        *attempt matches Err(e) ==> r == DriverEvent::ConnectFailed(e),
{
    match attempt {
        Ok(_) => DriverEvent::Connected,
        Err(e) => DriverEvent::ConnectFailed(*e),
    }
}

/// How many times `a` occurs in `acts`.
pub open spec fn count(acts: Seq<DriverAction>, a: DriverAction) -> nat
    decreases acts.len(),
{
    if acts.len() == 0 {
        0
    } else {
        (if acts[0] == a { 1nat } else { 0nat }) + count(acts.drop_first(), a)
    }
}

proof fn lemma_failures_then_connect(evs: Seq<DriverEvent>)
    requires
        forall|i: int| 0 <= i < evs.len() ==> #[trigger] evs[i] is ConnectFailed,
    ensures
        run(DriverState::Connecting, evs.push(DriverEvent::Connected)) == (
            DriverState::Running,
            Seq::new(evs.len(), |i: int| DriverAction::SleepThenConnect).push(DriverAction::RunSession),
        ),
    decreases evs.len(),
{
    let all = evs.push(DriverEvent::Connected);
    if evs.len() > 0 {
        assert(evs[0] is ConnectFailed);
        assert(all[0] == evs[0]);
        assert(step_spec(DriverState::Connecting, all[0]) == (DriverState::Connecting, DriverAction::SleepThenConnect));
        assert(all.drop_first() =~= evs.drop_first().push(DriverEvent::Connected));
        assert forall|i: int| 0 <= i < evs.drop_first().len() implies #[trigger] evs.drop_first()[i] is ConnectFailed by {
            assert(evs[i + 1] is ConnectFailed);
        }
        lemma_failures_then_connect(evs.drop_first());
        assert(seq![DriverAction::SleepThenConnect] + Seq::new((evs.len() - 1) as nat, |i: int| DriverAction::SleepThenConnect).push(
            DriverAction::RunSession,
        ) =~= Seq::new(evs.len(), |i: int| DriverAction::SleepThenConnect).push(DriverAction::RunSession));
    } else {
        assert(all[0] == DriverEvent::Connected);
        assert(all.drop_first() =~= Seq::<DriverEvent>::empty());
        assert(run(DriverState::Running, all.drop_first()) == (DriverState::Running, Seq::<DriverAction>::empty()));
        assert(seq![DriverAction::RunSession] + Seq::<DriverAction>::empty() =~= Seq::new(
            0,
            |i: int| DriverAction::SleepThenConnect,
        ).push(DriverAction::RunSession));
    }
}

proof fn lemma_count_sleeps(n: nat, a: DriverAction)
    ensures
        count(Seq::new(n, |i: int| DriverAction::SleepThenConnect).push(DriverAction::RunSession), a)
            == if a == DriverAction::SleepThenConnect { n } else if a == DriverAction::RunSession { 1 } else { 0 },
    decreases n,
{
    let s = Seq::new(n, |i: int| DriverAction::SleepThenConnect).push(DriverAction::RunSession);
    if n > 0 {
        assert(s[0] == DriverAction::SleepThenConnect);
        assert(s.drop_first() =~= Seq::new((n - 1) as nat, |i: int| DriverAction::SleepThenConnect).push(
            DriverAction::RunSession,
        ));
        lemma_count_sleeps((n - 1) as nat, a);
    } else {
        assert(s[0] == DriverAction::RunSession);
        assert(s.drop_first() =~= Seq::<DriverAction>::empty());
        assert(count(s.drop_first(), a) == 0);
    }
}

/// After N failed connection attempts in a row and then a successful one,
/// the driver is running, has slept N times and has started the session
/// exactly once.
pub proof fn lemma_reconnect(evs: Seq<DriverEvent>)
    requires
        forall|i: int| 0 <= i < evs.len() ==> #[trigger] evs[i] is ConnectFailed,
    ensures
        run(DriverState::Connecting, evs.push(DriverEvent::Connected)).0 == DriverState::Running,
        count(run(DriverState::Connecting, evs.push(DriverEvent::Connected)).1, DriverAction::SleepThenConnect)
            == evs.len(),
        count(run(DriverState::Connecting, evs.push(DriverEvent::Connected)).1, DriverAction::RunSession) == 1,
{
    lemma_failures_then_connect(evs);
    lemma_count_sleeps(evs.len(), DriverAction::SleepThenConnect);
    lemma_count_sleeps(evs.len(), DriverAction::RunSession);
}

/// A failed connection attempt, a peer mismatch included, never stops the
/// driver: it waits and tries again. Nor does the end of a session: it
/// reconnects.
pub proof fn lemma_failures_are_retried(e: ConnectError)
    ensures
        step_spec(DriverState::Connecting, DriverEvent::ConnectFailed(e)) == (
            DriverState::Connecting,
            DriverAction::SleepThenConnect,
        ),
        step_spec(DriverState::Running, DriverEvent::SessionEnded) == (DriverState::Connecting, DriverAction::Connect),
{
}

} // verus!
