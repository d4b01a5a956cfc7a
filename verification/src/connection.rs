//! The per-source reconnecting subscription state machine.
//!
//! The driver of one source owns the connect task and the stream handle;
//! this module owns the decisions: which state follows which observed
//! event, and which item the source sequence yields.  The machine has no
//! terminal state — a source retries indefinitely — and only a fault of
//! the connect task itself is fatal.

use vstd::prelude::*;
use crate::update::Update;

verus! {

/// Connection progress of one source.  Initial state: `NotConnected`.
#[derive(Clone, Copy, Debug, PartialEq, Eq, Structural)]
pub enum ConnectionState {
    /// Initial and post-backoff state.
    NotConnected,
    /// A connect-and-subscribe task is in flight.
    Connecting,
    /// An active upstream subscription is producing items.
    Ready,
    /// A failure occurred; a backoff timer is pending.
    WaitReconnect,
}

/// What the driver observed at the await point of the current state.
#[derive(Clone, Copy, Debug, PartialEq, Eq, Structural)]
pub enum ConnectionEvent {
    /// `NotConnected`: the connect-and-subscribe task was spawned.
    TaskSpawned,
    /// `Connecting`: the task completed with an active subscription.
    SubscribeOk,
    /// `Connecting`: the task completed with a connect- or
    /// subscribe-level error.
    SubscribeFailed,
    /// `Connecting`: the task itself was aborted or panicked.
    TaskFault,
    /// `Ready`: the subscription yielded a fresh update.
    Received(Update),
    /// `Ready`: the subscription yielded an error status.
    ReceiveFailed,
    /// `Ready`: the subscription ended unexpectedly.
    StreamClosed,
    /// `WaitReconnect`: the backoff timer elapsed.
    BackoffElapsed,
}

/// Whether `event` is one that awaiting in `state` can produce.
pub open spec fn event_fits(state: ConnectionState, event: ConnectionEvent) -> bool {
    match state {
        ConnectionState::NotConnected => event == ConnectionEvent::TaskSpawned,
        ConnectionState::Connecting => event == ConnectionEvent::SubscribeOk || event
            == ConnectionEvent::SubscribeFailed || event == ConnectionEvent::TaskFault,
        ConnectionState::Ready => event matches ConnectionEvent::Received(_) || event
            == ConnectionEvent::ReceiveFailed || event == ConnectionEvent::StreamClosed,
        ConnectionState::WaitReconnect => event == ConnectionEvent::BackoffElapsed,
    }
}

/// The outcome of one transition: the next state and the item the source
/// sequence yields, or a fatal fault that must terminate the process.
#[derive(Clone, Copy, Debug, PartialEq, Eq, Structural)]
pub enum StepResult {
    Continue(ConnectionState, Option<Update>),
    Fatal,
}

/// The transition table of the machine.  On a pair that `event_fits`
/// rules out it leaves the state unchanged.
pub open spec fn step_spec(state: ConnectionState, event: ConnectionEvent) -> StepResult {
    match (state, event) {
        (ConnectionState::NotConnected, ConnectionEvent::TaskSpawned) => StepResult::Continue(
            ConnectionState::Connecting,
            None,
        ),
        (ConnectionState::Connecting, ConnectionEvent::SubscribeOk) => StepResult::Continue(
            ConnectionState::Ready,
            None,
        ),
        (ConnectionState::Connecting, ConnectionEvent::SubscribeFailed) => StepResult::Continue(
            ConnectionState::WaitReconnect,
            None,
        ),
        (ConnectionState::Connecting, ConnectionEvent::TaskFault) => StepResult::Fatal,
        (ConnectionState::Ready, ConnectionEvent::Received(u)) => StepResult::Continue(
            ConnectionState::Ready,
            Some(u),
        ),
        (ConnectionState::Ready, ConnectionEvent::ReceiveFailed) => StepResult::Continue(
            ConnectionState::WaitReconnect,
            None,
        ),
        (ConnectionState::Ready, ConnectionEvent::StreamClosed) => StepResult::Continue(
            ConnectionState::WaitReconnect,
            None,
        ),
        (ConnectionState::WaitReconnect, ConnectionEvent::BackoffElapsed) => StepResult::Continue(
            ConnectionState::NotConnected,
            None,
        ),
        _ => StepResult::Continue(state, None),
    }
}

/// One transition of the machine, as the driver runs it.
pub fn connection_step(state: ConnectionState, event: ConnectionEvent) -> (r: StepResult)
    requires
        event_fits(state, event),
    ensures
        r == step_spec(state, event),
{
    match (state, event) {
        (ConnectionState::NotConnected, ConnectionEvent::TaskSpawned) => StepResult::Continue(
            ConnectionState::Connecting,
            None,
        ),
        (ConnectionState::Connecting, ConnectionEvent::SubscribeOk) => StepResult::Continue(
            ConnectionState::Ready,
            None,
        ),
        (ConnectionState::Connecting, ConnectionEvent::SubscribeFailed) => StepResult::Continue(
            ConnectionState::WaitReconnect,
            None,
        ),
        (ConnectionState::Connecting, ConnectionEvent::TaskFault) => StepResult::Fatal,
        (ConnectionState::Ready, ConnectionEvent::Received(u)) => StepResult::Continue(
            ConnectionState::Ready,
            Some(u),
        ),
        (ConnectionState::Ready, ConnectionEvent::ReceiveFailed) => StepResult::Continue(
            ConnectionState::WaitReconnect,
            None,
        ),
        (ConnectionState::Ready, ConnectionEvent::StreamClosed) => StepResult::Continue(
            ConnectionState::WaitReconnect,
            None,
        ),
        (ConnectionState::WaitReconnect, ConnectionEvent::BackoffElapsed) => StepResult::Continue(
            ConnectionState::NotConnected,
            None,
        ),
        _ => StepResult::Continue(state, None),
    }
}

/// What the driver must do, and then await, in a state.
#[derive(Clone, Copy, Debug, PartialEq, Eq, Structural)]
pub enum ConnectionAction {
    /// Spawn the connect-and-subscribe task.
    SpawnConnect,
    /// Await the completion of the task.
    AwaitTask,
    /// Await the next item of the subscription.
    PollStream,
    /// Sleep for the backoff interval.
    SleepBackoff,
}

/// The action column of the transition table.
pub fn required_action(state: ConnectionState) -> (a: ConnectionAction)
    ensures
        a == match state {
            ConnectionState::NotConnected => ConnectionAction::SpawnConnect,
            ConnectionState::Connecting => ConnectionAction::AwaitTask,
            ConnectionState::Ready => ConnectionAction::PollStream,
            ConnectionState::WaitReconnect => ConnectionAction::SleepBackoff,
        },
{
    match state {
        ConnectionState::NotConnected => ConnectionAction::SpawnConnect,
        ConnectionState::Connecting => ConnectionAction::AwaitTask,
        ConnectionState::Ready => ConnectionAction::PollStream,
        ConnectionState::WaitReconnect => ConnectionAction::SleepBackoff,
    }
}

/// Law: a source reaches `Ready` only through `Connecting` — never
/// directly from `NotConnected` — so at most one subscription is active
/// per source at any time.
pub proof fn lemma_ready_only_from_connecting(state: ConnectionState, event: ConnectionEvent)
    requires
        event_fits(state, event),
    ensures
        (step_spec(state, event) matches StepResult::Continue(next, _) && next
            == ConnectionState::Ready) ==> (state == ConnectionState::Connecting || state
            == ConnectionState::Ready),
{
}

/// Law: a new connect attempt starts only after the backoff of a failure
/// has elapsed, so the connector never busy-loops on persistent failures.
pub proof fn lemma_reconnect_after_backoff(state: ConnectionState, event: ConnectionEvent)
    requires
        event_fits(state, event),
    ensures
        (step_spec(state, event) matches StepResult::Continue(next, _) && next
            == ConnectionState::NotConnected) ==> (state == ConnectionState::WaitReconnect && event
            == ConnectionEvent::BackoffElapsed),
{
}

/// Law: every subscribe-level, stream-level or end-of-stream failure is
/// transient; the machine halts exactly on a fault of the connect task.
pub proof fn lemma_only_task_fault_fatal(state: ConnectionState, event: ConnectionEvent)
    requires
        event_fits(state, event),
    ensures
        step_spec(state, event) == StepResult::Fatal <==> event == ConnectionEvent::TaskFault,
{
}

/// Law: an item is yielded exactly for a fresh update of an active
/// subscription, unchanged, and the subscription stays active.
pub proof fn lemma_yield_only_when_ready(state: ConnectionState, event: ConnectionEvent)
    requires
        event_fits(state, event),
    ensures
        step_spec(state, event) matches StepResult::Continue(next, y) ==> (y matches Some(u) ==> (
        state == ConnectionState::Ready && next == ConnectionState::Ready && event
            == ConnectionEvent::Received(u))),
{
}

/// Whether every event of a run is one that awaiting in the state
/// reached at its position can produce.
pub open spec fn events_fit(state: ConnectionState, events: Seq<ConnectionEvent>) -> bool
    decreases events.len(),
{
    events.len() == 0 || (event_fits(state, events.first()) && match step_spec(
        state,
        events.first(),
    ) {
        StepResult::Continue(next, _) => events_fit(next, events.drop_first()),
        StepResult::Fatal => true,
    })
}

/// Whether an event reports that the current subscription attempt or
/// subscription ended.
pub open spec fn is_failure_event(event: ConnectionEvent) -> bool {
    event == ConnectionEvent::SubscribeFailed || event == ConnectionEvent::ReceiveFailed || event
        == ConnectionEvent::StreamClosed || event == ConnectionEvent::TaskFault
}

/// Law: at most one subscription per source.  While a subscription is
/// being set up or is active, and nothing reports its end, no further
/// connect task is spawned: subscribe attempts strictly alternate with
/// subscription endings.
pub proof fn lemma_single_subscription(state: ConnectionState, events: Seq<ConnectionEvent>)
    requires
        events_fit(state, events),
        state == ConnectionState::Connecting || state == ConnectionState::Ready,
        forall|k: int| 0 <= k < events.len() ==> !is_failure_event(#[trigger] events[k]),
    ensures
        forall|k: int|
            0 <= k < events.len() ==> #[trigger] events[k] != ConnectionEvent::TaskSpawned,
    decreases events.len(),
{
    if events.len() == 0 {
    } else {
        let e = events.first();
        assert(!is_failure_event(e));
        assert(e != ConnectionEvent::TaskSpawned);
        let next = match step_spec(state, e) {
            StepResult::Continue(n, _) => n,
            StepResult::Fatal => state,
        };
        assert(next == ConnectionState::Connecting || next == ConnectionState::Ready);
        assert(forall|k: int|
            0 <= k < events.drop_first().len() ==> !is_failure_event(
                #[trigger] events.drop_first()[k],
            ));
        lemma_single_subscription(next, events.drop_first());
        assert(forall|k: int| 1 <= k < events.len() ==> events[k] == events.drop_first()[k - 1]);
    }
}

/// The state a source reaches after a sequence of observed events.  A
/// fatal fault terminates the process, so a run speaks of the events
/// before any fault; a faulting event is skipped here.
pub open spec fn run_state(state: ConnectionState, events: Seq<ConnectionEvent>) -> ConnectionState
    decreases events.len(),
{
    if events.len() == 0 {
        state
    } else {
        match step_spec(state, events.first()) {
            StepResult::Continue(next, _) => run_state(next, events.drop_first()),
            StepResult::Fatal => run_state(state, events.drop_first()),
        }
    }
}

/// The events of one failed connect attempt: spawn, subscribe failure,
/// backoff.
pub open spec fn failed_attempt() -> Seq<ConnectionEvent> {
    seq![
        ConnectionEvent::TaskSpawned,
        ConnectionEvent::SubscribeFailed,
        ConnectionEvent::BackoffElapsed,
    ]
}

/// `n` failed connect attempts in a row.
pub open spec fn failed_attempts(n: nat) -> Seq<ConnectionEvent>
    decreases n,
{
    if n == 0 {
        Seq::empty()
    } else {
        failed_attempt() + failed_attempts((n - 1) as nat)
    }
}

/// A run splits at any point: the tail continues from where the head
/// ended.
pub proof fn lemma_run_state_append(
    state: ConnectionState,
    a: Seq<ConnectionEvent>,
    b: Seq<ConnectionEvent>,
)
    ensures
        run_state(state, a + b) == run_state(run_state(state, a), b),
    decreases a.len(),
{
    if a.len() == 0 {
        assert(a + b =~= b);
    } else {
        assert((a + b).first() == a.first());
        assert((a + b).drop_first() =~= a.drop_first() + b);
        match step_spec(state, a.first()) {
            StepResult::Continue(next, _) => {
                lemma_run_state_append(next, a.drop_first(), b);
            },
            StepResult::Fatal => {
                lemma_run_state_append(state, a.drop_first(), b);
            },
        }
    }
}

/// Law: the connector retries indefinitely — after any number of failed
/// connect attempts, a connect attempt that succeeds still brings the
/// source to `Ready`; there is no retry limit.
pub proof fn lemma_retry_indefinitely(n: nat)
    ensures
        run_state(
            ConnectionState::NotConnected,
            failed_attempts(n) + seq![ConnectionEvent::TaskSpawned, ConnectionEvent::SubscribeOk],
        ) == ConnectionState::Ready,
    decreases n,
{
    let heal = seq![ConnectionEvent::TaskSpawned, ConnectionEvent::SubscribeOk];
    lemma_run_state_append(ConnectionState::NotConnected, failed_attempts(n), heal);
    lemma_failed_attempts_return(n);
    lemma_healing_attempt_run();
}

/// A connect attempt that succeeds takes `NotConnected` to `Ready`.
proof fn lemma_healing_attempt_run()
    ensures
        run_state(
            ConnectionState::NotConnected,
            seq![ConnectionEvent::TaskSpawned, ConnectionEvent::SubscribeOk],
        ) == ConnectionState::Ready,
{
    let a = seq![ConnectionEvent::TaskSpawned, ConnectionEvent::SubscribeOk];
    let a1 = a.drop_first();
    assert(a.first() == ConnectionEvent::TaskSpawned);
    assert(a1.first() == ConnectionEvent::SubscribeOk);
    assert(a1.drop_first().len() == 0);
    assert(run_state(ConnectionState::NotConnected, a) == run_state(ConnectionState::Connecting, a1));
    assert(run_state(ConnectionState::Connecting, a1) == run_state(
        ConnectionState::Ready,
        a1.drop_first(),
    ));
}

/// One failed connect attempt returns the source to `NotConnected`.
proof fn lemma_failed_attempt_run()
    ensures
        run_state(ConnectionState::NotConnected, failed_attempt())
            == ConnectionState::NotConnected,
{
    let a = failed_attempt();
    let a1 = a.drop_first();
    let a2 = a1.drop_first();
    assert(a.first() == ConnectionEvent::TaskSpawned);
    assert(a1.first() == ConnectionEvent::SubscribeFailed);
    assert(a2.first() == ConnectionEvent::BackoffElapsed);
    assert(a2.drop_first().len() == 0);
    assert(run_state(ConnectionState::NotConnected, a) == run_state(ConnectionState::Connecting, a1));
    assert(run_state(ConnectionState::Connecting, a1) == run_state(
        ConnectionState::WaitReconnect,
        a2,
    ));
    assert(run_state(ConnectionState::WaitReconnect, a2) == run_state(
        ConnectionState::NotConnected,
        a2.drop_first(),
    ));
}

/// After any number of failed attempts the source is back at
/// `NotConnected`, ready for the next attempt.
pub proof fn lemma_failed_attempts_return(n: nat)
    ensures
        run_state(ConnectionState::NotConnected, failed_attempts(n))
            == ConnectionState::NotConnected,
    decreases n,
{
    if n == 0 {
    } else {
        lemma_run_state_append(
            ConnectionState::NotConnected,
            failed_attempt(),
            failed_attempts((n - 1) as nat),
        );
        lemma_failed_attempt_run();
        lemma_failed_attempts_return((n - 1) as nat);
    }
}

} // verus!
