//! The session lifecycle: what the manager does with each runtime event.
//!
//! The manager tracks one [`SessionPhase`]. A runtime event is handled in two
//! moves. [`SessionPhase::react`] reads the event and says which runtime call
//! or caller signal it asks for; for a call it also moves the phase to the
//! state the runtime announced (`Ready`, `Stopping`). Once the call has been
//! made, [`SessionPhase::settle`] takes its outcome: a successful begin makes
//! the session `Running`, a successful end makes it `Idle`, and a failed call
//! leaves the announced state in place. [`SessionPhase::apply`] is both moves
//! with a call that succeeds, and [`run`] folds it over a queue of events.

use vstd::prelude::*;

verus! {

/// A session state as the runtime names it in a state-changed event.
#[derive(Clone, Copy, Debug, PartialEq, Eq, Structural)]
pub enum RuntimeState {
    Unknown,
    Idle,
    Ready,
    Synchronized,
    Visible,
    Focused,
    Stopping,
    LossPending,
    Exiting,
}

/// The state of the session as the manager tracks it.
#[derive(Clone, Copy, Debug, PartialEq, Eq, Structural)]
pub enum SessionPhase {
    /// No session is running and the runtime has not asked for one.
    Idle,
    /// The runtime is ready; the session has not been begun (yet, or the
    /// begin call failed).
    Ready,
    /// The session has been begun: frames may be driven.
    Running,
    /// The runtime asked the session to stop; it has not been ended (yet, or
    /// the end call failed).
    Stopping,
    /// The runtime is shutting the session down for good.
    Exiting,
    /// The runtime is about to lose the session.
    LossPending,
}

/// An event taken from the runtime's queue, reduced to what the manager reads.
#[derive(Clone, Copy, Debug, PartialEq, Eq, Structural)]
pub enum RuntimeEvent {
    SessionStateChanged(RuntimeState),
    InstanceLossPending,
    /// The runtime dropped this many events because its queue overflowed.
    EventsLost(u32),
    /// Any event the manager has no use for.
    Other,
}

/// An event as the runtime delivers it: a state change carries the number of
/// the new state.
#[derive(Clone, Copy, Debug, PartialEq, Eq, Structural)]
pub enum RawEvent {
    SessionStateChanged(i32),
    InstanceLossPending,
    EventsLost(u32),
    Other,
}

/// What an event asks for, beyond the change of phase.
#[derive(Clone, Copy, Debug, PartialEq, Eq, Structural)]
pub enum SessionAction {
    /// Nothing to do.
    Nothing,
    /// Begin the session with the stereo view configuration.
    Begin,
    /// End the session.
    End,
    /// Tell the caller to leave its render loop.
    Terminate,
    /// Tell the caller how many events the runtime dropped.
    ReportLost(u32),
}

/// The number the runtime uses for each session state it defines.
pub open spec fn state_of_raw(raw: i32) -> RuntimeState {
    if raw == 1 {
        RuntimeState::Idle
    } else if raw == 2 {
        RuntimeState::Ready
    } else if raw == 3 {
        RuntimeState::Synchronized
    } else if raw == 4 {
        RuntimeState::Visible
    } else if raw == 5 {
        RuntimeState::Focused
    } else if raw == 6 {
        RuntimeState::Stopping
    } else if raw == 7 {
        RuntimeState::LossPending
    } else if raw == 8 {
        RuntimeState::Exiting
    } else {
        RuntimeState::Unknown
    }
}

/// The event that a delivered event stands for.
pub open spec fn event_of_raw(raw: RawEvent) -> RuntimeEvent {
    match raw {
        RawEvent::SessionStateChanged(state) => RuntimeEvent::SessionStateChanged(
            state_of_raw(state),
        ),
        RawEvent::InstanceLossPending => RuntimeEvent::InstanceLossPending,
        RawEvent::EventsLost(count) => RuntimeEvent::EventsLost(count),
        RawEvent::Other => RuntimeEvent::Other,
    }
}

/// The phase right after an event has been read, before any call it asks for
/// has been made.
pub open spec fn react_phase(phase: SessionPhase, event: RuntimeEvent) -> SessionPhase {
    match event {
        RuntimeEvent::SessionStateChanged(RuntimeState::Ready) => SessionPhase::Ready,
        RuntimeEvent::SessionStateChanged(RuntimeState::Stopping) => if phase
            == SessionPhase::Running {
            SessionPhase::Stopping
        } else {
            phase
        },
        RuntimeEvent::SessionStateChanged(RuntimeState::Exiting) => SessionPhase::Exiting,
        RuntimeEvent::SessionStateChanged(RuntimeState::LossPending) => SessionPhase::LossPending,
        RuntimeEvent::InstanceLossPending => SessionPhase::Exiting,
        _ => phase,
    }
}

/// What an event asks for when it arrives in `phase`.
pub open spec fn react_action(phase: SessionPhase, event: RuntimeEvent) -> SessionAction {
    match event {
        RuntimeEvent::SessionStateChanged(RuntimeState::Ready) => SessionAction::Begin,
        RuntimeEvent::SessionStateChanged(RuntimeState::Stopping) => if phase
            == SessionPhase::Running {
            SessionAction::End
        } else {
            SessionAction::Nothing
        },
        RuntimeEvent::SessionStateChanged(RuntimeState::Exiting) => SessionAction::Terminate,
        RuntimeEvent::SessionStateChanged(RuntimeState::LossPending) => SessionAction::Terminate,
        RuntimeEvent::InstanceLossPending => SessionAction::Terminate,
        RuntimeEvent::EventsLost(count) => SessionAction::ReportLost(count),
        _ => SessionAction::Nothing,
    }
}

/// The phase once the call that `action` asked for has returned.
pub open spec fn settle_phase(
    phase: SessionPhase,
    action: SessionAction,
    succeeded: bool,
) -> SessionPhase {
    if succeeded && action == SessionAction::Begin && phase == SessionPhase::Ready {
        SessionPhase::Running
    } else if succeeded && action == SessionAction::End && phase == SessionPhase::Stopping {
        SessionPhase::Idle
    } else {
        phase
    }
}

/// The transition table: the phase after `event` has been handled and the
/// call it asked for, if any, has succeeded.
///
/// | event                                   | in phase | call  | next phase           |
/// |-----------------------------------------|----------|-------|----------------------|
/// | state changed to `Ready`                | any      | begin | `Running`            |
/// | state changed to `Stopping`             | Running  | end   | `Idle`               |
/// | state changed to `Exiting`/`LossPending`| any      |       | `Exiting`/`LossPending` |
/// | instance loss pending                   | any      |       | `Exiting`            |
/// | anything else                           | any      |       | unchanged            |
pub open spec fn apply_event(phase: SessionPhase, event: RuntimeEvent) -> SessionPhase {
    match event {
        RuntimeEvent::SessionStateChanged(RuntimeState::Ready) => SessionPhase::Running,
        RuntimeEvent::SessionStateChanged(RuntimeState::Stopping) => if phase
            == SessionPhase::Running {
            SessionPhase::Idle
        } else {
            phase
        },
        RuntimeEvent::SessionStateChanged(RuntimeState::Exiting) => SessionPhase::Exiting,
        RuntimeEvent::SessionStateChanged(RuntimeState::LossPending) => SessionPhase::LossPending,
        RuntimeEvent::InstanceLossPending => SessionPhase::Exiting,
        _ => phase,
    }
}

/// Whether an event tells the caller to leave its render loop.
pub open spec fn asks_exit(event: RuntimeEvent) -> bool {
    event == RuntimeEvent::SessionStateChanged(RuntimeState::Exiting) || event
        == RuntimeEvent::SessionStateChanged(RuntimeState::LossPending) || event
        == RuntimeEvent::InstanceLossPending
}

/// The phase after a whole queue of events, first to last.
pub open spec fn run(phase: SessionPhase, events: Seq<RuntimeEvent>) -> SessionPhase
    decreases events.len(),
{
    if events.len() == 0 {
        phase
    } else {
        apply_event(run(phase, events.drop_last()), events.last())
    }
}

/// Whether any event of a queue tells the caller to leave its render loop.
pub open spec fn any_asks_exit(events: Seq<RuntimeEvent>) -> bool {
    exists|i: int| 0 <= i < events.len() && asks_exit(#[trigger] events[i])
}

impl RuntimeState {
    /// Reads a session state from the number the runtime sends. A number the
    /// runtime does not define reads as `Unknown`.
    pub fn from_raw(raw: i32) -> (state: RuntimeState)
        ensures
            state == state_of_raw(raw),
    {
        if raw == 1 {
            RuntimeState::Idle
        } else if raw == 2 {
            RuntimeState::Ready
        } else if raw == 3 {
            RuntimeState::Synchronized
        } else if raw == 4 {
            RuntimeState::Visible
        } else if raw == 5 {
            RuntimeState::Focused
        } else if raw == 6 {
            RuntimeState::Stopping
        } else if raw == 7 {
            RuntimeState::LossPending
        } else if raw == 8 {
            RuntimeState::Exiting
        } else {
            RuntimeState::Unknown
        }
    }
}

impl RuntimeEvent {
    /// Reads a delivered event.
    pub fn from_raw(raw: RawEvent) -> (event: RuntimeEvent)
        ensures
            event == event_of_raw(raw),
    {
        match raw {
            RawEvent::SessionStateChanged(state) => RuntimeEvent::SessionStateChanged(
                RuntimeState::from_raw(state),
            ),
            RawEvent::InstanceLossPending => RuntimeEvent::InstanceLossPending,
            RawEvent::EventsLost(count) => RuntimeEvent::EventsLost(count),
            RawEvent::Other => RuntimeEvent::Other,
        }
    }

    /// Whether this event tells the caller to leave its render loop.
    pub fn asks_exit(&self) -> (exit: bool)
        ensures
            exit == asks_exit(*self),
    {
        match self {
            RuntimeEvent::SessionStateChanged(RuntimeState::Exiting) => true,
            RuntimeEvent::SessionStateChanged(RuntimeState::LossPending) => true,
            RuntimeEvent::InstanceLossPending => true,
            _ => false,
        }
    }
}

impl SessionPhase {
    /// Whether frames may be driven in this phase.
    pub fn is_running(&self) -> (running: bool)
        ensures
            running == (*self == SessionPhase::Running),
    {
        match self {
            SessionPhase::Running => true,
            _ => false,
        }
    }

    /// Reads one event: the phase the runtime announced, and what is to be
    /// done about it.
    pub fn react(self, event: RuntimeEvent) -> (step: (SessionPhase, SessionAction))
        ensures
            step.0 == react_phase(self, event),
            step.1 == react_action(self, event),
    {
        match event {
            RuntimeEvent::SessionStateChanged(RuntimeState::Ready) => (
                SessionPhase::Ready,
                SessionAction::Begin,
            ),
            RuntimeEvent::SessionStateChanged(RuntimeState::Stopping) => {
                if self.is_running() {
                    (SessionPhase::Stopping, SessionAction::End)
                } else {
                    (self, SessionAction::Nothing)
                }
            },
            RuntimeEvent::SessionStateChanged(RuntimeState::Exiting) => (
                SessionPhase::Exiting,
                SessionAction::Terminate,
            ),
            RuntimeEvent::SessionStateChanged(RuntimeState::LossPending) => (
                SessionPhase::LossPending,
                SessionAction::Terminate,
            ),
            RuntimeEvent::InstanceLossPending => (SessionPhase::Exiting, SessionAction::Terminate),
            RuntimeEvent::EventsLost(count) => (self, SessionAction::ReportLost(count)),
            _ => (self, SessionAction::Nothing),
        }
    }

    /// Takes the outcome of the call that `action` asked for.
    pub fn settle(self, action: SessionAction, succeeded: bool) -> (next: SessionPhase)
        ensures
            next == settle_phase(self, action, succeeded),
    {
        if !succeeded {
            return self;
        }
        match (self, action) {
            (SessionPhase::Ready, SessionAction::Begin) => SessionPhase::Running,
            (SessionPhase::Stopping, SessionAction::End) => SessionPhase::Idle,
            _ => self,
        }
    }

    /// Handles one event whose call, if it asks for one, succeeds.
    pub fn apply(self, event: RuntimeEvent) -> (next: SessionPhase)
        ensures
            next == apply_event(self, event),
            next == settle_phase(react_phase(self, event), react_action(self, event), true),
    {
        let (announced, action) = self.react(event);
        announced.settle(action, true)
    }

    /// Handles a queue of events, first to last, every call succeeding.
    /// Returns the last phase and whether any event asked the caller to leave
    /// its render loop.
    pub fn apply_all(self, events: &Vec<RuntimeEvent>) -> (end: (SessionPhase, bool))
        ensures
            end.0 == run(self, events@),
            end.1 == any_asks_exit(events@),
    {
        let mut phase = self;
        let mut exit = false;
        let mut i: usize = 0;
        while i < events.len()
            invariant
                i <= events.len(),
                phase == run(self, events@.take(i as int)),
                exit == any_asks_exit(events@.take(i as int)),
            decreases events.len() - i,
        {
            let event = events[i];
            proof {
                let before = events@.take(i as int);
                let after = events@.take(i as int + 1);
                assert(after.drop_last() =~= before);
                assert(after.last() == event);
                if any_asks_exit(before) {
                    let k = choose|k: int| 0 <= k < before.len() && asks_exit(#[trigger] before[k]);
                    assert(asks_exit(after[k]));
                }
                if asks_exit(event) {
                    assert(asks_exit(after[i as int]));
                }
                if any_asks_exit(after) {
                    let k = choose|k: int| 0 <= k < after.len() && asks_exit(#[trigger] after[k]);
                    if k < i {
                        assert(asks_exit(before[k]));
                    }
                }
            }
            phase = phase.apply(event);
            if event.asks_exit() {
                exit = true;
            }
            i += 1;
        }
        proof {
            assert(events@.take(events.len() as int) =~= events@);
        }
        (phase, exit)
    }
}

/// Reading an event and settling a successful call is one row of the
/// transition table.
pub proof fn lemma_react_then_settle(phase: SessionPhase, event: RuntimeEvent)
    ensures
        settle_phase(react_phase(phase, event), react_action(phase, event), true) == apply_event(
            phase,
            event,
        ),
        react_action(phase, event) == SessionAction::Terminate <==> asks_exit(event),
{
}

/// A failed call leaves the session out of `Running`, in the state the
/// runtime announced.
pub proof fn lemma_failed_call_keeps_announced_phase(phase: SessionPhase, event: RuntimeEvent)
    ensures
        settle_phase(react_phase(phase, event), react_action(phase, event), false) == react_phase(
            phase,
            event,
        ),
        react_action(phase, event) == SessionAction::Begin ==> react_phase(phase, event)
            == SessionPhase::Ready,
        react_action(phase, event) == SessionAction::End ==> react_phase(phase, event)
            == SessionPhase::Stopping,
{
}

/// Batch-size independence: handling a queue in one go, or as two queues one
/// after the other, ends in the same phase and gives the same exit signal.
pub proof fn lemma_batch_size_independence(
    phase: SessionPhase,
    first: Seq<RuntimeEvent>,
    rest: Seq<RuntimeEvent>,
)
    ensures
        run(phase, first + rest) == run(run(phase, first), rest),
        any_asks_exit(first + rest) == (any_asks_exit(first) || any_asks_exit(rest)),
    decreases rest.len(),
{
    lemma_exit_split(first, rest);
    if rest.len() == 0 {
        assert(first + rest =~= first);
    } else {
        lemma_batch_size_independence(phase, first, rest.drop_last());
        assert((first + rest).drop_last() =~= first + rest.drop_last());
        assert((first + rest).last() == rest.last());
    }
}

/// A queue asks the caller to leave exactly when one of its parts does.
pub proof fn lemma_exit_split(first: Seq<RuntimeEvent>, rest: Seq<RuntimeEvent>)
    ensures
        any_asks_exit(first + rest) == (any_asks_exit(first) || any_asks_exit(rest)),
{
    let whole = first + rest;
    if any_asks_exit(first) {
        let k = choose|k: int| 0 <= k < first.len() && asks_exit(#[trigger] first[k]);
        assert(asks_exit(whole[k]));
    }
    if any_asks_exit(rest) {
        let k = choose|k: int| 0 <= k < rest.len() && asks_exit(#[trigger] rest[k]);
        assert(asks_exit(whole[first.len() + k]));
    }
    if any_asks_exit(whole) {
        let k = choose|k: int| 0 <= k < whole.len() && asks_exit(#[trigger] whole[k]);
        if k < first.len() {
            assert(asks_exit(first[k]));
        } else {
            assert(asks_exit(rest[k - first.len()]));
        }
    }
}

/// A stop request that arrives while the session runs ends it, and the
/// session stays out of `Running` until the runtime reports `Ready` again.
pub proof fn lemma_stopped_until_ready(events: Seq<RuntimeEvent>)
    requires
        forall|i: int|
            0 <= i < events.len() ==> #[trigger] events[i] != RuntimeEvent::SessionStateChanged(
                RuntimeState::Ready,
            ),
    ensures
        apply_event(
            SessionPhase::Running,
            RuntimeEvent::SessionStateChanged(RuntimeState::Stopping),
        ) == SessionPhase::Idle,
        run(SessionPhase::Idle, events) != SessionPhase::Running,
    decreases events.len(),
{
    if events.len() > 0 {
        let head = events.drop_last();
        assert forall|i: int| 0 <= i < head.len() implies #[trigger] head[i]
            != RuntimeEvent::SessionStateChanged(RuntimeState::Ready) by {
            assert(head[i] == events[i]);
        }
        lemma_stopped_until_ready(head);
        assert(events.last() == events[events.len() - 1]);
    }
}

} // verus!
