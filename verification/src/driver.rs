//! Running a built graph to its end.
//!
//! The driver is a state machine. The caller owns the graph and the event
//! loop: it hands each thing that happened to `step`, and does what `step`
//! answers. The machine starts `Idle`, is `Running` while the graph plays,
//! and ends `Completed` or `Failed`. It asks for the teardown of the graph
//! at the moment it reaches an end, on every path, and never again.

use vstd::prelude::*;
use crate::error::DriverError;
use crate::error::JobError;

verus! {

/// What the running graph puts on its event stream.
#[derive(Clone, Debug, PartialEq, Eq)]
pub enum PipelineEvent {
    /// Every stage has seen the end of its input.
    EndOfStream,
    /// A stage failed, for the cause given.
    Error(String),
    /// Anything else.
    Other,
}

/// What the caller reports to the driver.
#[derive(Clone, Debug, PartialEq, Eq)]
pub enum Signal {
    /// The job is to begin.
    Start,
    /// The graph took the request to play.
    PlayingAccepted,
    /// The graph refused the request to play.
    PlayingRejected,
    /// The next event of the stream.
    Event(PipelineEvent),
}

/// What the caller is to do next.
#[derive(Clone, Copy, Debug, PartialEq, Eq, Structural)]
pub enum Action {
    /// Ask the graph to play.
    RequestPlaying,
    /// Wait for the next event of the stream.
    AwaitEvent,
    /// Ask the graph to return to its null state, which releases what it holds.
    Teardown,
    /// Nothing: the signal did not concern the driver in its state.
    Nothing,
}

/// Where a job stands.
#[derive(Clone, Debug, PartialEq, Eq)]
pub enum DriverState {
    /// Built, not started.
    Idle,
    /// Asked to play; events are being read.
    Running,
    /// The stream ended.
    Completed,
    /// The job failed.
    Failed(JobError),
}

/// What a run over a list of events came to.
#[derive(Clone, Debug, PartialEq, Eq)]
pub struct Report {
    /// The state after the last event.
    pub state: DriverState,
    /// How often the teardown was asked for.
    pub teardowns: usize,
}

impl DriverState {
    /// Whether the job is over.
    pub open spec fn is_terminal(self) -> bool {
        self is Completed || self is Failed
    }

    /// Whether the job is over.
    pub fn terminal(&self) -> (over: bool)
        ensures
            over == self.is_terminal(),
    {
        match self {
            DriverState::Completed => true,
            DriverState::Failed(_) => true,
            _ => false,
        }
    }

    /// The result of the job, once it is over.
    pub open spec fn spec_outcome(self) -> Option<Result<(), JobError>> {
        match self {
            DriverState::Completed => Some(Ok(())),
            DriverState::Failed(error) => Some(Err(error)),
            _ => None,
        }
    }

    /// The result of the job, once it is over.
    pub fn outcome(self) -> (result: Option<Result<(), JobError>>)
        ensures
            result == self.spec_outcome(),
    {
        match self {
            DriverState::Completed => Some(Ok(())),
            DriverState::Failed(error) => Some(Err(error)),
            _ => None,
        }
    }
}

/// The state that follows `state` on `signal`.
pub open spec fn next_state(state: DriverState, signal: Signal) -> DriverState {
    match (state, signal) {
        (DriverState::Idle, Signal::Start) => DriverState::Running,
        (DriverState::Running, Signal::PlayingRejected) => DriverState::Failed(
            JobError::Driver(DriverError::StateChangeRejected),
        ),
        (DriverState::Running, Signal::Event(PipelineEvent::EndOfStream)) => DriverState::Completed,
        (DriverState::Running, Signal::Event(PipelineEvent::Error(cause))) => DriverState::Failed(
            JobError::PipelineRuntime(cause),
        ),
        (state, _) => state,
    }
}

/// What the caller is to do when `signal` arrives in `state`.
pub open spec fn next_action(state: DriverState, signal: Signal) -> Action {
    match (state, signal) {
        (DriverState::Idle, Signal::Start) => Action::RequestPlaying,
        (DriverState::Running, Signal::PlayingAccepted) => Action::AwaitEvent,
        (DriverState::Running, Signal::PlayingRejected) => Action::Teardown,
        (DriverState::Running, Signal::Event(PipelineEvent::Other)) => Action::AwaitEvent,
        (DriverState::Running, Signal::Event(_)) => Action::Teardown,
        (_, _) => Action::Nothing,
    }
}

/// The state reached from `state` after `signals`, in their order.
pub open spec fn state_after(state: DriverState, signals: Seq<Signal>) -> DriverState
    decreases signals.len(),
{
    if signals.len() == 0 {
        state
    } else {
        next_state(state_after(state, signals.drop_last()), signals.last())
    }
}

/// How often the teardown is asked for while `signals` arrive, starting in `state`.
pub open spec fn teardowns_during(state: DriverState, signals: Seq<Signal>) -> nat
    decreases signals.len(),
{
    if signals.len() == 0 {
        0
    } else {
        let before = teardowns_during(state, signals.drop_last());
        if next_action(state_after(state, signals.drop_last()), signals.last())
            == Action::Teardown {
            before + 1
        } else {
            before
        }
    }
}

/// The signals of a run in which the graph takes the request to play and
/// then emits `events`.
pub open spec fn signals_of(events: Seq<PipelineEvent>) -> Seq<Signal> {
    seq![Signal::Start, Signal::PlayingAccepted] + Seq::new(
        events.len(),
        |i: int| Signal::Event(events[i]),
    )
}

/// The state in which a started job is after `events`: the first event
/// that is an end of stream or an error decides, and what follows it is
/// not looked at.
pub open spec fn settled(events: Seq<PipelineEvent>) -> DriverState
    decreases events.len(),
{
    if events.len() == 0 {
        DriverState::Running
    } else {
        match events.first() {
            PipelineEvent::EndOfStream => DriverState::Completed,
            PipelineEvent::Error(cause) => DriverState::Failed(JobError::PipelineRuntime(cause)),
            PipelineEvent::Other => settled(events.drop_first()),
        }
    }
}

/// Takes one signal: returns the state that follows and what the caller is
/// to do.
///
/// A start leads from `Idle` to `Running` and asks for playing. While
/// running, a refusal to play fails the job at once; an end of stream
/// completes it; an error fails it with the cause of the event; any other
/// event is passed over. Reaching an end asks for the teardown. A signal
/// that does not fit the state changes nothing.
pub fn step(state: DriverState, signal: Signal) -> (result: (DriverState, Action))
    ensures
        result.0 == next_state(state, signal),
        result.1 == next_action(state, signal),
{
    match state {
        DriverState::Idle => match signal {
            Signal::Start => (DriverState::Running, Action::RequestPlaying),
            _ => (DriverState::Idle, Action::Nothing),
        },
        DriverState::Running => match signal {
            Signal::Start => (DriverState::Running, Action::Nothing),
            Signal::PlayingAccepted => (DriverState::Running, Action::AwaitEvent),
            Signal::PlayingRejected => (
                DriverState::Failed(JobError::Driver(DriverError::StateChangeRejected)),
                Action::Teardown,
            ),
            Signal::Event(PipelineEvent::Other) => (DriverState::Running, Action::AwaitEvent),
            Signal::Event(PipelineEvent::EndOfStream) => (DriverState::Completed, Action::Teardown),
            Signal::Event(PipelineEvent::Error(cause)) => (
                DriverState::Failed(JobError::PipelineRuntime(cause)),
                Action::Teardown,
            ),
        },
        DriverState::Completed => (DriverState::Completed, Action::Nothing),
        DriverState::Failed(error) => (DriverState::Failed(error), Action::Nothing),
    }
}

/// The signal that reports `event`.
fn signal_for(event: &PipelineEvent) -> (signal: Signal)
    ensures
        signal == Signal::Event(*event),
{
    match event {
        PipelineEvent::EndOfStream => Signal::Event(PipelineEvent::EndOfStream),
        PipelineEvent::Error(cause) => Signal::Event(PipelineEvent::Error(cause.clone())),
        PipelineEvent::Other => Signal::Event(PipelineEvent::Other),
    }
}

/// Runs a job against a graph that takes the request to play and then
/// emits `events`: starts the driver, hands it each event in turn, and
/// counts how often it asks for the teardown.
pub fn run(events: &Vec<PipelineEvent>) -> (report: Report)
    ensures
        report.state == state_after(DriverState::Idle, signals_of(events@)),
        report.teardowns == teardowns_during(DriverState::Idle, signals_of(events@)),
{
    let ghost all = signals_of(events@);
    proof {
        assert(all.take(2) =~= signals_of(Seq::empty()));
        run_settles(Seq::empty());
    }
    let (started, _) = step(DriverState::Idle, Signal::Start);
    let (playing, _) = step(started, Signal::PlayingAccepted);
    let mut state = playing;
    let mut teardowns: usize = 0;
    let mut i: usize = 0;
    while i < events.len()
        invariant
            i <= events.len(),
            all == signals_of(events@),
            state == state_after(DriverState::Idle, all.take(i + 2)),
            teardowns == teardowns_during(DriverState::Idle, all.take(i + 2)),
        decreases events.len() - i,
    {
        proof {
            assert(all.take(i + 3).drop_last() =~= all.take(i + 2));
            assert(all.take(i + 3).last() == Signal::Event(events@[i as int]));
            teardown_happens_once(DriverState::Idle, all.take(i + 3));
        }
        let (next, action) = step(state, signal_for(&events[i]));
        state = next;
        if action == Action::Teardown {
            teardowns = teardowns + 1;
        }
        i = i + 1;
    }
    assert(all.take(i + 2) =~= all);
    Report { state, teardowns }
}

/// A job that is over stays as it is, whatever arrives.
pub proof fn terminal_states_absorb(state: DriverState, signals: Seq<Signal>)
    requires
        state.is_terminal(),
    ensures
        state_after(state, signals) == state,
        teardowns_during(state, signals) == 0,
    decreases signals.len(),
{
    if signals.len() > 0 {
        terminal_states_absorb(state, signals.drop_last());
    }
}

/// The teardown is asked for exactly once on every path to an end, and not
/// at all while the job has not reached one: over any signals, the number
/// of teardowns is one where the job was not over before them and is over
/// after them, and zero otherwise.
pub proof fn teardown_happens_once(state: DriverState, signals: Seq<Signal>)
    ensures
        teardowns_during(state, signals) == (if !state.is_terminal() && state_after(
            state,
            signals,
        ).is_terminal() {
            1nat
        } else {
            0nat
        }),
    decreases signals.len(),
{
    if state.is_terminal() {
        terminal_states_absorb(state, signals);
    } else if signals.len() > 0 {
        teardown_happens_once(state, signals.drop_last());
    }
}

/// One more event after `events` is one more step from where they settled.
pub proof fn settled_extends(events: Seq<PipelineEvent>, event: PipelineEvent)
    ensures
        settled(events.push(event)) == next_state(settled(events), Signal::Event(event)),
    decreases events.len(),
{
    let longer = events.push(event);
    if events.len() == 0 {
        assert(longer.drop_first() =~= events);
    } else {
        assert(longer.first() == events.first());
        assert(longer.drop_first() =~= events.drop_first().push(event));
        settled_extends(events.drop_first(), event);
    }
}

/// A run ends where the first end of stream or error among its events
/// puts it, and has asked for the teardown once if there is such an event,
/// never if there is none.
pub proof fn run_settles(events: Seq<PipelineEvent>)
    ensures
        state_after(DriverState::Idle, signals_of(events)) == settled(events),
        teardowns_during(DriverState::Idle, signals_of(events)) == (if settled(
            events,
        ).is_terminal() {
            1nat
        } else {
            0nat
        }),
    decreases events.len(),
{
    let all = signals_of(events);
    if events.len() == 0 {
        let first = seq![Signal::Start];
        assert(first.drop_last() =~= Seq::<Signal>::empty());
        assert(state_after(DriverState::Idle, first.drop_last()) == DriverState::Idle);
        assert(state_after(DriverState::Idle, first) == DriverState::Running);
        assert(all.drop_last() =~= first);
        assert(state_after(DriverState::Idle, all) == DriverState::Running);
    } else {
        let before = events.drop_last();
        assert(all.drop_last() =~= signals_of(before));
        assert(all.last() == Signal::Event(events.last()));
        assert(before.push(events.last()) =~= events);
        run_settles(before);
        settled_extends(before, events.last());
    }
    teardown_happens_once(DriverState::Idle, all);
}

} // verus!
