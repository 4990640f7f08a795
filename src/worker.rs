//! The decisions of the background worker that watches a key over and over
//! and hands each response to a channel.
//!
//! The worker is driven by events: the program around it performs the
//! action that the last step returned (a watch, a send, a sleep) and hands
//! its outcome back as the next event.
use crate::watch::{WatchError, WatchResponse};
use vstd::prelude::*;

verus! {

/// Where the worker stands between two steps.
#[derive(Debug, Clone, Copy, PartialEq, Eq, Structural)]
pub enum WorkerPhase {
    /// A watch with no time limit is armed and awaited.
    Arming,
    /// The response of the last watch is being sent.
    Delivering(WatchResponse),
    /// The worker sleeps for one tick before it arms again.
    Resting,
    /// The worker has stopped for good.
    Stopped(WatchError),
}

/// The outcome of the action that the worker asked for.
#[derive(Debug, Clone, Copy)]
pub enum WorkerEvent {
    /// The watch returned.
    Watched(Result<WatchResponse, WatchError>),
    /// The send was accepted (`true`) or the receiving end was gone.
    Delivered(bool),
    /// The tick has elapsed.
    Rested,
}

/// What the worker asks to be done next.
#[derive(Debug, Clone, Copy, PartialEq, Eq, Structural)]
pub enum WorkerAction {
    /// Arm a watch with no time limit and wait for it.
    Watch,
    /// Send this response into the channel.
    Send(WatchResponse),
    /// Sleep for one tick.
    Sleep,
    /// Terminate the worker thread with this fault.
    Halt(WatchError),
}

/// Whether `event` is the outcome of the action that `phase` awaits.
pub open spec fn accepts_of(phase: WorkerPhase, event: WorkerEvent) -> bool {
    match (phase, event) {
        (WorkerPhase::Arming, WorkerEvent::Watched(_)) => true,
        (WorkerPhase::Delivering(_), WorkerEvent::Delivered(_)) => true,
        (WorkerPhase::Resting, WorkerEvent::Rested) => true,
        _ => false,
    }
}

/// The phase after `event`, and the action that it calls for.
pub open spec fn step_of(phase: WorkerPhase, event: WorkerEvent) -> (WorkerPhase, WorkerAction) {
    match event {
        WorkerEvent::Watched(Ok(v)) => (WorkerPhase::Delivering(v), WorkerAction::Send(v)),
        WorkerEvent::Watched(Err(e)) => (WorkerPhase::Stopped(e), WorkerAction::Halt(e)),
        WorkerEvent::Delivered(true) => (WorkerPhase::Resting, WorkerAction::Sleep),
        WorkerEvent::Delivered(false) => (
            WorkerPhase::Stopped(WatchError::PeerGone),
            WorkerAction::Halt(WatchError::PeerGone),
        ),
        WorkerEvent::Rested => (WorkerPhase::Arming, WorkerAction::Watch),
    }
}

/// Whether `events`, handed in order to a worker in `phase`, are each the
/// outcome of the action that it awaits at that point.
pub open spec fn is_run(phase: WorkerPhase, events: Seq<WorkerEvent>) -> bool
    decreases events.len(),
{
    events.len() == 0 || (accepts_of(phase, events[0]) && is_run(
        step_of(phase, events[0]).0,
        events.drop_first(),
    ))
}

/// The actions that a worker in `phase` returns for `events`, in order.
pub open spec fn actions_of(phase: WorkerPhase, events: Seq<WorkerEvent>) -> Seq<WorkerAction>
    decreases events.len(),
{
    if events.len() == 0 {
        seq![]
    } else {
        seq![step_of(phase, events[0]).1] + actions_of(
            step_of(phase, events[0]).0,
            events.drop_first(),
        )
    }
}

/// The number of sends among `actions`.
pub open spec fn sends(actions: Seq<WorkerAction>) -> nat
    decreases actions.len(),
{
    if actions.len() == 0 {
        0
    } else {
        (if actions[0] is Send {
            1nat
        } else {
            0nat
        }) + sends(actions.drop_first())
    }
}

/// The number of watches among `events` that returned a response.
pub open spec fn completed_watches(events: Seq<WorkerEvent>) -> nat
    decreases events.len(),
{
    if events.len() == 0 {
        0
    } else {
        (if events[0] matches WorkerEvent::Watched(Ok(_)) {
            1nat
        } else {
            0nat
        }) + completed_watches(events.drop_first())
    }
}

/// The worker sends exactly one response for each watch that returned one,
/// and nothing else: however many changes one armed watch absorbed, they
/// give a single send, so the sends never outnumber the completed watches.
pub proof fn lemma_one_send_per_completed_watch(phase: WorkerPhase, events: Seq<WorkerEvent>)
    ensures
        sends(actions_of(phase, events)) == completed_watches(events),
    decreases events.len(),
{
    if events.len() > 0 {
        let (next, action) = step_of(phase, events[0]);
        lemma_one_send_per_completed_watch(next, events.drop_first());
        let rest = actions_of(next, events.drop_first());
        assert((seq![action] + rest).drop_first() =~= rest);
    }
}

/// A stopped worker awaits nothing: no event is the outcome of an action
/// it asked for, so it never arms, sends or sleeps again.
pub proof fn lemma_stopped_is_final(e: WatchError, events: Seq<WorkerEvent>)
    requires
        is_run(WorkerPhase::Stopped(e), events),
    ensures
        events.len() == 0,
{
}

/// Once a send finds the receiving end gone, the worker halts at that very
/// step and takes no further event.
pub proof fn lemma_lost_receiver_halts(v: WatchResponse, events: Seq<WorkerEvent>)
    requires
        is_run(WorkerPhase::Delivering(v), seq![WorkerEvent::Delivered(false)] + events),
    ensures
        step_of(WorkerPhase::Delivering(v), WorkerEvent::Delivered(false)) == (
            WorkerPhase::Stopped(WatchError::PeerGone),
            WorkerAction::Halt(WatchError::PeerGone),
        ),
        events.len() == 0,
{
    let all = seq![WorkerEvent::Delivered(false)] + events;
    assert(all[0] == WorkerEvent::Delivered(false));
    assert(all.drop_first() =~= events);
    lemma_stopped_is_final(WatchError::PeerGone, events);
}

/// The worker's state machine.
pub struct Worker {
    phase: WorkerPhase,
}

impl View for Worker {
    type V = WorkerPhase;

    closed spec fn view(&self) -> WorkerPhase {
        self.phase
    }
}

impl Worker {
    /// A worker about to arm its first watch; its first action is `Watch`.
    pub fn new() -> (r: (Worker, WorkerAction))
        ensures
            r.0@ == WorkerPhase::Arming,
            r.1 == WorkerAction::Watch,
    {
        (Worker { phase: WorkerPhase::Arming }, WorkerAction::Watch)
    }

    /// Where the worker stands.
    pub fn phase(&self) -> (r: WorkerPhase)
        ensures
            r == self@,
    {
        self.phase
    }

    /// Whether `event` is the outcome of the action that the worker awaits.
    pub fn accepts(&self, event: &WorkerEvent) -> (r: bool)
        ensures
            r == accepts_of(self@, *event),
    {
        match (self.phase, *event) {
            (WorkerPhase::Arming, WorkerEvent::Watched(_)) => true,
            (WorkerPhase::Delivering(_), WorkerEvent::Delivered(_)) => true,
            (WorkerPhase::Resting, WorkerEvent::Rested) => true,
            _ => false,
        }
    }

    /// Takes the outcome of the last action and returns the next one: a
    /// response is sent, a sent response is followed by a tick of rest, a
    /// rest by a new watch; a failed watch or a lost receiver stops the
    /// worker.
    pub fn step(&mut self, event: WorkerEvent) -> (r: WorkerAction)
        requires
            accepts_of(old(self)@, event),
        ensures
            (final(self)@, r) == step_of(old(self)@, event),
    {
        let (phase, action) = match event {
            WorkerEvent::Watched(Ok(v)) => (WorkerPhase::Delivering(v), WorkerAction::Send(v)),
            WorkerEvent::Watched(Err(e)) => (WorkerPhase::Stopped(e), WorkerAction::Halt(e)),
            WorkerEvent::Delivered(true) => (WorkerPhase::Resting, WorkerAction::Sleep),
            WorkerEvent::Delivered(false) => (
                WorkerPhase::Stopped(WatchError::PeerGone),
                WorkerAction::Halt(WatchError::PeerGone),
            ),
            WorkerEvent::Rested => (WorkerPhase::Arming, WorkerAction::Watch),
        };
        self.phase = phase;
        action
    }
}

} // verus!
