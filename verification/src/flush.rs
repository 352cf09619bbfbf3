//! The flush loop as a state machine.
//!
//! The loop waits a fixed interval, writes out a record of all counters,
//! clears them, and waits again. Waiting and writing are done by whoever
//! runs the loop; what is decided here is what to do next. A loop that is
//! never cancelled flushes on every tick, for ever.

use vstd::prelude::*;

verus! {

/// The seconds between two flushes.
pub const FLUSH_INTERVAL_SECS: u64 = 60;

/// Where the loop stands.
#[derive(Clone, Copy, Debug, PartialEq, Eq, Structural)]
pub enum FlushState {
    /// Waiting for the interval to pass.
    Waiting,
    /// Cancelled: the loop has ended.
    Stopped,
}

/// What the runner of the loop reports.
#[derive(Clone, Copy, Debug, PartialEq, Eq, Structural)]
pub enum FlushEvent {
    /// The interval has passed.
    Tick,
    /// The loop is to end.
    Cancel,
}

/// What the runner of the loop has to do next.
#[derive(Clone, Copy, Debug, PartialEq, Eq, Structural)]
pub enum FlushAction {
    /// Wait this many seconds, then report a tick.
    Wait(u64),
    /// Write out a record of all counters and clear them; then wait this
    /// many seconds and report a tick.
    FlushThenWait(u64),
    /// End the loop.
    Stop,
}

/// The state after `event` in `state`.
pub open spec fn next_state(state: FlushState, event: FlushEvent) -> FlushState {
    match (state, event) {
        (FlushState::Waiting, FlushEvent::Tick) => FlushState::Waiting,
        _ => FlushState::Stopped,
    }
}

/// What is to be done on `event` in `state`.
pub open spec fn next_action(state: FlushState, event: FlushEvent) -> FlushAction {
    match (state, event) {
        (FlushState::Waiting, FlushEvent::Tick) => FlushAction::FlushThenWait(FLUSH_INTERVAL_SECS),
        _ => FlushAction::Stop,
    }
}

/// The state after the events `events`, in that order, from `state`.
pub open spec fn state_after(state: FlushState, events: Seq<FlushEvent>) -> FlushState
    decreases events.len(),
{
    if events.len() == 0 {
        state
    } else {
        next_state(state_after(state, events.drop_last()), events.last())
    }
}

/// The flush loop.
#[derive(Clone, Copy, Debug)]
pub struct FlushLoop {
    state: FlushState,
}

impl View for FlushLoop {
    type V = FlushState;

    closed spec fn view(&self) -> FlushState {
        self.state
    }
}

impl FlushLoop {
    /// A loop that waits for its first tick.
    pub fn new() -> (flush_loop: FlushLoop)
        ensures
            flush_loop@ == FlushState::Waiting,
    {
        FlushLoop { state: FlushState::Waiting }
    }

    /// Where the loop stands.
    pub fn state(&self) -> (state: FlushState)
        ensures
            state == self@,
    {
        self.state
    }

    /// What to do before the first event: wait one interval. A loop that was
    /// cancelled has nothing left to do.
    pub fn start(&self) -> (action: FlushAction)
        ensures
            action == match self@ {
                FlushState::Waiting => FlushAction::Wait(FLUSH_INTERVAL_SECS),
                FlushState::Stopped => FlushAction::Stop,
            },
    {
        match self.state {
            FlushState::Waiting => FlushAction::Wait(FLUSH_INTERVAL_SECS),
            FlushState::Stopped => FlushAction::Stop,
        }
    }

    /// Takes in `event` and says what to do next.
    pub fn on_event(&mut self, event: FlushEvent) -> (action: FlushAction)
        ensures
            final(self)@ == next_state(old(self)@, event),
            action == next_action(old(self)@, event),
    {
        match (self.state, event) {
            (FlushState::Waiting, FlushEvent::Tick) => FlushAction::FlushThenWait(
                FLUSH_INTERVAL_SECS,
            ),
            _ => {
                self.state = FlushState::Stopped;
                FlushAction::Stop
            },
        }
    }
}

impl Default for FlushLoop {
    fn default() -> (flush_loop: FlushLoop)
        ensures
            flush_loop@ == FlushState::Waiting,
    {
        FlushLoop::new()
    }
}

/// A loop that is never cancelled never ends: after any number of ticks it
/// is waiting, and the next tick makes it flush and wait one interval more.
pub proof fn lemma_ticks_keep_flushing(events: Seq<FlushEvent>)
    requires
        forall|i: int| 0 <= i < events.len() ==> events[i] == FlushEvent::Tick,
    ensures
        state_after(FlushState::Waiting, events) == FlushState::Waiting,
        next_action(state_after(FlushState::Waiting, events), FlushEvent::Tick)
            == FlushAction::FlushThenWait(60),
    decreases events.len(),
{
    if events.len() > 0 {
        lemma_ticks_keep_flushing(events.drop_last());
    }
}

/// A cancelled loop stays cancelled: no event brings it back to waiting.
pub proof fn lemma_stopped_is_final(events: Seq<FlushEvent>)
    ensures
        state_after(FlushState::Stopped, events) == FlushState::Stopped,
    decreases events.len(),
{
    if events.len() > 0 {
        lemma_stopped_is_final(events.drop_last());
    }
}

} // verus!
