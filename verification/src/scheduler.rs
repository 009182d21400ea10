//! The poll scheduler: a two-state machine that keeps a timer task polling
//! the hardware while a context is registered, and lets it end when none is.

use vstd::prelude::*;

verus! {

/// Time that the timer task sleeps between two ticks, in milliseconds.
pub const POLL_INTERVAL_MS: u64 = 500;

/// Whether periodic polling is going on.
#[derive(Clone, Copy, Debug, PartialEq, Eq, Structural)]
pub enum PollState {
    /// No timer task is polling.
    Idle,
    /// A timer task sends a poll request at a fixed interval.
    Active,
}

/// What one tick of the timer task came to.
#[derive(Clone, Copy, Debug, PartialEq, Eq, Structural)]
pub enum TickOutcome {
    /// The poll request could not be sent: the dispatcher has shut down.
    SendFailed,
    /// The request was sent and no reply came back.
    ReplyLost,
    /// The dispatcher replied whether any context remains registered.
    Reply(bool),
}

/// What the timer task does after a tick.
#[derive(Clone, Copy, Debug, PartialEq, Eq, Structural)]
pub enum PollAction {
    /// Sleep for this many milliseconds, then tick again.
    Sleep(u64),
    /// End the task.
    Stop,
}

/// The state in which a tick with this outcome leaves the scheduler: it
/// stays active only on the reply that a context remains registered.
pub open spec fn state_after_tick(outcome: TickOutcome) -> PollState {
    match outcome {
        TickOutcome::Reply(true) => PollState::Active,
        _ => PollState::Idle,
    }
}

/// The action that follows a tick with this outcome.
pub open spec fn action_after_tick(outcome: TickOutcome) -> PollAction {
    if state_after_tick(outcome) == PollState::Active {
        PollAction::Sleep(POLL_INTERVAL_MS)
    } else {
        PollAction::Stop
    }
}

/// The state after a request to start polling: an idle scheduler becomes
/// active if the hardware layer is initialised; otherwise nothing changes.
pub open spec fn state_after_start(state: PollState, hardware_initialized: bool) -> PollState {
    if hardware_initialized {
        PollState::Active
    } else {
        state
    }
}

/// Whether a request to start polling has to start a timer task: only when
/// it takes the scheduler from idle to active.
pub open spec fn starts_task(state: PollState, hardware_initialized: bool) -> bool {
    state == PollState::Idle && hardware_initialized
}

/// The state in which the dispatcher leaves the scheduler when it has
/// served a poll request.
pub open spec fn state_after_poll(contexts_remain: bool) -> PollState {
    if contexts_remain {
        PollState::Active
    } else {
        PollState::Idle
    }
}

/// The dispatcher's record of the scheduler.
#[derive(Debug)]
pub struct PollScheduler {
    state: PollState,
}

impl View for PollScheduler {
    type V = PollState;

    closed spec fn view(&self) -> PollState {
        self.state
    }
}

impl PollScheduler {
    /// An idle scheduler.
    pub fn new() -> (s: Self)
        ensures
            s@ == PollState::Idle,
    {
        PollScheduler { state: PollState::Idle }
    }

    pub fn state(&self) -> (s: PollState)
        ensures
            s == self@,
    {
        self.state
    }

    pub fn is_active(&self) -> (b: bool)
        ensures
            b == (self@ == PollState::Active),
    {
        match self.state {
            PollState::Active => true,
            PollState::Idle => false,
        }
    }

    /// Asks for polling to go on. Returns whether the caller must start a
    /// timer task; on an active scheduler this is a no-op.
    pub fn request_start(&mut self, hardware_initialized: bool) -> (start: bool)
        ensures
            start == starts_task(old(self)@, hardware_initialized),
            final(self)@ == state_after_start(old(self)@, hardware_initialized),
    {
        if hardware_initialized && !self.is_active() {
            self.state = PollState::Active;
            true
        } else {
            false
        }
    }

    /// Records the answer that the dispatcher gives to a poll request, and
    /// returns it: polling continues exactly while a context remains.
    pub fn record_poll(&mut self, contexts_remain: bool) -> (keep_polling: bool)
        ensures
            keep_polling == contexts_remain,
            final(self)@ == state_after_poll(contexts_remain),
    {
        if contexts_remain {
            self.state = PollState::Active;
        } else {
            self.state = PollState::Idle;
        }
        contexts_remain
    }
}

/// The timer task's decision after a tick: sleep one interval and tick
/// again if the dispatcher said that a context remains, and end otherwise.
/// A request that could not be sent, or a reply that never came, counts as
/// "no context remains".
pub fn after_tick(outcome: TickOutcome) -> (action: PollAction)
    ensures
        action == action_after_tick(outcome),
        (action == PollAction::Stop) == (state_after_tick(outcome) == PollState::Idle),
{
    match outcome {
        TickOutcome::Reply(true) => PollAction::Sleep(POLL_INTERVAL_MS),
        TickOutcome::Reply(false) => PollAction::Stop,
        TickOutcome::SendFailed => PollAction::Stop,
        TickOutcome::ReplyLost => PollAction::Stop,
    }
}

} // verus!
