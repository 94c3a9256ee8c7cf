//! The session lifecycle state machine: what each event polled from the
//! runtime's event stream means for the frame loop.

use vstd::prelude::*;

verus! {

/// The runtime's session lifecycle states, as carried by a
/// session-state-changed event.
#[derive(Clone, Copy, PartialEq, Eq, Structural, Debug)]
pub enum SessionState {
    Unknown,
    Idle,
    Ready,
    Synchronized,
    Visible,
    Focused,
    Stopping,
    LossPending,
    Exiting,
}

/// An event polled from the runtime's event stream. Events that the loop
/// does not react to (beyond logging) are folded into `EventsLost` and
/// `Other`.
#[derive(Clone, Copy, PartialEq, Eq, Structural, Debug)]
pub enum RuntimeEvent {
    SessionStateChanged(SessionState),
    InstanceLossPending,
    EventsLost,
    Other,
}

/// The session call that an event asks the driver to perform.
#[derive(Clone, Copy, PartialEq, Eq, Structural, Debug)]
pub enum SessionCall {
    Begin,
    End,
    NoCall,
}

/// What one polled event means for the loop: which session call to make,
/// whether the session counts as running afterwards, and whether the loop
/// goes on at all.
#[derive(Clone, Copy, PartialEq, Eq, Structural, Debug)]
pub struct EventStep {
    pub call: SessionCall,
    pub running: bool,
    pub keep_looping: bool,
}

/// The transition table: `Ready` begins the session, `Stopping` ends it,
/// `Exiting` and `LossPending` (and a pending instance loss) terminate the
/// loop, and every other event leaves the loop state untouched.
pub open spec fn event_step(running: bool, event: RuntimeEvent) -> EventStep {
    match event {
        RuntimeEvent::SessionStateChanged(state) => match state {
            SessionState::Ready => EventStep {
                call: SessionCall::Begin,
                running: true,
                keep_looping: true,
            },
            SessionState::Stopping => EventStep {
                call: SessionCall::End,
                running: false,
                keep_looping: true,
            },
            SessionState::Exiting | SessionState::LossPending => EventStep {
                call: SessionCall::NoCall,
                running: running,
                keep_looping: false,
            },
            _ => EventStep { call: SessionCall::NoCall, running: running, keep_looping: true },
        },
        RuntimeEvent::InstanceLossPending => EventStep {
            call: SessionCall::NoCall,
            running: running,
            keep_looping: false,
        },
        _ => EventStep { call: SessionCall::NoCall, running: running, keep_looping: true },
    }
}

/// Decides the loop's reaction to one polled event, following `event_step`.
pub fn handle_event(running: bool, event: RuntimeEvent) -> (step: EventStep)
    ensures
        step == event_step(running, event),
{
    match event {
        RuntimeEvent::SessionStateChanged(state) => match state {
            SessionState::Ready => EventStep {
                call: SessionCall::Begin,
                running: true,
                keep_looping: true,
            },
            SessionState::Stopping => EventStep {
                call: SessionCall::End,
                running: false,
                keep_looping: true,
            },
            SessionState::Exiting | SessionState::LossPending => EventStep {
                call: SessionCall::NoCall,
                running: running,
                keep_looping: false,
            },
            _ => EventStep { call: SessionCall::NoCall, running: running, keep_looping: true },
        },
        RuntimeEvent::InstanceLossPending => EventStep {
            call: SessionCall::NoCall,
            running: running,
            keep_looping: false,
        },
        _ => EventStep { call: SessionCall::NoCall, running: running, keep_looping: true },
    }
}

/// Outcome of asking the runtime for a graceful exit, as far as the loop
/// cares: the request was accepted, or the session had already stopped.
#[derive(Clone, Copy, PartialEq, Eq, Structural, Debug)]
pub enum ExitRequestOutcome {
    Accepted,
    SessionNotRunning,
}

/// After an exit request the loop goes on only if the runtime accepted it:
/// the loop then waits for the `Exiting` event. A request refused because
/// the session already stopped is the normal end of the loop, not an error.
pub fn continue_after_exit_request(outcome: ExitRequestOutcome) -> (keep_looping: bool)
    ensures
        keep_looping == (outcome is Accepted),
{
    match outcome {
        ExitRequestOutcome::Accepted => true,
        ExitRequestOutcome::SessionNotRunning => false,
    }
}

/// Bounded pause, in milliseconds, between polls while the session is not
/// running, so the idle loop does not spin.
pub const IDLE_SLEEP_MS: u64 = 100;

/// What the loop body does once events are handled: render a frame while
/// the session runs, otherwise pause for `IDLE_SLEEP_MS`.
#[derive(Clone, Copy, PartialEq, Eq, Structural, Debug)]
pub enum LoopWork {
    RenderFrame,
    SleepBounded,
}

/// While the session is not running the loop only polls and sleeps; frames
/// are rendered only while it is.
pub fn idle_or_render(running: bool) -> (work: LoopWork)
    ensures
        work == (if running {
            LoopWork::RenderFrame
        } else {
            LoopWork::SleepBounded
        }),
{
    if running {
        LoopWork::RenderFrame
    } else {
        LoopWork::SleepBounded
    }
}

} // verus!
