//! The pulse emitter: a state machine that emits a HIGH marker, waits for a
//! requested number of milliseconds, then emits a LOW marker.
//!
//! The machine never touches a channel or a clock itself. In each state it
//! names the one [`Action`] the surrounding runtime must perform next, and it
//! advances on the [`Event`] the runtime reports back. A send failure in
//! either phase is terminal and remembers which phase it struck.

use vstd::prelude::*;

verus! {

/// The two signal levels a pulse can put on the line.
#[derive(Clone, Copy, PartialEq, Eq, Structural, Debug)]
pub enum SignalLevel {
    High,
    Low,
}

/// The wire byte of a signal level: HIGH is 49 (the character '1'),
/// LOW is 48 (the character '0').
pub open spec fn byte_of(level: SignalLevel) -> u8 {
    match level {
        SignalLevel::High => 49,
        SignalLevel::Low => 48,
    }
}

impl SignalLevel {
    /// The wire encoding of this level.
    pub fn byte(&self) -> (b: u8)
        ensures
            b == byte_of(*self),
    {
        match self {
            SignalLevel::High => 49,
            SignalLevel::Low => 48,
        }
    }
}

/// Which of the two sends a channel failure interrupted.
#[derive(Clone, Copy, PartialEq, Eq, Structural, Debug)]
pub enum FailPhase {
    /// The HIGH send failed: no marker reached the channel.
    HighSend,
    /// The LOW send failed: the channel was left with a dangling HIGH marker.
    LowSend,
}

/// The states of one pulse emission.
#[derive(Clone, Copy, PartialEq, Eq, Structural, Debug)]
pub enum PulseState {
    /// Nothing sent yet; the HIGH send is pending.
    Start,
    /// HIGH was delivered; the timed wait is pending.
    Elevated,
    /// The wait has elapsed; the LOW send is pending.
    Falling,
    /// Both markers were delivered; the pulse is complete.
    Done,
    /// A send failed; the pulse is abandoned.
    Failed(FailPhase),
}

/// What the surrounding runtime must do next for the pulse to make progress.
#[derive(Clone, Copy, PartialEq, Eq, Structural, Debug)]
pub enum Action {
    /// Send this level's marker on the channel.
    SendMarker(SignalLevel),
    /// Suspend, without blocking other tasks, for at least this many
    /// milliseconds.
    Wait(u64),
}

/// What the runtime reports back after performing the pending action.
#[derive(Clone, Copy, PartialEq, Eq, Structural, Debug)]
pub enum Event {
    /// The channel accepted the marker.
    SendOk,
    /// The receiving side is gone; the marker was not delivered.
    SendClosed,
    /// At least the requested wait has passed.
    Elapsed,
}

/// The state after observing `ev` in state `s`. An event that does not answer
/// the pending action of `s` leaves the state unchanged.
pub open spec fn spec_transition(s: PulseState, ev: Event) -> PulseState {
    match (s, ev) {
        (PulseState::Start, Event::SendOk) => PulseState::Elevated,
        (PulseState::Start, Event::SendClosed) => PulseState::Failed(FailPhase::HighSend),
        (PulseState::Elevated, Event::Elapsed) => PulseState::Falling,
        (PulseState::Falling, Event::SendOk) => PulseState::Done,
        (PulseState::Falling, Event::SendClosed) => PulseState::Failed(FailPhase::LowSend),
        _ => s,
    }
}

/// The marker that the step from `s` on `ev` confirms as delivered, if any:
/// HIGH when the first send is accepted, LOW when the second is.
pub open spec fn spec_emission(s: PulseState, ev: Event) -> Option<SignalLevel> {
    match (s, ev) {
        (PulseState::Start, Event::SendOk) => Some(SignalLevel::High),
        (PulseState::Falling, Event::SendOk) => Some(SignalLevel::Low),
        _ => None,
    }
}

/// The action pending in state `s` for a pulse of `duration_ms` milliseconds;
/// terminal states have none.
pub open spec fn spec_action(s: PulseState, duration_ms: u64) -> Option<Action> {
    match s {
        PulseState::Start => Some(Action::SendMarker(SignalLevel::High)),
        PulseState::Elevated => Some(Action::Wait(duration_ms)),
        PulseState::Falling => Some(Action::SendMarker(SignalLevel::Low)),
        PulseState::Done => None,
        PulseState::Failed(_) => None,
    }
}

/// The pulse's result once it is terminal: success after both markers, the
/// phase of the failed send otherwise; nothing while work remains.
pub open spec fn spec_outcome(s: PulseState) -> Option<Result<(), FailPhase>> {
    match s {
        PulseState::Done => Some(Ok(())),
        PulseState::Failed(p) => Some(Err(p)),
        _ => None,
    }
}

/// One pulse emission in progress: emit HIGH, hold for `duration_ms`
/// milliseconds, emit LOW. The machine holds no channel and no clock; it only
/// decides, and the runtime that owns both drives it action by action.
pub struct PulseMachine {
    /// Where in the two-phase sequence this pulse stands.
    pub state: PulseState,
    /// How long the line is to be held HIGH, in milliseconds. Zero is legal
    /// and means LOW follows HIGH with no delay between them.
    pub duration_ms: u64,
}

impl PulseMachine {
    /// A fresh pulse of the given length, with the HIGH send pending.
    pub fn new(duration_ms: u64) -> (m: Self)
        ensures
            m.state == PulseState::Start,
            m.duration_ms == duration_ms,
    {
        PulseMachine { state: PulseState::Start, duration_ms }
    }

    /// The action the runtime must perform next, or nothing once the pulse is
    /// complete or abandoned.
    pub fn next_action(&self) -> (a: Option<Action>)
        ensures
            a == spec_action(self.state, self.duration_ms),
    {
        match self.state {
            PulseState::Start => Some(Action::SendMarker(SignalLevel::High)),
            PulseState::Elevated => Some(Action::Wait(self.duration_ms)),
            PulseState::Falling => Some(Action::SendMarker(SignalLevel::Low)),
            PulseState::Done => None,
            PulseState::Failed(_) => None,
        }
    }

    /// Advance on the outcome the runtime reports. Returns the marker this
    /// step confirms as delivered, if any. An event that does not answer the
    /// pending action leaves the machine unchanged.
    pub fn step(&mut self, ev: Event) -> (delivered: Option<SignalLevel>)
        ensures
            final(self).state == spec_transition(old(self).state, ev),
            final(self).duration_ms == old(self).duration_ms,
            delivered == spec_emission(old(self).state, ev),
    {
        match (self.state, ev) {
            (PulseState::Start, Event::SendOk) => {
                self.state = PulseState::Elevated;
                Some(SignalLevel::High)
            },
            (PulseState::Start, Event::SendClosed) => {
                self.state = PulseState::Failed(FailPhase::HighSend);
                None
            },
            (PulseState::Elevated, Event::Elapsed) => {
                self.state = PulseState::Falling;
                None
            },
            (PulseState::Falling, Event::SendOk) => {
                self.state = PulseState::Done;
                Some(SignalLevel::Low)
            },
            (PulseState::Falling, Event::SendClosed) => {
                self.state = PulseState::Failed(FailPhase::LowSend);
                None
            },
            _ => None,
        }
    }

    /// The pulse's result once it is terminal: `Ok` after both markers were
    /// delivered, the phase of the failed send after a failure; `None` while
    /// an action is still pending.
    pub fn outcome(&self) -> (r: Option<Result<(), FailPhase>>)
        ensures
            r == spec_outcome(self.state),
    {
        match self.state {
            PulseState::Done => Some(Ok(())),
            PulseState::Failed(p) => Some(Err(p)),
            _ => None,
        }
    }
}

} // verus!
