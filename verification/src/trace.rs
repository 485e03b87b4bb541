//! What whole runs of the pulse machine can deliver.
//!
//! A run is the machine driven from a state through a sequence of events.
//! The lemmas here pin down every run from [`PulseState::Start`]: the bytes
//! delivered are always a prefix of HIGH-then-LOW, a failure before the first
//! send delivers nothing, and a completed pulse always passed through the
//! timed wait.

use vstd::prelude::*;

use crate::emitter::{
    byte_of, spec_action, spec_emission, spec_transition, Action, Event, FailPhase, PulseState,
    SignalLevel,
};

verus! {

/// The state after driving the machine from `s` through the events of `evs`,
/// in order.
pub open spec fn run_state(s: PulseState, evs: Seq<Event>) -> PulseState
    decreases evs.len(),
{
    if evs.len() == 0 {
        s
    } else {
        run_state(spec_transition(s, evs[0]), evs.skip(1))
    }
}

/// The wire bytes confirmed as delivered along the run, in order.
pub open spec fn run_bytes(s: PulseState, evs: Seq<Event>) -> Seq<u8>
    decreases evs.len(),
{
    if evs.len() == 0 {
        Seq::empty()
    } else {
        let head = match spec_emission(s, evs[0]) {
            Some(level) => seq![byte_of(level)],
            None => Seq::<u8>::empty(),
        };
        head + run_bytes(spec_transition(s, evs[0]), evs.skip(1))
    }
}

/// The bytes a state accounts for: what must have been delivered for the
/// machine to stand in it.
pub open spec fn bytes_of_state(s: PulseState) -> Seq<u8> {
    match s {
        PulseState::Start => Seq::empty(),
        PulseState::Elevated => seq![49u8],
        PulseState::Falling => seq![49u8],
        PulseState::Done => seq![49u8, 48u8],
        PulseState::Failed(FailPhase::HighSend) => Seq::empty(),
        PulseState::Failed(FailPhase::LowSend) => seq![49u8],
    }
}

/// Every run's deliveries extend its start state's account to its end
/// state's account: the machine's state is a faithful ledger of the bytes
/// put on the channel.
pub proof fn lemma_run_accounting(s: PulseState, evs: Seq<Event>)
    ensures
        bytes_of_state(s) + run_bytes(s, evs) =~= bytes_of_state(run_state(s, evs)),
    decreases evs.len(),
{
    if evs.len() > 0 {
        let s1 = spec_transition(s, evs[0]);
        lemma_run_accounting(s1, evs.skip(1));
    }
}

/// Ordering of the markers, for every duration: whatever events a run from
/// the start state observes, the bytes delivered are a prefix of the pulse's
/// two-byte wire sequence. At most two markers ever reach the channel; the
/// first is always HIGH (49), the second always LOW (48), with nothing
/// between them.
pub proof fn lemma_markers_in_order(evs: Seq<Event>)
    ensures
        run_bytes(PulseState::Start, evs).len() <= 2,
        run_bytes(PulseState::Start, evs).len() >= 1 ==> run_bytes(PulseState::Start, evs)[0]
            == 49u8,
        run_bytes(PulseState::Start, evs).len() >= 2 ==> run_bytes(PulseState::Start, evs)[1]
            == 48u8,
{
    lemma_run_accounting(PulseState::Start, evs);
    assert(bytes_of_state(PulseState::Start) + run_bytes(PulseState::Start, evs) =~= run_bytes(
        PulseState::Start,
        evs,
    ));
}

/// Failure is absorbing: once a send has failed, no further event changes the
/// state or delivers a marker.
pub proof fn lemma_failed_is_terminal(p: FailPhase, evs: Seq<Event>)
    ensures
        run_state(PulseState::Failed(p), evs) == PulseState::Failed(p),
        run_bytes(PulseState::Failed(p), evs) =~= Seq::<u8>::empty(),
    decreases evs.len(),
{
    if evs.len() > 0 {
        lemma_failed_is_terminal(p, evs.skip(1));
    }
}

/// Short-circuit on a closed channel: when the channel is already closed at
/// the first send, the run ends in the HIGH-phase failure and delivers
/// nothing at all — in particular, the LOW marker is never sent.
pub proof fn lemma_closed_before_first_send(evs: Seq<Event>)
    requires
        evs.len() > 0,
        evs[0] == Event::SendClosed,
    ensures
        run_state(PulseState::Start, evs) == PulseState::Failed(FailPhase::HighSend),
        run_bytes(PulseState::Start, evs) =~= Seq::<u8>::empty(),
{
    lemma_failed_is_terminal(FailPhase::HighSend, evs.skip(1));
}

/// The states a pulse can only stand in once the timed wait has elapsed.
pub open spec fn past_wait(s: PulseState) -> bool {
    match s {
        PulseState::Falling => true,
        PulseState::Done => true,
        PulseState::Failed(FailPhase::LowSend) => true,
        _ => false,
    }
}

/// The timing gate, step by step: a LOW marker can be delivered only in the
/// Falling state; the only way into Falling from outside it is observing the
/// wait's expiry in Elevated; and while the pulse is Elevated — HIGH out, LOW
/// not yet sent — the one pending action is the wait for the full requested
/// duration, and no step out of Elevated delivers a marker.
pub proof fn lemma_low_gated_by_wait(s: PulseState, ev: Event, duration_ms: u64)
    ensures
        spec_emission(s, ev) == Some(SignalLevel::Low) ==> s == PulseState::Falling,
        spec_transition(s, ev) == PulseState::Falling ==> (s == PulseState::Falling || (s
            == PulseState::Elevated && ev == Event::Elapsed)),
        spec_action(PulseState::Elevated, duration_ms) == Some(Action::Wait(duration_ms)),
        spec_emission(PulseState::Elevated, ev) == None::<SignalLevel>,
{
}

/// Running through a sequence and then one more event is the same as one
/// transition out of the sequence's end state.
proof fn lemma_run_state_snoc(s: PulseState, evs: Seq<Event>, ev: Event)
    ensures
        run_state(s, evs.push(ev)) == spec_transition(run_state(s, evs), ev),
    decreases evs.len(),
{
    if evs.len() == 0 {
        assert(evs.push(ev)[0] == ev);
        assert(evs.push(ev).skip(1) =~= Seq::<Event>::empty());
        assert(run_state(spec_transition(s, ev), evs.push(ev).skip(1)) == spec_transition(s, ev));
    } else {
        assert(evs.push(ev)[0] == evs[0]);
        assert(evs.push(ev).skip(1) =~= evs.skip(1).push(ev));
        lemma_run_state_snoc(spec_transition(s, evs[0]), evs.skip(1), ev);
    }
}

/// Every run from the start state that got past the wait observed the wait's
/// expiry while the pulse was Elevated: there is an event in the run that is
/// the expiry, and the run up to it ends Elevated.
proof fn lemma_past_wait_needs_elapsed(evs: Seq<Event>)
    ensures
        past_wait(run_state(PulseState::Start, evs)) ==> exists|i: int|
            0 <= i < evs.len() && evs[i] == Event::Elapsed && run_state(
                PulseState::Start,
                evs.take(i),
            ) == PulseState::Elevated,
    decreases evs.len(),
{
    if evs.len() > 0 {
        let n: int = evs.len() - 1;
        let prefix = evs.take(n);
        let last = evs[n];
        assert(evs =~= prefix.push(last));
        lemma_run_state_snoc(PulseState::Start, prefix, last);
        lemma_past_wait_needs_elapsed(prefix);
        let sp = run_state(PulseState::Start, prefix);
        if past_wait(run_state(PulseState::Start, evs)) {
            if past_wait(sp) {
                let i = choose|i: int|
                    0 <= i < prefix.len() && prefix[i] == Event::Elapsed && run_state(
                        PulseState::Start,
                        prefix.take(i),
                    ) == PulseState::Elevated;
                assert(evs.take(i) =~= prefix.take(i));
                assert(evs[i] == Event::Elapsed && run_state(PulseState::Start, evs.take(i))
                    == PulseState::Elevated);
            } else {
                assert(sp == PulseState::Elevated && last == Event::Elapsed);
                assert(evs.take(n) =~= prefix);
                assert(evs[n] == Event::Elapsed && run_state(PulseState::Start, evs.take(n))
                    == PulseState::Elevated);
            }
        }
    }
}

/// Timing of delivery: a run from the start state delivers the LOW marker
/// only if it observed the timed wait's expiry, and observed it after HIGH
/// was delivered and before anything else was — the run up to the expiry
/// stands Elevated. No marker can follow HIGH before the wait has elapsed,
/// and a completed pulse always waited.
pub proof fn lemma_low_needs_elapsed(evs: Seq<Event>)
    ensures
        run_bytes(PulseState::Start, evs).contains(48u8) ==> exists|i: int|
            0 <= i < evs.len() && evs[i] == Event::Elapsed && run_state(
                PulseState::Start,
                evs.take(i),
            ) == PulseState::Elevated,
{
    if run_bytes(PulseState::Start, evs).contains(48u8) {
        lemma_run_accounting(PulseState::Start, evs);
        assert(bytes_of_state(PulseState::Start) + run_bytes(PulseState::Start, evs) =~= run_bytes(
            PulseState::Start,
            evs,
        ));
        assert(past_wait(run_state(PulseState::Start, evs)));
        lemma_past_wait_needs_elapsed(evs);
    }
}

} // verus!

