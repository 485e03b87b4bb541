use pulse::emitter::{Action, Event, FailPhase, PulseMachine, PulseState, SignalLevel};

/// Drive a machine to its end, answering every send with `answers`' next
/// entry and every wait with its expiry; collect the delivered wire bytes.
fn drive(machine: &mut PulseMachine, answers: &[Event]) -> Vec<u8> {
    let mut delivered: Vec<u8> = Vec::new();
    let mut next: usize = 0;
    while let Some(action) = machine.next_action() {
        let event = match action {
            Action::SendMarker(_) => {
                let e = answers[next];
                next += 1;
                e
            }
            Action::Wait(_) => Event::Elapsed,
        };
        if let Some(level) = machine.step(event) {
            delivered.push(level.byte());
        }
    }
    delivered
}

#[test]
fn full_pulse_delivers_high_then_low() {
    let mut machine = PulseMachine::new(100);
    assert_eq!(
        machine.next_action(),
        Some(Action::SendMarker(SignalLevel::High))
    );
    assert_eq!(machine.step(Event::SendOk), Some(SignalLevel::High));
    assert_eq!(machine.next_action(), Some(Action::Wait(100)));
    assert_eq!(machine.step(Event::Elapsed), None);
    assert_eq!(
        machine.next_action(),
        Some(Action::SendMarker(SignalLevel::Low))
    );
    assert_eq!(machine.step(Event::SendOk), Some(SignalLevel::Low));
    assert_eq!(machine.next_action(), None);
    assert_eq!(machine.outcome(), Some(Ok(())));
    assert_eq!(machine.state, PulseState::Done);
}

#[test]
fn pulse_bytes_are_exactly_49_then_48() {
    let mut machine = PulseMachine::new(100);
    let delivered = drive(&mut machine, &[Event::SendOk, Event::SendOk]);
    assert_eq!(delivered, vec![49, 48]);
}

#[test]
fn zero_duration_pulse_keeps_order() {
    let mut machine = PulseMachine::new(0);
    assert_eq!(machine.step(Event::SendOk), Some(SignalLevel::High));
    assert_eq!(machine.next_action(), Some(Action::Wait(0)));
    let delivered = drive(&mut machine, &[Event::SendOk]);
    assert_eq!(delivered, vec![48]);
    assert_eq!(machine.outcome(), Some(Ok(())));
}

#[test]
fn no_marker_is_delivered_during_the_wait() {
    let mut machine = PulseMachine::new(100);
    machine.step(Event::SendOk);
    assert_eq!(machine.next_action(), Some(Action::Wait(100)));
    assert_eq!(machine.step(Event::Elapsed), None);
}

#[test]
fn closed_channel_before_first_send_short_circuits() {
    let mut machine = PulseMachine::new(100);
    assert_eq!(machine.step(Event::SendClosed), None);
    assert_eq!(machine.outcome(), Some(Err(FailPhase::HighSend)));
    assert_eq!(machine.next_action(), None);
    assert_eq!(machine.step(Event::SendOk), None);
    assert_eq!(machine.outcome(), Some(Err(FailPhase::HighSend)));
}

#[test]
fn failure_at_low_send_reports_its_phase() {
    let mut machine = PulseMachine::new(100);
    assert_eq!(machine.step(Event::SendOk), Some(SignalLevel::High));
    assert_eq!(machine.step(Event::Elapsed), None);
    assert_eq!(machine.step(Event::SendClosed), None);
    assert_eq!(machine.outcome(), Some(Err(FailPhase::LowSend)));
    assert_eq!(machine.next_action(), None);
}

#[test]
fn wire_encoding_is_fixed() {
    assert_eq!(SignalLevel::High.byte(), 49);
    assert_eq!(SignalLevel::Low.byte(), 48);
}

#[test]
fn mismatched_event_leaves_the_machine_unchanged() {
    let mut machine = PulseMachine::new(100);
    assert_eq!(machine.step(Event::Elapsed), None);
    assert_eq!(machine.state, PulseState::Start);
    assert_eq!(
        machine.next_action(),
        Some(Action::SendMarker(SignalLevel::High))
    );
    machine.step(Event::SendOk);
    assert_eq!(machine.step(Event::SendOk), None);
    assert_eq!(machine.state, PulseState::Elevated);
}

#[test]
fn outcome_is_pending_while_work_remains() {
    let mut machine = PulseMachine::new(100);
    assert_eq!(machine.outcome(), None);
    machine.step(Event::SendOk);
    assert_eq!(machine.outcome(), None);
    machine.step(Event::Elapsed);
    assert_eq!(machine.outcome(), None);
}
