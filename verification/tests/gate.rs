use vhost_user_backend::gate::{Admission, Drain, EventGate, Wake};

#[test]
fn test_stop_suspended_event_gate() {
    let mut gate = EventGate::default();
    assert_eq!(gate.suspend(), Drain::Empty);
    assert_eq!(gate.enter(), Admission::Wait);
    assert_eq!(gate.enter(), Admission::Wait);
    assert_eq!(gate.stop(), Wake::Everybody);
    assert_eq!(gate.enter(), Admission::Stopped);
    assert_eq!(gate.resume(), Wake::Everybody);
    assert_eq!(gate.enter(), Admission::Stopped);
}

#[test]
fn suspension_waits_for_those_inside() {
    let mut gate = EventGate::default();
    assert_eq!(gate.drained(), Drain::Empty);
    assert_eq!(gate.enter(), Admission::Permit);
    assert_eq!(gate.enter(), Admission::Permit);
    assert_eq!(gate.in_flight(), 2);
    assert_eq!(gate.admission(), Admission::Permit);
    assert_eq!(gate.suspend(), Drain::Wait);
    assert_eq!(gate.enter(), Admission::Wait);
    assert_eq!(gate.leave(), Wake::Everybody);
    assert_eq!(gate.drained(), Drain::Wait);
    assert_eq!(gate.leave(), Wake::Everybody);
    assert_eq!(gate.drained(), Drain::Empty);
    assert_eq!(gate.enter(), Admission::Wait);
    assert_eq!(gate.resume(), Wake::Everybody);
    assert_eq!(gate.enter(), Admission::Permit);
}

#[test]
fn stopping_does_not_affect_those_inside() {
    let mut gate = EventGate::default();
    assert_eq!(gate.enter(), Admission::Permit);
    gate.stop();
    assert_eq!(gate.drained(), Drain::Wait);
    gate.leave();
    assert_eq!(gate.drained(), Drain::Empty);
    assert_eq!(gate.enter(), Admission::Stopped);
}
