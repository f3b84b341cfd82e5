use rimrust::gate::Gate;

#[test]
fn fresh_gate_has_every_slot_free() {
    let gate = Gate::new(3);
    assert_eq!(gate.capacity(), 3);
    assert_eq!(gate.in_use(), 0);
    assert_eq!(gate.available(), 3);
    assert_eq!(gate.acquired(), 0);
    assert_eq!(gate.released(), 0);
}

#[test]
fn gate_hands_out_no_more_permits_than_slots() {
    let mut gate = Gate::new(2);
    let first = gate.try_acquire();
    let second = gate.try_acquire();
    assert!(first.is_some());
    assert!(second.is_some());
    assert_eq!(gate.in_use(), 2);
    assert_eq!(gate.available(), 0);
    assert!(gate.try_acquire().is_none());
    assert!(gate.try_acquire().is_none());
    // A refused attempt changes nothing.
    assert_eq!(gate.in_use(), 2);
    assert_eq!(gate.acquired(), 2);
    assert_eq!(gate.released(), 0);

    gate.release(first.unwrap());
    assert_eq!(gate.in_use(), 1);
    assert_eq!(gate.available(), 1);
    assert_eq!(gate.released(), 1);
    let third = gate.try_acquire();
    assert!(third.is_some());
    assert_eq!(gate.acquired(), 3);
    gate.release(second.unwrap());
    gate.release(third.unwrap());
    assert_eq!(gate.in_use(), 0);
    assert_eq!(gate.acquired(), 3);
    assert_eq!(gate.released(), 3);
    assert_eq!(gate.capacity(), 2);
}

#[test]
fn gate_without_slots_admits_nobody() {
    let mut gate = Gate::new(0);
    assert!(gate.try_acquire().is_none());
    assert_eq!(gate.acquired(), 0);
    assert_eq!(gate.available(), 0);
}
