use radyo::gate::AdmissionGate;

#[test]
fn fresh_gate_is_free() {
    let gate = AdmissionGate::new();
    assert!(!gate.occupied);
}

#[test]
fn acquire_wins_only_when_free() {
    let mut gate = AdmissionGate::new();
    assert!(gate.try_acquire());
    assert!(gate.occupied);
    assert!(!gate.try_acquire());
    assert!(!gate.try_acquire());
    assert!(gate.occupied);
}

#[test]
fn release_frees_and_next_acquire_wins() {
    let mut gate = AdmissionGate::new();
    assert!(gate.try_acquire());
    gate.release();
    assert!(!gate.occupied);
    assert!(gate.try_acquire());
}

#[test]
fn release_of_free_gate_is_harmless() {
    let mut gate = AdmissionGate::new();
    gate.release();
    assert!(!gate.occupied);
    assert!(gate.try_acquire());
}
