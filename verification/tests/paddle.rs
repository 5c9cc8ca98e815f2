use rp_keyer::paddle::Debouncer;

#[test]
fn debouncer_starts_in_initial_state() {
    let mut up = Debouncer::new(true, 3);
    assert!(up.update(true));
    let mut down = Debouncer::new(false, 3);
    assert!(!down.update(false));
}

#[test]
fn debouncer_accepts_after_threshold_samples() {
    let mut d = Debouncer::new(false, 8);
    for _ in 0..7 {
        assert!(!d.update(true));
    }
    assert!(d.update(true));
    for _ in 0..7 {
        assert!(d.update(false));
    }
    assert!(!d.update(false));
}

#[test]
fn debouncer_ignores_short_bounce() {
    let mut d = Debouncer::new(false, 3);
    for _ in 0..100 {
        assert!(!d.update(true));
        assert!(!d.update(true));
        assert!(!d.update(false));
    }
}

#[test]
fn debouncer_with_threshold_one_follows_input() {
    let mut d = Debouncer::new(false, 1);
    assert!(d.update(true));
    assert!(!d.update(false));
    assert!(d.update(true));
}

#[test]
fn debouncer_with_largest_threshold() {
    let mut d = Debouncer::new(false, 255);
    for _ in 0..254 {
        assert!(!d.update(true));
    }
    assert!(d.update(true));
}
