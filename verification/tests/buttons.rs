use rp_keyer::buttons::{ButtonEvent, ButtonInput, ButtonPanel, PanelSample};

fn panel() -> ButtonPanel {
    ButtonPanel {
        up: ButtonInput::new(),
        down: ButtonInput::new(),
        ok: ButtonInput::new(),
        back: ButtonInput::new(),
    }
}

fn sample(up: bool, down: bool, ok: bool, back: bool) -> PanelSample {
    PanelSample { up, down, ok, back }
}

#[test]
fn one_event_per_press_however_long() {
    let mut b = ButtonInput::new();
    assert!(!b.poll_rising_edge(true));
    assert!(b.poll_rising_edge(true));
    for _ in 0..50 {
        assert!(!b.poll_rising_edge(true));
    }
    assert!(!b.poll_rising_edge(false));
    assert!(!b.poll_rising_edge(false));
    assert!(!b.poll_rising_edge(true));
    assert!(b.poll_rising_edge(true));
}

#[test]
fn a_single_sample_is_no_press() {
    let mut b = ButtonInput::new();
    for _ in 0..10 {
        assert!(!b.poll_rising_edge(true));
        assert!(!b.poll_rising_edge(false));
    }
}

#[test]
fn panel_reports_edges_in_fixed_order() {
    let mut p = panel();
    let mut buf = [ButtonEvent::Up; 4];
    assert!(p.poll(sample(true, true, true, true), &mut buf).is_empty());
    assert_eq!(
        p.poll(sample(true, true, true, true), &mut buf),
        &[ButtonEvent::Up, ButtonEvent::Down, ButtonEvent::Okay, ButtonEvent::Back]
    );
    assert!(p.poll(sample(true, true, true, true), &mut buf).is_empty());
}

#[test]
fn panel_keeps_the_buttons_apart() {
    let mut p = panel();
    let mut buf = [ButtonEvent::Up; 4];
    p.poll(sample(false, true, false, false), &mut buf);
    assert_eq!(
        p.poll(sample(false, true, false, true), &mut buf),
        &[ButtonEvent::Down]
    );
    assert_eq!(
        p.poll(sample(false, true, false, true), &mut buf),
        &[ButtonEvent::Back]
    );
}

#[test]
fn panel_leaves_the_rest_of_the_buffer_alone() {
    let mut p = panel();
    let mut buf = [ButtonEvent::Back; 4];
    p.poll(sample(false, true, true, false), &mut buf);
    assert_eq!(buf, [ButtonEvent::Back; 4]);
    p.poll(sample(false, true, true, false), &mut buf);
    assert_eq!(
        buf,
        [ButtonEvent::Down, ButtonEvent::Okay, ButtonEvent::Back, ButtonEvent::Back]
    );
}
