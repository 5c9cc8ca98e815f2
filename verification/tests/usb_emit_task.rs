use rp_keyer::config::UsbEmitStyle;
use rp_keyer::shared::UsbSnapshot;
use rp_keyer::usb_emit_task::{Lines, UpdatePlan, UsbEmitApp};

fn snapshot(dit: bool, dah: bool, key: bool, style: UsbEmitStyle) -> UsbSnapshot {
    UsbSnapshot { dit_pressed: dit, dah_pressed: dah, live_key: key, emit_style: style }
}

/// A snapshot whose releases go through or not; gives the updates.
fn released(app: &mut UsbEmitApp, snap: UsbSnapshot, ok: bool) -> UpdatePlan {
    let release = app.run(snap);
    if release.serial {
        app.serial_released(ok);
    }
    if release.midi.is_some() {
        app.midi_released(ok);
    }
    app.update(snap)
}

/// A snapshot whose writes all go through; gives the updates.
fn written(app: &mut UsbEmitApp, snap: UsbSnapshot) -> UpdatePlan {
    let plan = released(app, snap, true);
    if plan.serial.is_some() {
        app.serial_written(snap, true);
    }
    if plan.midi.is_some() {
        app.midi_written(snap, true);
    }
    plan
}

const ALL_OFF: [u8; 8] = [0x08, 0x80, 60, 0, 0x08, 0x80, 62, 0];

#[test]
fn first_snapshot_releases_everything() {
    let mut app = UsbEmitApp::new(true, true);
    let snap = snapshot(false, false, false, UsbEmitStyle::Paddle);
    let release = app.run(snap);
    assert!(release.serial);
    assert_eq!(release.midi, Some(ALL_OFF.to_vec()));
    app.serial_released(true);
    app.midi_released(true);
    let plan = app.update(snap);
    assert_eq!(plan.serial, None);
    assert_eq!(plan.midi, None);
    let release = app.run(snap);
    assert!(!release.serial);
    assert_eq!(release.midi, None);
}

#[test]
fn paddle_style_sends_one_event_per_changed_paddle() {
    let mut app = UsbEmitApp::new(true, true);
    let plan = written(&mut app, snapshot(true, false, false, UsbEmitStyle::Paddle));
    assert_eq!(plan.serial, Some(Lines { first: true, second: false }));
    assert_eq!(plan.midi, Some(vec![0x09, 0x90, 60, 0x7f]));

    let dah = snapshot(false, true, false, UsbEmitStyle::Paddle);
    let plan = written(&mut app, dah);
    assert_eq!(plan.serial, Some(Lines { first: false, second: true }));
    assert_eq!(plan.midi, Some(vec![0x08, 0x80, 60, 0, 0x09, 0x90, 62, 0x7f]));

    let plan = written(&mut app, dah);
    assert_eq!(plan.serial, None);
    assert_eq!(plan.midi, None);
}

#[test]
fn keyed_style_uses_the_first_line_only() {
    let mut app = UsbEmitApp::new(true, true);
    let plan = written(&mut app, snapshot(true, true, true, UsbEmitStyle::Keyed));
    assert_eq!(plan.serial, Some(Lines { first: true, second: false }));
    assert_eq!(plan.midi, Some(vec![0x09, 0x90, 60, 0x7f]));
    let plan = written(&mut app, snapshot(true, true, false, UsbEmitStyle::Keyed));
    assert_eq!(plan.serial, Some(Lines { first: false, second: false }));
    assert_eq!(plan.midi, Some(vec![0x08, 0x80, 60, 0]));
}

#[test]
fn failed_write_is_repeated() {
    let mut app = UsbEmitApp::new(true, true);
    let down = snapshot(true, false, false, UsbEmitStyle::Paddle);
    released(&mut app, down, true);
    app.serial_written(down, false);
    app.midi_written(down, false);
    let plan = released(&mut app, down, true);
    assert_eq!(plan.serial, Some(Lines { first: true, second: false }));
    assert_eq!(plan.midi, Some(vec![0x09, 0x90, 60, 0x7f]));
    // One transport may fail while the other does not.
    app.serial_written(down, true);
    app.midi_written(down, false);
    let plan = released(&mut app, down, true);
    assert_eq!(plan.serial, None);
    assert_eq!(plan.midi, Some(vec![0x09, 0x90, 60, 0x7f]));
}

#[test]
fn style_switch_releases_and_starts_over() {
    let mut app = UsbEmitApp::new(true, true);
    written(&mut app, snapshot(true, true, true, UsbEmitStyle::Paddle));
    let keyed = snapshot(true, true, true, UsbEmitStyle::Keyed);
    let release = app.run(keyed);
    assert!(release.serial);
    assert_eq!(release.midi, Some(ALL_OFF.to_vec()));
    app.serial_released(true);
    app.midi_released(true);
    let plan = app.update(keyed);
    assert_eq!(plan.serial, Some(Lines { first: true, second: false }));
    assert_eq!(plan.midi, Some(vec![0x09, 0x90, 60, 0x7f]));
}

#[test]
fn failed_release_is_made_good() {
    let mut app = UsbEmitApp::new(true, true);
    written(&mut app, snapshot(false, true, false, UsbEmitStyle::Paddle));
    // The style switch does not reach the host, and neither does the update.
    let up = snapshot(false, true, false, UsbEmitStyle::Keyed);
    let plan = released(&mut app, up, false);
    assert_eq!(plan.midi, Some(vec![0x08, 0x80, 62, 0]));
    assert_eq!(plan.serial, Some(Lines { first: false, second: false }));
    app.serial_written(up, false);
    app.midi_written(up, false);
    // The next edge brings the stuck line off.
    let down = snapshot(false, true, true, UsbEmitStyle::Keyed);
    let plan = written(&mut app, down);
    assert_eq!(plan.midi, Some(vec![0x09, 0x90, 60, 0x7f, 0x08, 0x80, 62, 0]));
    assert_eq!(plan.serial, Some(Lines { first: true, second: false }));
    // From then on only the first line is named.
    let plan = written(&mut app, down);
    assert_eq!(plan.midi, None);
    assert_eq!(plan.serial, None);
    assert_eq!(written(&mut app, up).midi, Some(vec![0x08, 0x80, 60, 0]));
}

#[test]
fn failed_release_of_a_line_that_stays_on_sends_nothing() {
    let mut app = UsbEmitApp::new(true, true);
    written(&mut app, snapshot(true, false, true, UsbEmitStyle::Paddle));
    let plan = released(&mut app, snapshot(true, false, true, UsbEmitStyle::Keyed), false);
    assert_eq!(plan.midi, None);
    assert_eq!(plan.serial, None);
}

#[test]
fn release_may_fail_on_one_transport_only() {
    let mut app = UsbEmitApp::new(true, true);
    written(&mut app, snapshot(false, true, false, UsbEmitStyle::Paddle));
    let keyed = snapshot(false, true, false, UsbEmitStyle::Keyed);
    app.run(keyed);
    app.serial_released(true);
    app.midi_released(false);
    let plan = app.update(keyed);
    assert_eq!(plan.serial, None);
    assert_eq!(plan.midi, Some(vec![0x08, 0x80, 62, 0]));
}

#[test]
fn missing_transports_get_nothing() {
    let snap = snapshot(true, false, false, UsbEmitStyle::Paddle);
    let mut app = UsbEmitApp::new(false, true);
    assert!(!app.run(snap).serial);
    app.serial_released(true);
    let plan = app.update(snap);
    assert_eq!(plan.serial, None);
    assert!(plan.midi.is_some());
    app.serial_written(snap, true);
    assert_eq!(app.serial, None);

    let mut app = UsbEmitApp::new(true, false);
    let release = app.run(snap);
    assert!(release.serial);
    assert_eq!(release.midi, None);
    app.midi_released(true);
    let plan = app.update(snap);
    assert!(plan.serial.is_some());
    assert_eq!(plan.midi, None);
    app.midi_written(snap, true);
    assert_eq!(app.midi, None);
}
