use rp_keyer::config::{KeyerConfig, KeyerMode, KeyerOutput, UsbEmitStyle};
use rp_keyer::keyer_task::{
    run, KeyDrive, KeyerTask, Poll, Step, CONFIG_REFRESH_TICKS, POLL_INTERVAL_US,
};
use rp_keyer::shared::UsbSnapshot;

fn settings() -> KeyerConfig {
    KeyerConfig {
        mode: KeyerMode::IambicB,
        speed_wpm: 18,
        weight: 50,
        sidetone_freq: 600,
        sidetone_volume_pct: 50,
        hang_time_ms: 500,
        keys_reversed: false,
        iambic_b_timing_percent: 50,
        farnsworth_wpm: 0,
        keying_compensation_ms: 0,
        usb_emit_style: UsbEmitStyle::Paddle,
        decoder_enabled: true,
    }
}

fn polled(step: Step) -> Poll {
    match step {
        Step::Poll(poll) => poll,
        Step::Parked => panic!("parked"),
    }
}

fn released() -> UsbSnapshot {
    UsbSnapshot {
        dit_pressed: false,
        dah_pressed: false,
        live_key: false,
        emit_style: UsbEmitStyle::Paddle,
    }
}

#[test]
fn first_poll_signals_the_released_paddles() {
    let mut task = KeyerTask::new(&settings());
    let poll = polled(run(&mut task, false, false, false));
    assert_eq!(poll.signal, Some(released()));
    assert!(!poll.dit_phys && !poll.dah_phys && !poll.refresh);
    assert_eq!(polled(run(&mut task, false, false, false)).signal, None);
}

#[test]
fn paddle_takes_eight_polls() {
    let mut task = KeyerTask::new(&settings());
    run(&mut task, false, false, false);
    for _ in 0..7 {
        let poll = polled(run(&mut task, false, true, false));
        assert!(!poll.dit_phys);
        assert_eq!(poll.signal, None);
    }
    let poll = polled(run(&mut task, false, true, false));
    assert!(poll.dit_phys && !poll.dah_phys);
    assert_eq!(
        poll.signal,
        Some(UsbSnapshot { dit_pressed: true, ..released() })
    );
}

#[test]
fn reversed_keys_exchange_only_what_usb_sees() {
    let mut task = KeyerTask::new(&KeyerConfig { keys_reversed: true, ..settings() });
    run(&mut task, false, false, false);
    let mut last = None;
    for _ in 0..8 {
        last = Some(polled(run(&mut task, false, true, false)));
    }
    let poll = last.unwrap();
    assert!(poll.dit_phys && !poll.dah_phys);
    assert_eq!(
        poll.signal,
        Some(UsbSnapshot { dah_pressed: true, ..released() })
    );
}

#[test]
fn settings_are_refreshed_every_fifty_milliseconds() {
    assert_eq!(CONFIG_REFRESH_TICKS * POLL_INTERVAL_US, 50_000);
    let mut task = KeyerTask::new(&settings());
    for round in 1..=600u32 {
        let poll = polled(run(&mut task, false, false, false));
        assert_eq!(poll.refresh, round % 200 == 0);
    }
}

#[test]
fn save_lock_parks_the_loop() {
    let mut task = KeyerTask::new(&settings());
    run(&mut task, false, false, false);
    for _ in 0..100 {
        assert_eq!(run(&mut task, true, true, true), Step::Parked);
    }
    // Nothing was counted meanwhile.
    for _ in 0..7 {
        assert!(!polled(run(&mut task, false, true, false)).dit_phys);
    }
    assert!(polled(run(&mut task, false, true, false)).dit_phys);
}

#[test]
fn engine_outputs_drive_the_key() {
    let mut task = KeyerTask::new(&settings());
    assert_eq!(
        task.on_output(KeyerOutput::PttRequest(true)),
        Some(KeyDrive { on: true, decode_at_wpm: Some(18) })
    );
    assert!(polled(run(&mut task, false, false, false)).signal.unwrap().live_key);
    assert_eq!(
        task.on_output(KeyerOutput::KeyDown),
        Some(KeyDrive { on: true, decode_at_wpm: Some(18) })
    );
    assert_eq!(polled(run(&mut task, false, false, false)).signal, None);
    assert_eq!(
        task.on_output(KeyerOutput::KeyUp),
        Some(KeyDrive { on: false, decode_at_wpm: Some(18) })
    );
    assert_eq!(task.on_output(KeyerOutput::PttRequest(false)), None);
    assert!(!polled(run(&mut task, false, false, false)).signal.unwrap().live_key);
}

#[test]
fn refresh_clears_the_decoder_only_when_it_is_switched_on() {
    let on = settings();
    let off = KeyerConfig { decoder_enabled: false, speed_wpm: 25, ..on };
    let mut task = KeyerTask::new(&on);
    assert!(!task.refresh(&on));
    assert!(!task.refresh(&off));
    assert_eq!(
        task.on_output(KeyerOutput::KeyDown),
        Some(KeyDrive { on: true, decode_at_wpm: None })
    );
    assert!(!task.refresh(&off));
    assert!(task.refresh(&on));
    assert!(!task.refresh(&on));
}

#[test]
fn refresh_changes_the_emit_style() {
    let mut task = KeyerTask::new(&settings());
    run(&mut task, false, false, false);
    task.refresh(&KeyerConfig { usb_emit_style: UsbEmitStyle::Keyed, ..settings() });
    assert_eq!(
        polled(run(&mut task, false, false, false)).signal,
        Some(UsbSnapshot { emit_style: UsbEmitStyle::Keyed, ..released() })
    );
}
