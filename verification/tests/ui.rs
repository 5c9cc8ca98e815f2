use rp_keyer::buttons::ButtonEvent;
use rp_keyer::config::{KeyerConfig, KeyerMode, UsbEmitStyle};
use rp_keyer::screens::{draw_main, draw_menu, mode_label, value_string, TextRow};
use rp_keyer::ui::{adjust, next_mode, step_percent, step_u32, step_u8, MenuItem, Ui};
use rp_keyer::ui_task::{Edits, UiTask};

fn settings() -> KeyerConfig {
    KeyerConfig {
        mode: KeyerMode::IambicB,
        speed_wpm: 18,
        weight: 50,
        sidetone_freq: 600,
        sidetone_volume_pct: 50,
        hang_time_ms: 500,
        keys_reversed: false,
        iambic_b_timing_percent: 50,
        farnsworth_wpm: 0,
        keying_compensation_ms: 0,
        usb_emit_style: UsbEmitStyle::Paddle,
        decoder_enabled: true,
    }
}

fn texts(rows: &[TextRow]) -> Vec<(i32, String)> {
    rows.iter().map(|r| (r.y, r.text.as_str().to_string())).collect()
}

fn row(y: i32, text: &str) -> (i32, String) {
    (y, text.to_string())
}

fn press(ui: &mut Ui, cfg: &mut KeyerConfig, events: &[ButtonEvent]) {
    for ev in events {
        ui.on_button(*ev, cfg);
    }
}

#[test]
fn main_screen_at_boot() {
    let mut ui = Ui::new();
    assert!(ui.is_dirty());
    let rows = ui.render(&settings()).unwrap();
    assert_eq!(
        texts(&rows),
        vec![row(0, "CW Keyer"), row(16, "Mode: IambicB"), row(30, "WPM:  18")]
    );
    assert!(!ui.is_dirty());
    assert!(ui.render(&settings()).is_none());
}

#[test]
fn main_screen_shows_key_and_decoded_text() {
    let mut ui = Ui::new();
    ui.render(&settings());
    ui.note_key_state(true);
    ui.note_decoded(b"CQ DE SP5");
    let rows = ui.render(&settings()).unwrap();
    assert_eq!(
        texts(&rows),
        vec![
            row(0, "CW Keyer    *"),
            row(16, "Mode: IambicB"),
            row(30, "WPM:  18"),
            row(44, "CQ DE SP5"),
        ]
    );
    ui.note_key_state(false);
    let off = KeyerConfig { decoder_enabled: false, speed_wpm: 5, ..settings() };
    let rows = ui.render(&off).unwrap();
    assert_eq!(
        texts(&rows),
        vec![row(0, "CW Keyer"), row(16, "Mode: IambicB"), row(30, "WPM:  5")]
    );
}

#[test]
fn decoded_text_is_cut_to_the_latest() {
    let text = b"0123456789ABCDEFGHIJKLMNOPQRSTUV";
    let rows = draw_main(&settings(), false, text);
    assert_eq!(rows[3].text.as_str(), "BCDEFGHIJKLMNOPQRSTUV");
    // Two-byte characters fill the row twice as fast; the ones that do not
    // fit are left out, and a later one-byte character may still fit.
    let mut wide = [0xe9u8; 21];
    wide[20] = b'x';
    let rows = draw_main(&settings(), false, &wide);
    assert_eq!(rows[3].text.as_str(), "\u{e9}\u{e9}\u{e9}\u{e9}\u{e9}\u{e9}\u{e9}\u{e9}\u{e9}\u{e9}x");
    assert_eq!(draw_main(&settings(), false, &[]).len(), 3);
}

#[test]
fn repeated_notes_do_not_redraw() {
    let mut ui = Ui::new();
    ui.note_decoded(b"E");
    ui.render(&settings());
    ui.note_decoded(b"E");
    ui.note_key_state(false);
    assert!(!ui.is_dirty());
    ui.note_decoded(b"EE");
    assert!(ui.is_dirty());
}

#[test]
fn decoded_text_beyond_the_buffer_is_dropped() {
    let mut ui = Ui::new();
    let mut long = [b'a'; 40];
    long[31] = b'z';
    ui.note_decoded(&long);
    let rows = ui.render(&settings()).unwrap();
    assert_eq!(rows[3].text.as_str(), "aaaaaaaaaaaaaaaaaaaaz");
}

#[test]
fn menu_does_not_redraw_for_notes() {
    let mut ui = Ui::new();
    let mut cfg = settings();
    press(&mut ui, &mut cfg, &[ButtonEvent::Okay]);
    ui.render(&cfg);
    ui.note_key_state(true);
    ui.note_decoded(b"TEST");
    assert!(!ui.is_dirty());
    press(&mut ui, &mut cfg, &[ButtonEvent::Back]);
    let rows = ui.render(&cfg).unwrap();
    assert_eq!(rows[0].text.as_str(), "CW Keyer    *");
    assert_eq!(rows[3].text.as_str(), "TEST");
}

#[test]
fn menu_screen_scrolls_around_the_cursor() {
    let cfg = settings();
    assert_eq!(
        texts(&draw_menu(&cfg, 0, false)),
        vec![
            row(0, ">Mode     IambicB"),
            row(12, " WPM      18"),
            row(24, " Weight   50"),
            row(36, " Tone Hz  600"),
            row(48, " Volume   50"),
        ]
    );
    assert_eq!(
        texts(&draw_menu(&cfg, 5, true)),
        vec![
            row(0, " Tone Hz  600"),
            row(12, " Volume   50"),
            row(24, "*Hang ms  500"),
            row(36, " Reverse  N"),
            row(48, " B Time % 50"),
        ]
    );
    assert_eq!(
        texts(&draw_menu(&cfg, 11, false)),
        vec![
            row(0, " B Time % 50"),
            row(12, " Farns WPM0"),
            row(24, " Comp ms  0"),
            row(36, " USB emit Paddle"),
            row(48, ">Decoder  On"),
        ]
    );
}

#[test]
fn cursor_beyond_the_list_shows_its_end() {
    let cfg = settings();
    let rows = draw_menu(&cfg, 200, false);
    assert_eq!(rows[0].text.as_str(), " B Time % 50");
    assert_eq!(rows[4].text.as_str(), " Decoder  On");
}

#[test]
fn every_cursor_position_is_on_the_screen() {
    let cfg = settings();
    for selected in 0..12u8 {
        let rows = draw_menu(&cfg, selected, false);
        let marked: Vec<&TextRow> =
            rows.iter().filter(|r| r.text.as_str().starts_with('>')).collect();
        assert_eq!(marked.len(), 1);
        assert!(marked[0].text[1..].starts_with(MenuItem::ALL[selected as usize].label()));
        assert!(rows.iter().all(|r| r.text.chars().count() <= 21 && r.y <= 54));
    }
}

#[test]
fn values_on_screen() {
    let cfg = KeyerConfig {
        mode: KeyerMode::SinglePaddle,
        sidetone_freq: u32::MAX,
        sidetone_volume_pct: -3,
        keys_reversed: true,
        usb_emit_style: UsbEmitStyle::Keyed,
        decoder_enabled: false,
        weight: 255,
        ..settings()
    };
    assert_eq!(value_string(&cfg, MenuItem::Mode).as_str(), "Single");
    assert_eq!(value_string(&cfg, MenuItem::Weight).as_str(), "255");
    assert_eq!(value_string(&cfg, MenuItem::SidetoneFreq).as_str(), "4294967295");
    assert_eq!(value_string(&cfg, MenuItem::SidetoneVolume).as_str(), "0");
    let loud = KeyerConfig { sidetone_volume_pct: 2_147_483_700, ..cfg };
    assert_eq!(value_string(&loud, MenuItem::SidetoneVolume).as_str(), "2147483700");
    let louder = KeyerConfig { sidetone_volume_pct: i64::MAX, ..cfg };
    assert_eq!(value_string(&louder, MenuItem::SidetoneVolume).as_str(), "4294967295");
    assert_eq!(value_string(&cfg, MenuItem::KeysReversed).as_str(), "Y");
    assert_eq!(value_string(&cfg, MenuItem::UsbEmit).as_str(), "Keyed");
    assert_eq!(value_string(&cfg, MenuItem::Decoder).as_str(), "Off");
    assert_eq!(mode_label(KeyerMode::Ultimatic), "Ultimatic");
    assert_eq!(mode_label(KeyerMode::Straight), "Straight");
    assert_eq!(mode_label(KeyerMode::Bug), "Bug");
    assert_eq!(mode_label(KeyerMode::IambicA), "IambicA");
}

#[test]
fn labels_and_cycling_items() {
    let labels: Vec<&str> = MenuItem::ALL.iter().map(|i| i.label()).collect();
    assert_eq!(
        labels,
        vec![
            "Mode", "WPM", "Weight", "Tone Hz", "Volume", "Hang ms", "Reverse", "B Time %",
            "Farns WPM", "Comp ms", "USB emit", "Decoder",
        ]
    );
    let cycling: Vec<MenuItem> =
        MenuItem::ALL.iter().copied().filter(|i| i.cycles_on_ok()).collect();
    assert_eq!(
        cycling,
        vec![MenuItem::Mode, MenuItem::KeysReversed, MenuItem::UsbEmit, MenuItem::Decoder]
    );
}

#[test]
fn main_screen_buttons_step_the_speed() {
    let mut ui = Ui::new();
    let mut cfg = settings();
    ui.render(&cfg);
    assert!(!ui.on_button(ButtonEvent::Back, &mut cfg));
    assert_eq!(cfg, settings());
    assert!(!ui.take_config_changed());
    assert!(ui.on_button(ButtonEvent::Up, &mut cfg));
    assert_eq!(cfg, KeyerConfig { speed_wpm: 19, ..settings() });
    press(&mut ui, &mut cfg, &[ButtonEvent::Down, ButtonEvent::Down]);
    assert_eq!(cfg.speed_wpm, 17);
    assert!(ui.take_config_changed());
    assert!(!ui.take_config_changed());
}

#[test]
fn menu_wraps_and_ok_cycles_short_lists() {
    let mut ui = Ui::new();
    let mut cfg = settings();
    press(&mut ui, &mut cfg, &[ButtonEvent::Okay, ButtonEvent::Up, ButtonEvent::Okay]);
    assert_eq!(cfg, KeyerConfig { decoder_enabled: false, ..settings() });
    assert!(ui.take_config_changed());
    let rows = ui.render(&cfg).unwrap();
    assert_eq!(rows[4].text.as_str(), ">Decoder  Off");
    press(&mut ui, &mut cfg, &[ButtonEvent::Down, ButtonEvent::Okay]);
    assert_eq!(cfg.mode, KeyerMode::Bug);
    for _ in 0..12 {
        press(&mut ui, &mut cfg, &[ButtonEvent::Down]);
    }
    assert_eq!(ui.render(&cfg).unwrap()[0].text.as_str(), ">Mode     Bug");
}

#[test]
fn ranged_items_open_the_edit_screen() {
    let mut ui = Ui::new();
    let mut cfg = settings();
    press(
        &mut ui,
        &mut cfg,
        &[ButtonEvent::Okay, ButtonEvent::Down, ButtonEvent::Down, ButtonEvent::Down],
    );
    assert!(!ui.take_config_changed());
    press(&mut ui, &mut cfg, &[ButtonEvent::Okay]);
    assert_eq!(ui.render(&cfg).unwrap()[2].text.as_str(), "*Tone Hz  600");
    press(&mut ui, &mut cfg, &[ButtonEvent::Up, ButtonEvent::Up, ButtonEvent::Down]);
    assert_eq!(cfg, KeyerConfig { sidetone_freq: 625, ..settings() });
    press(&mut ui, &mut cfg, &[ButtonEvent::Okay]);
    assert_eq!(ui.render(&cfg).unwrap()[2].text.as_str(), ">Tone Hz  625");
    press(&mut ui, &mut cfg, &[ButtonEvent::Okay, ButtonEvent::Back, ButtonEvent::Back]);
    assert_eq!(ui.render(&cfg).unwrap()[0].text.as_str(), "CW Keyer");
}

#[test]
fn steps_stop_at_the_bounds() {
    let low = KeyerConfig {
        speed_wpm: 5,
        weight: 25,
        sidetone_freq: 310,
        sidetone_volume_pct: 3,
        hang_time_ms: 20,
        iambic_b_timing_percent: 4,
        farnsworth_wpm: 0,
        keying_compensation_ms: 0,
        ..settings()
    };
    let mut cfg = low;
    for item in MenuItem::ALL {
        if !item.cycles_on_ok() {
            adjust(&mut cfg, item, false);
        }
    }
    assert_eq!(
        cfg,
        KeyerConfig {
            sidetone_freq: 300,
            sidetone_volume_pct: 0,
            hang_time_ms: 0,
            iambic_b_timing_percent: 0,
            ..low
        }
    );
    let high = KeyerConfig {
        speed_wpm: 60,
        weight: 75,
        sidetone_freq: 1190,
        sidetone_volume_pct: 98,
        hang_time_ms: 1980,
        iambic_b_timing_percent: 97,
        farnsworth_wpm: 60,
        keying_compensation_ms: 50,
        ..settings()
    };
    let mut cfg = high;
    for item in MenuItem::ALL {
        if !item.cycles_on_ok() {
            adjust(&mut cfg, item, true);
        }
    }
    assert_eq!(
        cfg,
        KeyerConfig {
            sidetone_freq: 1200,
            sidetone_volume_pct: 100,
            hang_time_ms: 2000,
            iambic_b_timing_percent: 100,
            ..high
        }
    );
}

#[test]
fn step_functions() {
    assert_eq!(step_u8(255, 1, 0, 255, true), 255);
    assert_eq!(step_u8(250, 10, 0, 255, true), 255);
    assert_eq!(step_u8(3, 5, 0, 100, false), 0);
    assert_eq!(step_u8(200, 1, 5, 60, true), 60);
    assert_eq!(step_u8(2, 1, 5, 60, true), 3);
    assert_eq!(step_u8(2, 1, 5, 60, false), 5);
    assert_eq!(step_u32(u32::MAX, 25, 300, 1200, true), 1200);
    assert_eq!(step_u32(u32::MAX, 25, 300, 1200, false), u32::MAX - 25);
    assert_eq!(step_u32(0, 25, 300, 1200, false), 300);
    assert_eq!(step_percent(50, true), 55);
    assert_eq!(step_percent(50, false), 45);
    assert_eq!(step_percent(-20, true), 0);
    assert_eq!(step_percent(110, false), 100);
    assert_eq!(step_percent(104, false), 99);
    assert_eq!(step_percent(i64::MAX, true), 100);
    assert_eq!(step_percent(i64::MIN, false), 0);
}

#[test]
fn modes_cycle_both_ways() {
    let order = [
        KeyerMode::Straight,
        KeyerMode::IambicA,
        KeyerMode::IambicB,
        KeyerMode::Bug,
        KeyerMode::Ultimatic,
        KeyerMode::SinglePaddle,
    ];
    for i in 0..6 {
        assert_eq!(next_mode(order[i], true), order[(i + 1) % 6]);
        assert_eq!(next_mode(order[i], false), order[(i + 5) % 6]);
    }
}

#[test]
fn ui_task_asks_for_one_save_per_batch() {
    let mut cfg = settings();
    let mut task = UiTask::new(&cfg);
    assert!(!task.on_buttons(&[], &mut cfg).save);
    assert!(!task.on_buttons(&[ButtonEvent::Back], &mut cfg).save);
    let edits = task.on_buttons(&[ButtonEvent::Up, ButtonEvent::Up, ButtonEvent::Okay], &mut cfg);
    assert_eq!(edits, Edits { save: true, volume: false });
    assert_eq!(cfg.speed_wpm, 20);
    assert!(!task.on_buttons(&[ButtonEvent::Down], &mut cfg).save);
}

#[test]
fn ui_task_tells_when_the_volume_is_set() {
    let mut cfg = KeyerConfig { sidetone_volume_pct: 100, ..settings() };
    let mut task = UiTask::new(&cfg);
    let to_volume = [
        ButtonEvent::Okay,
        ButtonEvent::Down,
        ButtonEvent::Down,
        ButtonEvent::Down,
        ButtonEvent::Down,
        ButtonEvent::Okay,
    ];
    assert_eq!(task.on_buttons(&to_volume, &mut cfg), Edits { save: false, volume: false });
    // At the upper bound already, but set all the same.
    assert_eq!(
        task.on_buttons(&[ButtonEvent::Up, ButtonEvent::Back], &mut cfg),
        Edits { save: true, volume: true }
    );
    assert_eq!(cfg.sidetone_volume_pct, 100);
}

#[test]
fn steps_setting_says_what_a_press_would_step() {
    let mut ui = Ui::new();
    let mut cfg = settings();
    assert_eq!(ui.steps_setting(ButtonEvent::Up), Some((MenuItem::Wpm, true)));
    assert_eq!(ui.steps_setting(ButtonEvent::Down), Some((MenuItem::Wpm, false)));
    assert_eq!(ui.steps_setting(ButtonEvent::Okay), None);
    press(&mut ui, &mut cfg, &[ButtonEvent::Okay]);
    assert_eq!(ui.steps_setting(ButtonEvent::Okay), Some((MenuItem::Mode, true)));
    assert_eq!(ui.steps_setting(ButtonEvent::Up), None);
    press(&mut ui, &mut cfg, &[ButtonEvent::Down]);
    assert_eq!(ui.steps_setting(ButtonEvent::Okay), None);
    press(&mut ui, &mut cfg, &[ButtonEvent::Okay]);
    assert_eq!(ui.steps_setting(ButtonEvent::Down), Some((MenuItem::Wpm, false)));
    assert_eq!(ui.steps_setting(ButtonEvent::Back), None);
}

#[test]
fn ui_task_remembers_decoder_settings_when_drawing() {
    let mut cfg = settings();
    let mut task = UiTask::new(&cfg);
    assert_eq!(task.decoder_poll(), Some(18));
    task.draw(&cfg);
    task.on_buttons(&[ButtonEvent::Up], &mut cfg);
    assert_eq!(task.decoder_poll(), Some(18));
    assert!(task.is_dirty());
    assert_eq!(task.draw(&cfg).unwrap()[2].text.as_str(), "WPM:  19");
    assert_eq!(task.decoder_poll(), Some(19));
    task.on_buttons(&[ButtonEvent::Okay, ButtonEvent::Up, ButtonEvent::Okay], &mut cfg);
    assert!(task.draw(&cfg).is_some());
    assert_eq!(task.decoder_poll(), None);
    task.note_key_state(true);
    task.note_decoded(b"K");
    assert!(task.draw(&cfg).is_none());
}
