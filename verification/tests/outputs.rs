use rp_keyer::buzzer::{Buzzer, Program};
use rp_keyer::radio_key::{Level, RadioKey};
use rp_keyer::serial_number::flash_serial;
use rp_keyer::{safe_stop, SafeStop};

#[test]
fn tone_at_600_hz() {
    let mut buzzer = Buzzer::new(125_000_000);
    // 125 MHz / (600 * 4096) = 50; 2.5 MHz / 600 = 4166
    assert_eq!(
        buzzer.update_settings(600, true),
        Some(Program { divider_bits: 800, top: 4166, max_compare: 0, reset_counter: true })
    );
    assert_eq!(
        buzzer.set_keyed(true),
        Some(Program { divider_bits: 800, top: 4166, max_compare: 2083, reset_counter: false })
    );
    assert_eq!(buzzer.set_keyed(true), None);
    assert_eq!(
        buzzer.set_keyed(false),
        Some(Program { divider_bits: 800, top: 4166, max_compare: 0, reset_counter: false })
    );
    assert_eq!(buzzer.set_keyed(false), None);
}

#[test]
fn only_changes_are_programmed() {
    let mut buzzer = Buzzer::new(150_000_000);
    assert!(buzzer.update_settings(700, false).is_some());
    assert_eq!(buzzer.update_settings(700, false), None);
    assert!(buzzer.update_settings(700, true).is_some());
    assert!(buzzer.update_settings(701, false).is_some());
}

#[test]
fn counter_is_reset_only_when_the_period_shrinks() {
    let mut buzzer = Buzzer::new(125_000_000);
    let low = buzzer.update_settings(300, true).unwrap();
    // 125 MHz / (300 * 4096) = 101; 1237623 / 300 = 4125
    assert_eq!((low.divider_bits, low.top), (101 * 16, 4125));
    let high = buzzer.update_settings(1200, true).unwrap();
    // 125 MHz / (1200 * 4096) = 25; 5 MHz / 1200 = 4166
    assert_eq!((high.divider_bits, high.top, high.reset_counter), (25 * 16, 4166, false));
    assert!(buzzer.update_settings(300, true).unwrap().reset_counter);
}

#[test]
fn frequency_is_at_least_50_hz() {
    let mut buzzer = Buzzer::new(125_000_000);
    // 125 MHz / (50 * 4096) = 610, cut to 255; 490196 / 50 = 9803
    let program = buzzer.update_settings(0, true).unwrap();
    assert_eq!((program.divider_bits, program.top), (255 * 16, 9803));
    assert_eq!(buzzer.update_settings(50, false), None);
    assert_eq!(buzzer.update_settings(49, false), None);
}

#[test]
fn extreme_settings() {
    let mut buzzer = Buzzer::new(125_000_000);
    let program = buzzer.update_settings(u32::MAX, true).unwrap();
    assert_eq!((program.divider_bits, program.top), (16, 2));
    // Keyed before any frequency is set.
    let mut fresh = Buzzer::new(125_000_000);
    assert_eq!(
        fresh.set_keyed(true),
        Some(Program {
            divider_bits: 255 * 16,
            top: 0xffff,
            max_compare: 32767,
            reset_counter: false,
        })
    );
    let mut stopped = Buzzer::new(0);
    assert_eq!(stopped.update_settings(600, true).unwrap().top, 2);
}

#[test]
fn pitch_over_the_sidetone_range() {
    for clock in [125_000_000u32, 150_000_000] {
        let mut buzzer = Buzzer::new(clock);
        for freq in (300..=1200).step_by(25) {
            let program = buzzer.update_settings(freq, true).unwrap();
            let slice = clock / (program.divider_bits as u32 / 16);
            let top = program.top as u32;
            assert!((1000..=50_000).contains(&top));
            assert!(top * freq <= slice && slice < (top + 1) * freq);
        }
    }
}

#[test]
fn radio_key_is_active_high() {
    let mut key = RadioKey::new();
    assert_eq!(key.set(true), Level::High);
    assert_eq!(key.set(true), Level::High);
    assert_eq!(key.set(false), Level::Low);
}

#[test]
fn safe_stop_clears_key_and_buzzer() {
    assert_eq!(
        safe_stop(),
        SafeStop { gpio_clear: 1 << 18, pwm_slice: 1, pwm_compare: 0 }
    );
}

#[test]
fn serial_number_is_the_unique_id_in_hex() {
    let id = [0x00, 0x01, 0x9a, 0xbc, 0xde, 0xf0, 0x7f, 0xff];
    let serial = flash_serial(Some(id));
    assert_eq!(&serial, b"00019abcdef07fff");
    assert!(std::str::from_utf8(&serial).is_ok());
    assert_ne!(flash_serial(Some([0; 8])), serial);
}

#[test]
fn serial_number_falls_back() {
    assert_eq!(&flash_serial(None), b"rpk-rp2040-0000\0");
}
