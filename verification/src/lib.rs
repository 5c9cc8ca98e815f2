//! Iambic CW keyer firmware logic.
//!
//! Everything that decides and computes, verified; the pins, the USB
//! peripheral, the flash and the display are driven by the firmware around it.

use vstd::prelude::*;

pub mod buttons;
pub mod buzzer;
pub mod cdc_serial_state;
pub mod config;
pub mod config_persist_task;
pub mod decoded;
pub mod keyer_task;
pub mod midi_interrupt;
pub mod paddle;
pub mod radio_key;
pub mod screens;
pub mod serial_number;
pub mod shared;
pub mod storage;
pub mod text;
pub mod ui;
pub mod ui_task;
pub mod usb_descriptors;
pub mod usb_emit_task;

verus! {

/// GPIO pin the firmware drives the 2N2222 keying base from.
pub const RADIO_KEY_PIN: u8 = 18;

/// PWM slice driving the piezo buzzer (channel B, PIN_19).
pub const BUZZER_PWM_SLICE: usize = 1;

/// Register writes that make the outputs safe.
#[derive(Debug, Clone, Copy, PartialEq, Eq, Structural)]
pub struct SafeStop {
    /// Write to the GPIO bank's atomic-clear register: the bits set here are
    /// cleared in the outputs.
    pub gpio_clear: u32,
    /// PWM slice to silence.
    pub pwm_slice: usize,
    /// Write to that slice's compare register, both channels.
    pub pwm_compare: u32,
}

/// What the GPIO outputs are after a write to the atomic-clear register.
pub open spec fn cleared(outputs: u32, mask: u32) -> u32 {
    outputs & !mask
}

/// Pin `pin` is high in the outputs.
pub open spec fn is_high(outputs: u32, pin: u32) -> bool {
    (outputs >> pin) & 1 == 1
}

/// The register writes of a safe stop.
pub open spec fn safe_writes() -> SafeStop {
    SafeStop {
        gpio_clear: 1u32 << RADIO_KEY_PIN,
        pwm_slice: BUZZER_PWM_SLICE,
        pwm_compare: 0,
    }
}

/// Deassert the radio key and silence the buzzer using only direct register
/// writes, so that it can be done from a panic handler: no allocator, no
/// async, no driver state.
///
/// Without this a panic leaves the radio-key pin latched high, and the radio
/// transmits an unmodulated carrier until power-cycled.
pub fn safe_stop() -> (stop: SafeStop)
    ensures
        stop.gpio_clear == 1u32 << RADIO_KEY_PIN,
        stop.pwm_slice == BUZZER_PWM_SLICE,
        stop.pwm_compare == 0,
        stop == safe_writes(),
        forall|outputs: u32|
            !is_high(#[trigger] cleared(outputs, stop.gpio_clear), RADIO_KEY_PIN as u32),
{
    let stop = SafeStop {
        gpio_clear: 1u32 << RADIO_KEY_PIN,
        pwm_slice: BUZZER_PWM_SLICE,
        pwm_compare: 0,
    };
    assert forall|outputs: u32| !is_high(
        #[trigger] cleared(outputs, stop.gpio_clear),
        RADIO_KEY_PIN as u32,
    ) by {
        law_safe_stop_unkeys_only(outputs, 0);
    }
    stop
}

/// Stopping takes the radio key low and touches no other pin, whatever was on
/// the pins.
pub proof fn law_safe_stop_unkeys_only(outputs: u32, pin: u32)
    requires
        pin < 32,
    ensures
        !is_high(cleared(outputs, 1u32 << RADIO_KEY_PIN), RADIO_KEY_PIN as u32),
        pin != RADIO_KEY_PIN ==> is_high(cleared(outputs, 1u32 << RADIO_KEY_PIN), pin)
            == is_high(outputs, pin),
{
    assert(((outputs & !(1u32 << 18u8)) >> 18u32) & 1 == 0) by (bit_vector);
    assert(pin < 32 && pin != 18 ==> ((outputs & !(1u32 << 18u8)) >> pin) & 1 == (outputs >> pin)
        & 1) by (bit_vector);
}

/// A safe stop takes pin 18 low and no other, and sets the compare value of
/// PWM slice 1 to zero, which is silence.
pub proof fn law_safe_stop_is_safe(outputs: u32, pin: u32)
    requires
        pin < 32,
    ensures
        is_high(cleared(outputs, safe_writes().gpio_clear), pin) <==> is_high(outputs, pin) && pin
            != 18,
        safe_writes().pwm_slice == 1,
        safe_writes().pwm_compare == 0,
{
    law_safe_stop_unkeys_only(outputs, pin);
}

} // verus!
