//! Keyer settings, as far as the firmware reads or edits them.

use vstd::prelude::*;

verus! {

/// How the paddles are turned into Morse elements.
#[derive(Debug, Clone, Copy, PartialEq, Eq, Structural)]
pub enum KeyerMode {
    Straight,
    IambicA,
    IambicB,
    Bug,
    Ultimatic,
    SinglePaddle,
}

/// What the USB transports carry.
#[derive(Debug, Clone, Copy, PartialEq, Eq, Structural)]
pub enum UsbEmitStyle {
    /// Both paddles, as they are pressed.
    Paddle,
    /// The keyed line, one transition per Morse element edge.
    Keyed,
}

/// What the keying engine asks for after a tick.
#[derive(Debug, Clone, Copy, PartialEq, Eq, Structural)]
pub enum KeyerOutput {
    KeyDown,
    KeyUp,
    PttRequest(bool),
}

/// The settings that the menu edits and the tasks read.
#[derive(Debug, Clone, Copy, PartialEq, Eq, Structural)]
pub struct KeyerConfig {
    pub mode: KeyerMode,
    pub speed_wpm: u8,
    pub weight: u8,
    pub sidetone_freq: u32,
    /// Sidetone volume in whole percent, rounded toward zero. The menu sets 0
    /// to 100; stored settings may hold anything.
    pub sidetone_volume_pct: i64,
    pub hang_time_ms: u32,
    pub keys_reversed: bool,
    pub iambic_b_timing_percent: u8,
    pub farnsworth_wpm: u8,
    pub keying_compensation_ms: u8,
    pub usb_emit_style: UsbEmitStyle,
    pub decoder_enabled: bool,
}

} // verus!
