//! Drive of the 2N2222 NPN that keys the radio.
//!
//! Wiring: MCU pin, 1k base resistor, 2N2222 base. Emitter to ground.
//! Collector to the radio key tip (or PTT line) through a current-limiting
//! resistor. The radio itself provides the pull-up to its keying supply.
//!
//! Active-high: pin high saturates the transistor, sinking the radio's key
//! line to ground and keying the carrier.

use vstd::prelude::*;

verus! {

/// Level of an output pin.
#[derive(Debug, Clone, Copy, PartialEq, Eq, Structural)]
pub enum Level {
    Low,
    High,
}

/// The carrier is on while the pin is at this level.
pub open spec fn keys_carrier(level: Level) -> bool {
    level == Level::High
}

/// The level that keys or unkeys the radio.
pub open spec fn level_for(on: bool) -> Level {
    if on {
        Level::High
    } else {
        Level::Low
    }
}

/// The radio key, up to the pin.
pub struct RadioKey {
    level: Level,
}

impl View for RadioKey {
    type V = Level;

    closed spec fn view(&self) -> Level {
        self.level
    }
}

impl RadioKey {
    /// The radio key with its pin low: the carrier is off.
    pub fn new() -> (key: Self)
        ensures
            !keys_carrier(key@),
            key@ == level_for(false),
    {
        RadioKey { level: Level::Low }
    }

    /// Key or unkey the radio; returns the level to put on the pin.
    pub fn set(&mut self, on: bool) -> (level: Level)
        ensures
            level == final(self)@,
            keys_carrier(level) == on,
            level == level_for(on),
    {
        self.level = if on { Level::High } else { Level::Low };
        self.level
    }
}

/// The key is active-high: a high pin keys the carrier, a low one does not.
pub proof fn law_key_is_active_high()
    ensures
        keys_carrier(Level::High),
        !keys_carrier(Level::Low),
        level_for(true) == Level::High,
        level_for(false) == Level::Low,
{
}

} // verus!
