//! State that passes from the keyer task to the USB emit task.

use vstd::prelude::*;

use crate::config::UsbEmitStyle;

verus! {

/// Per-iteration snapshot of the keyer's USB-facing state.
///
/// Produced by the high-priority keyer task and consumed by the USB emit
/// task, so that the keyer loop never blocks on a USB endpoint poll.
#[derive(Debug, Clone, Copy, PartialEq, Eq, Structural)]
pub struct UsbSnapshot {
    /// Logical dit paddle state (after the `keys_reversed` swap).
    pub dit_pressed: bool,
    /// Logical dah paddle state (after the `keys_reversed` swap).
    pub dah_pressed: bool,
    /// Engine's current keyed-line state; toggles per Morse element.
    pub live_key: bool,
    /// Which emit style the keyer is currently configured for.
    pub emit_style: UsbEmitStyle,
}

} // verus!
