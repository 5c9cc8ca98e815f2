//! OLED screens and the menu state machine.
//!
//! The main screen shows the title with a key indicator, the mode, the speed
//! and the latest decoded text. The menu is a scrolling list of settings with
//! a cursor; ranged settings open an edit screen, short lists cycle in place.

use vstd::prelude::*;

use crate::buttons::ButtonEvent;
use crate::config::{KeyerConfig, KeyerMode, UsbEmitStyle};
use crate::decoded::{decoded_clear, decoded_extend, decoded_new, decoded_slice, HISTORY_CAPACITY};
use crate::screens::{draw_main, draw_menu, TextRow, TextRowView};

verus! {

/// Cursor position inside the settings menu.
#[derive(Debug, Clone, Copy, PartialEq, Eq, Structural)]
pub enum MenuItem {
    Mode,
    Wpm,
    Weight,
    SidetoneFreq,
    SidetoneVolume,
    HangTimeMs,
    KeysReversed,
    IambicBPercent,
    FarnsworthWpm,
    KeyingCompMs,
    UsbEmit,
    Decoder,
}

/// How many items the menu has.
pub const MENU_LEN: u8 = 12;

impl MenuItem {
    /// Display order, mirroring the on-screen list.
    pub const ALL: [MenuItem; 12] = [
        MenuItem::Mode,
        MenuItem::Wpm,
        MenuItem::Weight,
        MenuItem::SidetoneFreq,
        MenuItem::SidetoneVolume,
        MenuItem::HangTimeMs,
        MenuItem::KeysReversed,
        MenuItem::IambicBPercent,
        MenuItem::FarnsworthWpm,
        MenuItem::KeyingCompMs,
        MenuItem::UsbEmit,
        MenuItem::Decoder,
    ];

    /// The item's name on the screen.
    pub open spec fn label_text(self) -> Seq<char> {
        match self {
            MenuItem::Mode => "Mode"@,
            MenuItem::Wpm => "WPM"@,
            MenuItem::Weight => "Weight"@,
            MenuItem::SidetoneFreq => "Tone Hz"@,
            MenuItem::SidetoneVolume => "Volume"@,
            MenuItem::HangTimeMs => "Hang ms"@,
            MenuItem::KeysReversed => "Reverse"@,
            MenuItem::IambicBPercent => "B Time %"@,
            MenuItem::FarnsworthWpm => "Farns WPM"@,
            MenuItem::KeyingCompMs => "Comp ms"@,
            MenuItem::UsbEmit => "USB emit"@,
            MenuItem::Decoder => "Decoder"@,
        }
    }

    /// The item has so few values that OK steps through them in place.
    pub open spec fn cycles(self) -> bool {
        self == MenuItem::Mode || self == MenuItem::KeysReversed || self == MenuItem::UsbEmit
            || self == MenuItem::Decoder
    }

    /// The item's name on the screen.
    pub fn label(self) -> (label: &'static str)
        ensures
            label@ == self.label_text(),
    {
        match self {
            MenuItem::Mode => "Mode",
            MenuItem::Wpm => "WPM",
            MenuItem::Weight => "Weight",
            MenuItem::SidetoneFreq => "Tone Hz",
            MenuItem::SidetoneVolume => "Volume",
            MenuItem::HangTimeMs => "Hang ms",
            MenuItem::KeysReversed => "Reverse",
            MenuItem::IambicBPercent => "B Time %",
            MenuItem::FarnsworthWpm => "Farns WPM",
            MenuItem::KeyingCompMs => "Comp ms",
            MenuItem::UsbEmit => "USB emit",
            MenuItem::Decoder => "Decoder",
        }
    }

    /// `true` for items whose value space is short enough that cycling on
    /// every OK press is friendlier than entering a dedicated edit screen.
    pub fn cycles_on_ok(self) -> (cycles: bool)
        ensures
            cycles == self.cycles(),
    {
        matches!(
            self,
            MenuItem::Mode | MenuItem::KeysReversed | MenuItem::UsbEmit | MenuItem::Decoder
        )
    }
}

/// Top-level screen the UI is currently showing.
#[derive(Debug, Clone, Copy, PartialEq, Eq, Structural)]
pub enum Screen {
    /// Live status.
    Main,
    /// Settings list, cursor at the `selected` index of `MenuItem::ALL`.
    Menu { selected: u8 },
    /// Editing the value of `MenuItem::ALL[selected]`.
    Edit { selected: u8 },
}

/// What the UI remembers.
pub struct UiView {
    pub screen: Screen,
    /// Something on the screen changed since it was last drawn.
    pub dirty: bool,
    /// A button press edited the settings since this was last asked.
    pub config_changed: bool,
    pub last_key_indicator: bool,
    pub decoded: Seq<u8>,
}

impl UiView {
    /// The cursor is inside the menu, and items that cycle in place are never
    /// on the edit screen. The decoded text fits its buffer.
    pub open spec fn wf(self) -> bool {
        &&& match self.screen {
            Screen::Main => true,
            Screen::Menu { selected } => selected < MENU_LEN,
            Screen::Edit { selected } => selected < MENU_LEN
                && !MenuItem::ALL@[selected as int].cycles(),
        }
        &&& self.decoded.len() <= HISTORY_CAPACITY
    }

    /// The UI at boot: the main screen, to be painted.
    pub open spec fn initial() -> UiView {
        UiView {
            screen: Screen::Main,
            dirty: true,
            config_changed: false,
            last_key_indicator: false,
            decoded: Seq::empty(),
        }
    }

    /// The UI shows `screen` now.
    pub open spec fn shows(self, screen: Screen) -> UiView {
        UiView { screen, dirty: true, ..self }
    }

    /// The UI after an edit of the settings.
    pub open spec fn edited(self) -> UiView {
        UiView { dirty: true, config_changed: true, ..self }
    }

    /// The UI after a button press.
    pub open spec fn pressed(self, ev: ButtonEvent) -> UiView {
        match self.screen {
            Screen::Main => match ev {
                ButtonEvent::Okay => self.shows(Screen::Menu { selected: 0 }),
                ButtonEvent::Up | ButtonEvent::Down => self.edited(),
                ButtonEvent::Back => self,
            },
            Screen::Menu { selected } => match ev {
                ButtonEvent::Up => self.shows(
                    Screen::Menu { selected: ((selected + MENU_LEN - 1) % MENU_LEN as int) as u8 },
                ),
                ButtonEvent::Down => self.shows(
                    Screen::Menu { selected: ((selected + 1) % MENU_LEN as int) as u8 },
                ),
                ButtonEvent::Okay => if MenuItem::ALL@[selected as int].cycles() {
                    self.edited()
                } else {
                    self.shows(Screen::Edit { selected })
                },
                ButtonEvent::Back => self.shows(Screen::Main),
            },
            Screen::Edit { selected } => match ev {
                ButtonEvent::Up | ButtonEvent::Down => self.edited(),
                ButtonEvent::Okay | ButtonEvent::Back => self.shows(Screen::Menu { selected }),
            },
        }
    }

    /// The setting that a button press steps, and whether upwards.
    pub open spec fn steps(self, ev: ButtonEvent) -> Option<(MenuItem, bool)> {
        match (self.screen, ev) {
            (Screen::Main, ButtonEvent::Up) => Some((MenuItem::Wpm, true)),
            (Screen::Main, ButtonEvent::Down) => Some((MenuItem::Wpm, false)),
            (Screen::Menu { selected }, ButtonEvent::Okay) => if MenuItem::ALL@[selected as int].cycles() {
                Some((MenuItem::ALL@[selected as int], true))
            } else {
                None
            },
            (Screen::Edit { selected }, ButtonEvent::Up) => Some(
                (MenuItem::ALL@[selected as int], true),
            ),
            (Screen::Edit { selected }, ButtonEvent::Down) => Some(
                (MenuItem::ALL@[selected as int], false),
            ),
            _ => None,
        }
    }

    /// The UI after it was asked for edits.
    pub open spec fn reported(self) -> UiView {
        UiView { config_changed: false, ..self }
    }

    /// The UI after it was drawn.
    pub open spec fn drawn(self) -> UiView {
        UiView { dirty: false, ..self }
    }

    /// The UI after the keyed line was reported.
    pub open spec fn key_noted(self, keyed: bool) -> UiView {
        UiView {
            last_key_indicator: keyed,
            dirty: self.dirty || (keyed != self.last_key_indicator && self.screen is Main),
            ..self
        }
    }

    /// The UI after the decoder's text was reported.
    pub open spec fn decoded_noted(self, text: Seq<u8>) -> UiView {
        if self.decoded == text {
            self
        } else {
            UiView {
                decoded: if text.len() <= HISTORY_CAPACITY {
                    text
                } else {
                    text.take(HISTORY_CAPACITY as int)
                },
                dirty: self.dirty || self.screen is Main,
                ..self
            }
        }
    }
}

/// What the screen shows.
pub open spec fn frame(u: UiView, cfg: KeyerConfig) -> Seq<TextRowView> {
    match u.screen {
        Screen::Main => crate::screens::main_rows(cfg, u.last_key_indicator, u.decoded),
        Screen::Menu { selected } => crate::screens::menu_rows(cfg, selected as int, false),
        Screen::Edit { selected } => crate::screens::menu_rows(cfg, selected as int, true),
    }
}

/// The settings after a button press.
pub open spec fn config_pressed(u: UiView, cfg: KeyerConfig, ev: ButtonEvent) -> KeyerConfig {
    match u.steps(ev) {
        Some((item, up)) => adjusted(cfg, item, up),
        None => cfg,
    }
}

/// One step of a ranged value, held inside its bounds.
pub open spec fn stepped(v: int, step: int, lo: int, hi: int, up: bool) -> int {
    if up {
        if v + step <= hi { v + step } else { hi }
    } else {
        if v - step >= lo { v - step } else { lo }
    }
}

/// The place of a mode in the cycle.
pub open spec fn mode_index(m: KeyerMode) -> int {
    match m {
        KeyerMode::Straight => 0,
        KeyerMode::IambicA => 1,
        KeyerMode::IambicB => 2,
        KeyerMode::Bug => 3,
        KeyerMode::Ultimatic => 4,
        KeyerMode::SinglePaddle => 5,
    }
}

/// How many modes there are.
pub const MODE_COUNT: u8 = 6;

/// The settings after one step of `item`.
pub open spec fn adjusted(cfg: KeyerConfig, item: MenuItem, up: bool) -> KeyerConfig {
    match item {
        MenuItem::Mode => KeyerConfig { mode: stepped_mode(cfg.mode, up), ..cfg },
        MenuItem::Wpm => KeyerConfig {
            speed_wpm: stepped(cfg.speed_wpm as int, 1, 5, 60, up) as u8,
            ..cfg
        },
        MenuItem::Weight => KeyerConfig {
            weight: stepped(cfg.weight as int, 1, 25, 75, up) as u8,
            ..cfg
        },
        MenuItem::SidetoneFreq => KeyerConfig {
            sidetone_freq: stepped(cfg.sidetone_freq as int, 25, 300, 1200, up) as u32,
            ..cfg
        },
        MenuItem::SidetoneVolume => KeyerConfig {
            sidetone_volume_pct: stepped_percent(cfg.sidetone_volume_pct as int, up) as i64,
            ..cfg
        },
        MenuItem::HangTimeMs => KeyerConfig {
            hang_time_ms: stepped(cfg.hang_time_ms as int, 50, 0, 2000, up) as u32,
            ..cfg
        },
        MenuItem::KeysReversed => KeyerConfig { keys_reversed: !cfg.keys_reversed, ..cfg },
        MenuItem::IambicBPercent => KeyerConfig {
            iambic_b_timing_percent: stepped(
                cfg.iambic_b_timing_percent as int,
                5,
                0,
                100,
                up,
            ) as u8,
            ..cfg
        },
        MenuItem::FarnsworthWpm => KeyerConfig {
            farnsworth_wpm: stepped(cfg.farnsworth_wpm as int, 1, 0, 60, up) as u8,
            ..cfg
        },
        MenuItem::KeyingCompMs => KeyerConfig {
            keying_compensation_ms: stepped(
                cfg.keying_compensation_ms as int,
                1,
                0,
                50,
                up,
            ) as u8,
            ..cfg
        },
        MenuItem::UsbEmit => KeyerConfig {
            usb_emit_style: match cfg.usb_emit_style {
                UsbEmitStyle::Paddle => UsbEmitStyle::Keyed,
                UsbEmitStyle::Keyed => UsbEmitStyle::Paddle,
            },
            ..cfg
        },
        MenuItem::Decoder => KeyerConfig { decoder_enabled: !cfg.decoder_enabled, ..cfg },
    }
}

/// The mode at a place in the cycle.
pub open spec fn mode_at(i: int) -> KeyerMode {
    if i == 0 {
        KeyerMode::Straight
    } else if i == 1 {
        KeyerMode::IambicA
    } else if i == 2 {
        KeyerMode::IambicB
    } else if i == 3 {
        KeyerMode::Bug
    } else if i == 4 {
        KeyerMode::Ultimatic
    } else {
        KeyerMode::SinglePaddle
    }
}

/// The neighbour of a mode in the cycle.
pub open spec fn stepped_mode(m: KeyerMode, up: bool) -> KeyerMode {
    mode_at(
        if up {
            (mode_index(m) + 1) % (MODE_COUNT as int)
        } else {
            (mode_index(m) + MODE_COUNT - 1) % (MODE_COUNT as int)
        },
    )
}

/// One step of the volume: five percent, held inside zero to a hundred
/// whichever way it goes.
pub open spec fn stepped_percent(pct: int, up: bool) -> int {
    let next = if up { pct + 5 } else { pct - 5 };
    if next < 0 {
        0
    } else if next > 100 {
        100
    } else {
        next
    }
}

/// The user interface, up to the display itself.
pub struct Ui {
    screen: Screen,
    dirty: bool,
    config_changed: bool,
    last_key_indicator: bool,
    decoded: heapless::Vec<u8, 32>,
}

impl View for Ui {
    type V = UiView;

    closed spec fn view(&self) -> UiView {
        UiView {
            screen: self.screen,
            dirty: self.dirty,
            config_changed: self.config_changed,
            last_key_indicator: self.last_key_indicator,
            decoded: crate::decoded::decoded_bytes(self.decoded),
        }
    }
}

impl Ui {
    #[verifier::type_invariant]
    spec fn inv(self) -> bool {
        self@.wf()
    }

    /// The UI at boot.
    pub fn new() -> (ui: Self)
        ensures
            ui@ == UiView::initial(),
            ui@.wf(),
    {
        Ui {
            screen: Screen::Main,
            dirty: true,
            config_changed: false,
            last_key_indicator: false,
            decoded: decoded_new(),
        }
    }

    /// Update the cached decoded text. Flags the UI as dirty only when the
    /// main screen is active and the text actually changed: the other screens
    /// do not show it. Text beyond the buffer's capacity is cut off.
    pub fn note_decoded(&mut self, text: &[u8])
        ensures
            final(self)@ == old(self)@.decoded_noted(text@),
            final(self)@.wf(),
    {
        proof {
            use_type_invariant(&*self);
        }
        if bytes_equal(decoded_slice(&self.decoded), text) {
            return;
        }
        let n: usize = if text.len() <= HISTORY_CAPACITY {
            text.len()
        } else {
            HISTORY_CAPACITY
        };
        let kept = vstd::slice::slice_subrange(text, 0, n);
        decoded_clear(&mut self.decoded);
        let _ = decoded_extend(&mut self.decoded, kept);
        assert(self@.decoded =~= old(self)@.decoded_noted(text@).decoded);
        if matches!(self.screen, Screen::Main) {
            self.dirty = true;
        }
    }

    /// Handle a button event by changing the screen state and (where
    /// appropriate) the settings. Returns `true` if the display should be
    /// redrawn.
    pub fn on_button(&mut self, ev: ButtonEvent, config: &mut KeyerConfig) -> (redraw: bool)
        ensures
            final(self)@ == old(self)@.pressed(ev),
            *final(config) == config_pressed(old(self)@, *old(config), ev),
            redraw == final(self)@.dirty,
            final(self)@.wf(),
    {
        proof {
            use_type_invariant(&*self);
        }
        match self.screen {
            Screen::Main => match ev {
                ButtonEvent::Okay => {
                    self.screen = Screen::Menu { selected: 0 };
                    self.dirty = true;
                },
                ButtonEvent::Up | ButtonEvent::Down => {
                    // Quick speed adjustment, in the same direction sense as
                    // inside the menu.
                    adjust(config, MenuItem::Wpm, ev == ButtonEvent::Up);
                    self.dirty = true;
                    self.config_changed = true;
                },
                ButtonEvent::Back => {},
            },
            Screen::Menu { selected } => match ev {
                ButtonEvent::Up => {
                    self.screen = Screen::Menu { selected: (selected + MENU_LEN - 1) % MENU_LEN };
                    self.dirty = true;
                },
                ButtonEvent::Down => {
                    self.screen = Screen::Menu { selected: (selected + 1) % MENU_LEN };
                    self.dirty = true;
                },
                ButtonEvent::Okay => {
                    let item = MenuItem::ALL[selected as usize];
                    if item.cycles_on_ok() {
                        adjust(config, item, true);
                        self.config_changed = true;
                    } else {
                        self.screen = Screen::Edit { selected };
                    }
                    self.dirty = true;
                },
                ButtonEvent::Back => {
                    self.screen = Screen::Main;
                    self.dirty = true;
                },
            },
            Screen::Edit { selected } => match ev {
                ButtonEvent::Up => {
                    adjust(config, MenuItem::ALL[selected as usize], true);
                    self.dirty = true;
                    self.config_changed = true;
                },
                ButtonEvent::Down => {
                    adjust(config, MenuItem::ALL[selected as usize], false);
                    self.dirty = true;
                    self.config_changed = true;
                },
                ButtonEvent::Okay | ButtonEvent::Back => {
                    self.screen = Screen::Menu { selected };
                    self.dirty = true;
                },
            },
        }
        self.dirty
    }

    /// The setting that a button press would step, and whether upwards.
    pub fn steps_setting(&self, ev: ButtonEvent) -> (steps: Option<(MenuItem, bool)>)
        ensures
            steps == self@.steps(ev),
    {
        proof {
            use_type_invariant(self);
        }
        match self.screen {
            Screen::Main => match ev {
                ButtonEvent::Up => Some((MenuItem::Wpm, true)),
                ButtonEvent::Down => Some((MenuItem::Wpm, false)),
                ButtonEvent::Okay | ButtonEvent::Back => None,
            },
            Screen::Menu { selected } => {
                let item = MenuItem::ALL[selected as usize];
                if ev == ButtonEvent::Okay && item.cycles_on_ok() {
                    Some((item, true))
                } else {
                    None
                }
            },
            Screen::Edit { selected } => match ev {
                ButtonEvent::Up => Some((MenuItem::ALL[selected as usize], true)),
                ButtonEvent::Down => Some((MenuItem::ALL[selected as usize], false)),
                ButtonEvent::Okay | ButtonEvent::Back => None,
            },
        }
    }

    /// Returns `true` once per edit batch (then clears).
    pub fn take_config_changed(&mut self) -> (changed: bool)
        ensures
            changed == old(self)@.config_changed,
            final(self)@ == (UiView { config_changed: false, ..old(self)@ }),
            final(self)@ == old(self)@.reported(),
            final(self)@.wf(),
    {
        proof {
            use_type_invariant(&*self);
        }
        let v = self.config_changed;
        self.config_changed = false;
        v
    }

    /// True iff the next `render` call has work to do.
    pub fn is_dirty(&self) -> (dirty: bool)
        ensures
            dirty == self@.dirty,
    {
        self.dirty
    }

    /// Update the key indicator; only the main screen shows it.
    pub fn note_key_state(&mut self, keyed: bool)
        ensures
            final(self)@ == old(self)@.key_noted(keyed),
            final(self)@.wf(),
    {
        proof {
            use_type_invariant(&*self);
        }
        if keyed != self.last_key_indicator {
            self.last_key_indicator = keyed;
            if matches!(self.screen, Screen::Main) {
                self.dirty = true;
            }
        }
    }

    /// Redraw if state changed since the previous frame: the rows to draw on
    /// a cleared display, or `None` when it already shows the current state.
    pub fn render(&mut self, config: &KeyerConfig) -> (rows: Option<Vec<TextRow>>)
        ensures
            final(self)@ == (UiView { dirty: false, ..old(self)@ }),
            final(self)@ == old(self)@.drawn(),
            final(self)@.wf(),
            rows is Some <==> old(self)@.dirty,
            rows matches Some(r) ==> crate::screens::rows_view(r@) == frame(
                old(self)@,
                *config,
            ),
    {
        proof {
            use_type_invariant(&*self);
        }
        if !self.dirty {
            return None;
        }
        self.dirty = false;
        let rows = match self.screen {
            Screen::Main => draw_main(
                config,
                self.last_key_indicator,
                decoded_slice(&self.decoded),
            ),
            Screen::Menu { selected } => draw_menu(config, selected, false),
            Screen::Edit { selected } => draw_menu(config, selected, true),
        };
        Some(rows)
    }
}

/// Whether two byte strings are the same.
fn bytes_equal(a: &[u8], b: &[u8]) -> (equal: bool)
    ensures
        equal == (a@ == b@),
{
    if a.len() != b.len() {
        return false;
    }
    let mut i: usize = 0;
    while i < a.len()
        invariant
            i <= a.len(),
            a@.len() == b@.len(),
            forall|k: int| 0 <= k < i ==> a@[k] == b@[k],
        decreases a.len() - i,
    {
        if a[i] != b[i] {
            return false;
        }
        i = i + 1;
    }
    assert(a@ =~= b@);
    true
}

/// Apply a single increment or decrement step to the indicated setting.
pub fn adjust(cfg: &mut KeyerConfig, item: MenuItem, up: bool)
    ensures
        *final(cfg) == adjusted(*old(cfg), item, up),
    no_unwind
{
    match item {
        MenuItem::Mode => {
            cfg.mode = next_mode(cfg.mode, up);
        },
        MenuItem::Wpm => {
            cfg.speed_wpm = step_u8(cfg.speed_wpm, 1, 5, 60, up);
        },
        MenuItem::Weight => {
            cfg.weight = step_u8(cfg.weight, 1, 25, 75, up);
        },
        MenuItem::SidetoneFreq => {
            cfg.sidetone_freq = step_u32(cfg.sidetone_freq, 25, 300, 1200, up);
        },
        MenuItem::SidetoneVolume => {
            cfg.sidetone_volume_pct = step_percent(cfg.sidetone_volume_pct, up);
        },
        MenuItem::HangTimeMs => {
            cfg.hang_time_ms = step_u32(cfg.hang_time_ms, 50, 0, 2000, up);
        },
        MenuItem::KeysReversed => {
            cfg.keys_reversed = !cfg.keys_reversed;
        },
        MenuItem::IambicBPercent => {
            cfg.iambic_b_timing_percent = step_u8(cfg.iambic_b_timing_percent, 5, 0, 100, up);
        },
        MenuItem::FarnsworthWpm => {
            cfg.farnsworth_wpm = step_u8(cfg.farnsworth_wpm, 1, 0, 60, up);
        },
        MenuItem::KeyingCompMs => {
            cfg.keying_compensation_ms = step_u8(cfg.keying_compensation_ms, 1, 0, 50, up);
        },
        MenuItem::UsbEmit => {
            // Only two values exist, so both directions flip.
            cfg.usb_emit_style = match cfg.usb_emit_style {
                UsbEmitStyle::Paddle => UsbEmitStyle::Keyed,
                UsbEmitStyle::Keyed => UsbEmitStyle::Paddle,
            };
        },
        MenuItem::Decoder => {
            cfg.decoder_enabled = !cfg.decoder_enabled;
        },
    }
}

/// The neighbour of a mode in the cycle.
pub fn next_mode(m: KeyerMode, up: bool) -> (next: KeyerMode)
    ensures
        next == stepped_mode(m, up),
    no_unwind
{
    let order: [KeyerMode; 6] = [
        KeyerMode::Straight,
        KeyerMode::IambicA,
        KeyerMode::IambicB,
        KeyerMode::Bug,
        KeyerMode::Ultimatic,
        KeyerMode::SinglePaddle,
    ];
    let idx: usize = match m {
        KeyerMode::Straight => 0,
        KeyerMode::IambicA => 1,
        KeyerMode::IambicB => 2,
        KeyerMode::Bug => 3,
        KeyerMode::Ultimatic => 4,
        KeyerMode::SinglePaddle => 5,
    };
    let next: usize = if up { (idx + 1) % 6 } else { (idx + 6 - 1) % 6 };
    order[next]
}

/// One step of a small setting.
pub fn step_u8(v: u8, step: u8, lo: u8, hi: u8, up: bool) -> (next: u8)
    ensures
        next == stepped(v as int, step as int, lo as int, hi as int, up),
    no_unwind
{
    if up {
        if v <= hi && hi - v >= step {
            v + step
        } else {
            hi
        }
    } else {
        if v >= lo && v - lo >= step {
            v - step
        } else {
            lo
        }
    }
}

/// One step of a large setting.
pub fn step_u32(v: u32, step: u32, lo: u32, hi: u32, up: bool) -> (next: u32)
    ensures
        next == stepped(v as int, step as int, lo as int, hi as int, up),
    no_unwind
{
    if up {
        if v <= hi && hi - v >= step {
            v + step
        } else {
            hi
        }
    } else {
        if v >= lo && v - lo >= step {
            v - step
        } else {
            lo
        }
    }
}

/// One step of the volume.
pub fn step_percent(pct: i64, up: bool) -> (next: i64)
    ensures
        next == stepped_percent(pct as int, up),
    no_unwind
{
    if up {
        if pct >= 95 {
            100
        } else if pct < -5 {
            0
        } else {
            pct + 5
        }
    } else {
        if pct > 105 {
            100
        } else if pct <= 5 {
            0
        } else {
            pct - 5
        }
    }
}

/// A button press keeps the UI well formed.
pub proof fn lemma_pressed_wf(u: UiView, ev: ButtonEvent)
    requires
        u.wf(),
    ensures
        u.pressed(ev).wf(),
{
}

/// A run of presses of the same button.
pub open spec fn pressed_times(u: UiView, ev: ButtonEvent, n: nat) -> UiView
    decreases n,
{
    if n == 0 {
        u
    } else {
        pressed_times(u, ev, (n - 1) as nat).pressed(ev)
    }
}

/// The value of a setting is one that the menu can reach.
pub open spec fn item_in_range(cfg: KeyerConfig, item: MenuItem) -> bool {
    match item {
        MenuItem::Wpm => 5 <= cfg.speed_wpm <= 60,
        MenuItem::Weight => 25 <= cfg.weight <= 75,
        MenuItem::SidetoneFreq => 300 <= cfg.sidetone_freq <= 1200,
        MenuItem::SidetoneVolume => 0 <= cfg.sidetone_volume_pct <= 100,
        MenuItem::HangTimeMs => cfg.hang_time_ms <= 2000,
        MenuItem::IambicBPercent => cfg.iambic_b_timing_percent <= 100,
        MenuItem::FarnsworthWpm => cfg.farnsworth_wpm <= 60,
        MenuItem::KeyingCompMs => cfg.keying_compensation_ms <= 50,
        _ => true,
    }
}

/// There is a full step of room in the given direction. Values that cycle
/// always have room.
pub open spec fn has_room(cfg: KeyerConfig, item: MenuItem, up: bool) -> bool {
    match item {
        MenuItem::Wpm => if up { cfg.speed_wpm + 1 <= 60 } else { cfg.speed_wpm - 1 >= 5 },
        MenuItem::Weight => if up { cfg.weight + 1 <= 75 } else { cfg.weight - 1 >= 25 },
        MenuItem::SidetoneFreq => if up {
            cfg.sidetone_freq + 25 <= 1200
        } else {
            cfg.sidetone_freq - 25 >= 300
        },
        MenuItem::SidetoneVolume => if up {
            cfg.sidetone_volume_pct + 5 <= 100
        } else {
            cfg.sidetone_volume_pct - 5 >= 0
        },
        MenuItem::HangTimeMs => if up {
            cfg.hang_time_ms + 50 <= 2000
        } else {
            cfg.hang_time_ms - 50 >= 0
        },
        MenuItem::IambicBPercent => if up {
            cfg.iambic_b_timing_percent + 5 <= 100
        } else {
            cfg.iambic_b_timing_percent - 5 >= 0
        },
        MenuItem::FarnsworthWpm => if up {
            cfg.farnsworth_wpm + 1 <= 60
        } else {
            cfg.farnsworth_wpm - 1 >= 0
        },
        MenuItem::KeyingCompMs => if up {
            cfg.keying_compensation_ms + 1 <= 50
        } else {
            cfg.keying_compensation_ms - 1 >= 0
        },
        _ => true,
    }
}

/// A button press never takes a setting out of range.
pub proof fn law_settings_stay_in_range(
    u: UiView,
    cfg: KeyerConfig,
    ev: ButtonEvent,
    item: MenuItem,
)
    requires
        item_in_range(cfg, item),
    ensures
        item_in_range(config_pressed(u, cfg, ev), item),
{
}

/// One step and one step back leave the settings as they were, as long as
/// the first step was not cut short at a bound. The other settings do not
/// matter, and items that cycle can always be stepped back.
pub proof fn law_step_back_undoes_step(cfg: KeyerConfig, item: MenuItem, up: bool)
    requires
        item_in_range(cfg, item),
        has_room(cfg, item, up),
    ensures
        adjusted(adjusted(cfg, item, up), item, !up) == cfg,
{
}

/// Items with short lists of values come back to where they were: the modes
/// after six steps, the others after two.
pub proof fn law_short_lists_cycle(cfg: KeyerConfig, up: bool)
    ensures
        stepped_mode(
            stepped_mode(
                stepped_mode(
                    stepped_mode(stepped_mode(stepped_mode(cfg.mode, up), up), up),
                    up,
                ),
                up,
            ),
            up,
        ) == cfg.mode,
        adjusted(adjusted(cfg, MenuItem::KeysReversed, up), MenuItem::KeysReversed, up) == cfg,
        adjusted(adjusted(cfg, MenuItem::UsbEmit, up), MenuItem::UsbEmit, up) == cfg,
        adjusted(adjusted(cfg, MenuItem::Decoder, up), MenuItem::Decoder, up) == cfg,
{
}

/// The settings change only by a press that flags the edit, and every press
/// that steps a setting flags it, so that no edit misses being saved.
pub proof fn law_edits_are_flagged(u: UiView, cfg: KeyerConfig, ev: ButtonEvent)
    ensures
        config_pressed(u, cfg, ev) != cfg ==> u.pressed(ev).config_changed,
        u.steps(ev) is Some ==> u.pressed(ev).config_changed,
        u.steps(ev) is None ==> u.pressed(ev).config_changed == u.config_changed
            && config_pressed(u, cfg, ev) == cfg,
{
}

/// The cursor moves through the menu in a circle: `n` presses of DOWN move it
/// `n` items on, so every item is reached, and UP takes one DOWN back.
pub proof fn law_menu_is_a_circle(u: UiView, selected: u8, n: nat)
    requires
        u.wf(),
        u.screen == (Screen::Menu { selected }),
    ensures
        pressed_times(u, ButtonEvent::Down, n).screen == (Screen::Menu {
            selected: ((selected + n) % MENU_LEN as int) as u8,
        }),
        pressed_times(u, ButtonEvent::Down, n).pressed(ButtonEvent::Down).pressed(
            ButtonEvent::Up,
        ).screen == pressed_times(u, ButtonEvent::Down, n).screen,
    decreases n,
{
    if n > 0 {
        let m = (n - 1) as nat;
        law_menu_is_a_circle(u, selected, m);
        let at = ((selected + m) % 12) as u8;
        lemma_menu_step(pressed_times(u, ButtonEvent::Down, m), at);
    }
    let at = ((selected + n) % 12) as u8;
    lemma_menu_step(pressed_times(u, ButtonEvent::Down, n), at);
    let next: u8 = if at == 11 { 0 } else { (at + 1) as u8 };
    lemma_menu_step(pressed_times(u, ButtonEvent::Down, n).pressed(ButtonEvent::Down), next);
}

/// One press of UP or DOWN in the menu.
proof fn lemma_menu_step(u: UiView, at: u8)
    requires
        at < 12,
        u.screen == (Screen::Menu { selected: at }),
    ensures
        u.pressed(ButtonEvent::Down).screen == (Screen::Menu {
            selected: if at == 11 { 0 } else { (at + 1) as u8 },
        }),
        u.pressed(ButtonEvent::Up).screen == (Screen::Menu {
            selected: if at == 0 { 11 } else { (at - 1) as u8 },
        }),
{
}

/// OK either steps a short list in place or opens the edit screen, and from
/// there BACK returns to the same place in the menu. BACK in the menu leads to
/// the main screen.
pub proof fn law_back_leads_out(u: UiView, selected: u8)
    requires
        u.wf(),
        u.screen == (Screen::Menu { selected }),
    ensures
        u.pressed(ButtonEvent::Okay).screen is Edit ==> u.pressed(ButtonEvent::Okay).pressed(
            ButtonEvent::Back,
        ).screen == u.screen,
        u.pressed(ButtonEvent::Okay).screen is Edit || u.pressed(ButtonEvent::Okay).screen
            == u.screen,
        u.pressed(ButtonEvent::Back).screen is Main,
{
}

/// Two presses of BACK lead to the main screen from anywhere, and edit
/// nothing on the way.
pub proof fn law_two_backs_reach_main(u: UiView, cfg: KeyerConfig)
    ensures
        u.pressed(ButtonEvent::Back).pressed(ButtonEvent::Back).screen is Main,
        config_pressed(u, cfg, ButtonEvent::Back) == cfg,
        config_pressed(u.pressed(ButtonEvent::Back), cfg, ButtonEvent::Back) == cfg,
{
}

/// What the screen shows changes only together with the dirty flag: a display
/// that was drawn from the state before still shows the state after whenever
/// the flag stays down.
pub proof fn law_clean_screen_is_current(
    u: UiView,
    cfg: KeyerConfig,
    ev: ButtonEvent,
    keyed: bool,
    text: Seq<u8>,
)
    ensures
        !u.pressed(ev).dirty ==> frame(u.pressed(ev), config_pressed(u, cfg, ev)) == frame(u, cfg),
        !u.key_noted(keyed).dirty ==> frame(u.key_noted(keyed), cfg) == frame(u, cfg),
        !u.decoded_noted(text).dirty ==> frame(u.decoded_noted(text), cfg) == frame(u, cfg),
{
}

/// The key indicator and the decoded text never cause a redraw of the menu,
/// and repeating what is already known never causes one at all.
pub proof fn law_notes_redraw_only_when_shown(u: UiView, keyed: bool, text: Seq<u8>)
    ensures
        !(u.screen is Main) ==> u.key_noted(keyed).dirty == u.dirty && u.decoded_noted(text).dirty
            == u.dirty,
        u.key_noted(u.last_key_indicator) == u,
        u.decoded_noted(u.decoded) == u,
{
}

/// A step of an item with two values gives the other value, in that very
/// field and in no other.
pub proof fn law_two_valued_items_flip(cfg: KeyerConfig, up: bool)
    ensures
        ({
            let a = adjusted(cfg, MenuItem::KeysReversed, up);
            a.keys_reversed != cfg.keys_reversed && a == (KeyerConfig {
                keys_reversed: a.keys_reversed,
                ..cfg
            })
        }),
        ({
            let a = adjusted(cfg, MenuItem::UsbEmit, up);
            a.usb_emit_style != cfg.usb_emit_style && a == (KeyerConfig {
                usb_emit_style: a.usb_emit_style,
                ..cfg
            })
        }),
        ({
            let a = adjusted(cfg, MenuItem::Decoder, up);
            a.decoder_enabled != cfg.decoder_enabled && a == (KeyerConfig {
                decoder_enabled: a.decoder_enabled,
                ..cfg
            })
        }),
{
}

/// `next` is a whole step from `v` in the given direction, or the bound in
/// that direction if a whole step would go beyond it.
pub open spec fn is_step(v: int, next: int, step: int, lo: int, hi: int, up: bool) -> bool {
    if up {
        next <= hi && next <= v + step && (next == hi || next == v + step)
    } else {
        next >= lo && next >= v - step && (next == lo || next == v - step)
    }
}

/// Whatever the value, the step size and the bounds, a step is a whole step or
/// ends at the bound.
pub proof fn law_step_ends_at_the_bound(v: int, step: int, lo: int, hi: int, up: bool)
    ensures
        is_step(v, stepped(v, step, lo, hi, up), step, lo, hi, up),
{
}

/// A step of a ranged item moves that item's own field, by the item's step
/// size, in the direction of the button, and no further than the item's bound;
/// no other field changes. This holds of any value that the settings may have.
pub proof fn law_ranged_items_step(cfg: KeyerConfig, up: bool)
    ensures
        ({
            let a = adjusted(cfg, MenuItem::Wpm, up);
            is_step(cfg.speed_wpm as int, a.speed_wpm as int, 1, 5, 60, up) && a == (KeyerConfig {
                speed_wpm: a.speed_wpm,
                ..cfg
            })
        }),
        ({
            let a = adjusted(cfg, MenuItem::Weight, up);
            is_step(cfg.weight as int, a.weight as int, 1, 25, 75, up) && a == (KeyerConfig {
                weight: a.weight,
                ..cfg
            })
        }),
        ({
            let a = adjusted(cfg, MenuItem::SidetoneFreq, up);
            is_step(cfg.sidetone_freq as int, a.sidetone_freq as int, 25, 300, 1200, up) && a == (
            KeyerConfig { sidetone_freq: a.sidetone_freq, ..cfg })
        }),
        ({
            let a = adjusted(cfg, MenuItem::HangTimeMs, up);
            is_step(cfg.hang_time_ms as int, a.hang_time_ms as int, 50, 0, 2000, up) && a == (
            KeyerConfig { hang_time_ms: a.hang_time_ms, ..cfg })
        }),
        ({
            let a = adjusted(cfg, MenuItem::IambicBPercent, up);
            is_step(
                cfg.iambic_b_timing_percent as int,
                a.iambic_b_timing_percent as int,
                5,
                0,
                100,
                up,
            ) && a == (KeyerConfig { iambic_b_timing_percent: a.iambic_b_timing_percent, ..cfg })
        }),
        ({
            let a = adjusted(cfg, MenuItem::FarnsworthWpm, up);
            is_step(cfg.farnsworth_wpm as int, a.farnsworth_wpm as int, 1, 0, 60, up) && a == (
            KeyerConfig { farnsworth_wpm: a.farnsworth_wpm, ..cfg })
        }),
        ({
            let a = adjusted(cfg, MenuItem::KeyingCompMs, up);
            is_step(
                cfg.keying_compensation_ms as int,
                a.keying_compensation_ms as int,
                1,
                0,
                50,
                up,
            ) && a == (KeyerConfig { keying_compensation_ms: a.keying_compensation_ms, ..cfg })
        }),
{
}

/// A step of the volume moves it by five percent in the direction of the
/// button, and leaves it between zero and a hundred from wherever it was; no
/// other field changes.
pub proof fn law_volume_steps(cfg: KeyerConfig, up: bool)
    ensures
        ({
            let a = adjusted(cfg, MenuItem::SidetoneVolume, up);
            let v = cfg.sidetone_volume_pct as int;
            let goal = if up { v + 5 } else { v - 5 };
            &&& 0 <= a.sidetone_volume_pct <= 100
            &&& 0 <= goal <= 100 ==> a.sidetone_volume_pct == goal
            &&& goal < 0 ==> a.sidetone_volume_pct == 0
            &&& goal > 100 ==> a.sidetone_volume_pct == 100
            &&& a == (KeyerConfig { sidetone_volume_pct: a.sidetone_volume_pct, ..cfg })
        }),
{
}

/// The modes follow one another in the order straight, iambic A, iambic B,
/// bug, Ultimatic, single paddle and round again; down is the way back, and no
/// other field changes.
pub proof fn law_modes_follow_in_order(cfg: KeyerConfig, up: bool)
    ensures
        ({
            let a = adjusted(cfg, MenuItem::Mode, up);
            let (from, to) = if up { (cfg.mode, a.mode) } else { (a.mode, cfg.mode) };
            &&& from == KeyerMode::Straight <==> to == KeyerMode::IambicA
            &&& from == KeyerMode::IambicA <==> to == KeyerMode::IambicB
            &&& from == KeyerMode::IambicB <==> to == KeyerMode::Bug
            &&& from == KeyerMode::Bug <==> to == KeyerMode::Ultimatic
            &&& from == KeyerMode::Ultimatic <==> to == KeyerMode::SinglePaddle
            &&& from == KeyerMode::SinglePaddle <==> to == KeyerMode::Straight
            &&& a == (KeyerConfig { mode: a.mode, ..cfg })
        }),
{
}

/// The menu has each setting once, in this order. OK steps the mode, the
/// reversal, the USB style and the decoder switch in place, and opens the edit
/// screen for all others.
pub proof fn law_menu_order(i: int)
    requires
        0 <= i < MENU_LEN,
    ensures
        MENU_LEN == 12,
        MenuItem::ALL@.len() == 12,
        i == 0 <==> MenuItem::ALL@[i] == MenuItem::Mode,
        i == 1 <==> MenuItem::ALL@[i] == MenuItem::Wpm,
        i == 2 <==> MenuItem::ALL@[i] == MenuItem::Weight,
        i == 3 <==> MenuItem::ALL@[i] == MenuItem::SidetoneFreq,
        i == 4 <==> MenuItem::ALL@[i] == MenuItem::SidetoneVolume,
        i == 5 <==> MenuItem::ALL@[i] == MenuItem::HangTimeMs,
        i == 6 <==> MenuItem::ALL@[i] == MenuItem::KeysReversed,
        i == 7 <==> MenuItem::ALL@[i] == MenuItem::IambicBPercent,
        i == 8 <==> MenuItem::ALL@[i] == MenuItem::FarnsworthWpm,
        i == 9 <==> MenuItem::ALL@[i] == MenuItem::KeyingCompMs,
        i == 10 <==> MenuItem::ALL@[i] == MenuItem::UsbEmit,
        i == 11 <==> MenuItem::ALL@[i] == MenuItem::Decoder,
        MenuItem::ALL@[i].cycles() <==> i == 0 || i == 6 || i == 10 || i == 11,
{
}

/// On the main screen UP and DOWN step the speed by one and stay, OK opens the
/// menu at its first item, and BACK does nothing at all.
pub proof fn law_main_screen_buttons(u: UiView, cfg: KeyerConfig)
    requires
        u.screen is Main,
    ensures
        u.pressed(ButtonEvent::Up).screen is Main,
        u.pressed(ButtonEvent::Down).screen is Main,
        ({
            let a = config_pressed(u, cfg, ButtonEvent::Up);
            is_step(cfg.speed_wpm as int, a.speed_wpm as int, 1, 5, 60, true) && a == (
            KeyerConfig { speed_wpm: a.speed_wpm, ..cfg })
        }),
        ({
            let a = config_pressed(u, cfg, ButtonEvent::Down);
            is_step(cfg.speed_wpm as int, a.speed_wpm as int, 1, 5, 60, false) && a == (
            KeyerConfig { speed_wpm: a.speed_wpm, ..cfg })
        }),
        u.pressed(ButtonEvent::Okay).screen == (Screen::Menu { selected: 0 }),
        config_pressed(u, cfg, ButtonEvent::Okay) == cfg,
        u.pressed(ButtonEvent::Back) == u,
        config_pressed(u, cfg, ButtonEvent::Back) == cfg,
{
}

/// In the menu UP, DOWN and BACK edit nothing. OK steps the item under the
/// cursor upwards if it cycles and stays there, and otherwise opens the edit
/// screen of that very item and edits nothing.
pub proof fn law_menu_buttons(u: UiView, cfg: KeyerConfig, selected: u8)
    requires
        u.wf(),
        u.screen == (Screen::Menu { selected }),
    ensures
        config_pressed(u, cfg, ButtonEvent::Up) == cfg,
        config_pressed(u, cfg, ButtonEvent::Down) == cfg,
        config_pressed(u, cfg, ButtonEvent::Back) == cfg,
        ({
            let item = MenuItem::ALL@[selected as int];
            if item == MenuItem::Mode || item == MenuItem::KeysReversed || item
                == MenuItem::UsbEmit || item == MenuItem::Decoder {
                u.pressed(ButtonEvent::Okay).screen == u.screen && config_pressed(
                    u,
                    cfg,
                    ButtonEvent::Okay,
                ) == adjusted(cfg, item, true)
            } else {
                u.pressed(ButtonEvent::Okay).screen == (Screen::Edit { selected })
                    && config_pressed(u, cfg, ButtonEvent::Okay) == cfg
            }
        }),
{
}

/// On the edit screen UP and DOWN step the item that is edited, in their
/// direction, and stay; OK and BACK return to that item in the menu and edit
/// nothing.
pub proof fn law_edit_screen_buttons(u: UiView, cfg: KeyerConfig, selected: u8)
    requires
        u.wf(),
        u.screen == (Screen::Edit { selected }),
    ensures
        u.pressed(ButtonEvent::Up).screen == u.screen,
        u.pressed(ButtonEvent::Down).screen == u.screen,
        config_pressed(u, cfg, ButtonEvent::Up) == adjusted(
            cfg,
            MenuItem::ALL@[selected as int],
            true,
        ),
        config_pressed(u, cfg, ButtonEvent::Down) == adjusted(
            cfg,
            MenuItem::ALL@[selected as int],
            false,
        ),
        u.pressed(ButtonEvent::Okay).screen == (Screen::Menu { selected }),
        u.pressed(ButtonEvent::Back).screen == (Screen::Menu { selected }),
        config_pressed(u, cfg, ButtonEvent::Okay) == cfg,
        config_pressed(u, cfg, ButtonEvent::Back) == cfg,
{
}

/// Every setting can be edited from the main screen: OK, then DOWN once per
/// item above it, then OK, steps an item that cycles, or opens the edit screen
/// where UP and DOWN step it.
pub proof fn law_every_setting_can_be_edited(u: UiView, cfg: KeyerConfig, i: int)
    requires
        u.wf(),
        u.screen is Main,
        0 <= i < MENU_LEN,
    ensures
        ({
            let at = pressed_times(u.pressed(ButtonEvent::Okay), ButtonEvent::Down, i as nat);
            let open = at.pressed(ButtonEvent::Okay);
            let item = MenuItem::ALL@[i];
            if item.cycles() {
                config_pressed(at, cfg, ButtonEvent::Okay) == adjusted(cfg, item, true)
            } else {
                config_pressed(open, cfg, ButtonEvent::Up) == adjusted(cfg, item, true)
                    && config_pressed(open, cfg, ButtonEvent::Down) == adjusted(cfg, item, false)
            }
        }),
{
    let menu = u.pressed(ButtonEvent::Okay);
    law_menu_is_a_circle(menu, 0, i as nat);
    let at = pressed_times(menu, ButtonEvent::Down, i as nat);
    assert(i % 12 == i);
    assert(at.screen == (Screen::Menu { selected: i as u8 }));
}

/// Every press but BACK on the main screen is followed by a redraw, and no
/// press touches the key indicator or the decoded text.
pub proof fn law_presses_redraw(u: UiView, ev: ButtonEvent)
    ensures
        !(u.screen is Main && ev == ButtonEvent::Back) ==> u.pressed(ev).dirty,
        u.dirty ==> u.pressed(ev).dirty,
        u.config_changed ==> u.pressed(ev).config_changed,
        u.pressed(ev).last_key_indicator == u.last_key_indicator,
        u.pressed(ev).decoded == u.decoded,
{
}

/// What is noted is remembered: the key indicator is the keyed line as last
/// noted, and the decoded text is the text as last noted, up to its first 32
/// bytes. A note that changes what the main screen shows is drawn, and notes
/// touch nothing else.
pub proof fn law_notes_are_remembered(u: UiView, keyed: bool, text: Seq<u8>)
    requires
        u.wf(),
    ensures
        u.key_noted(keyed).last_key_indicator == keyed,
        u.screen is Main && keyed != u.last_key_indicator ==> u.key_noted(keyed).dirty,
        u.key_noted(keyed).screen == u.screen,
        u.key_noted(keyed).config_changed == u.config_changed,
        u.key_noted(keyed).decoded == u.decoded,
        u.dirty ==> u.key_noted(keyed).dirty && u.decoded_noted(text).dirty,
        text.len() <= 32 ==> u.decoded_noted(text).decoded == text,
        text.len() > 32 ==> u.decoded_noted(text).decoded.len() == 32,
        forall|i: int|
            0 <= i < text.len() && i < 32 ==> #[trigger] u.decoded_noted(text).decoded[i]
                == text[i],
        u.screen is Main && text != u.decoded ==> u.decoded_noted(text).dirty,
        u.decoded_noted(text).screen == u.screen,
        u.decoded_noted(text).config_changed == u.config_changed,
        u.decoded_noted(text).last_key_indicator == u.last_key_indicator,
{
}

/// The UI starts on the main screen, to be painted, with the key up, no
/// decoded text and nothing edited.
pub proof fn law_ui_at_boot()
    ensures
        UiView::initial().screen is Main,
        UiView::initial().dirty,
        !UiView::initial().config_changed,
        !UiView::initial().last_key_indicator,
        UiView::initial().decoded.len() == 0,
{
}

/// What is drawn is the screen that the UI is on: the main screen with the key
/// indicator, the settings and the decoded text, or the menu around the cursor
/// with the cursor's line marked, by an asterisk while it is edited.
pub proof fn law_frame_is_the_current_screen(u: UiView, cfg: KeyerConfig, row: int)
    requires
        u.wf(),
        0 <= row < 5,
    ensures
        u.screen is Main ==> {
            &&& frame(u, cfg).len() == (if cfg.decoder_enabled && u.decoded.len() > 0 {
                4int
            } else {
                3
            })
            &&& frame(u, cfg)[0].text == (if u.last_key_indicator {
                "CW Keyer    *"@
            } else {
                "CW Keyer"@
            })
            &&& cfg.decoder_enabled && u.decoded.len() > 0 ==> frame(u, cfg)[3].text
                == crate::screens::fitted(crate::screens::visible(u.decoded), 21)
        },
        u.screen matches Screen::Menu { selected } ==> {
            &&& frame(u, cfg).len() == 5
            &&& frame(u, cfg)[row].text[0] == (if crate::screens::viewport_start(selected as int)
                + row == selected {
                '>'
            } else {
                ' '
            })
            &&& frame(u, cfg)[row].text.skip(10) == crate::screens::value_text(
                cfg,
                MenuItem::ALL@[crate::screens::viewport_start(selected as int) + row],
            )
        },
        u.screen matches Screen::Edit { selected } ==> {
            &&& frame(u, cfg).len() == 5
            &&& frame(u, cfg)[row].text[0] == (if crate::screens::viewport_start(selected as int)
                + row == selected {
                '*'
            } else {
                ' '
            })
            &&& frame(u, cfg)[row].text.skip(10) == crate::screens::value_text(
                cfg,
                MenuItem::ALL@[crate::screens::viewport_start(selected as int) + row],
            )
        },
{
    match u.screen {
        Screen::Main => {},
        Screen::Menu { selected } => {
            crate::screens::law_menu_row_content(cfg, selected as int, false, row);
        },
        Screen::Edit { selected } => {
            crate::screens::law_menu_row_content(cfg, selected as int, true, row);
        },
    }
}

/// Edits are reported once, and a drawing is made once: until the next press
/// or note there is nothing to report or to draw. Neither changes anything
/// else, least of all what the screen shows.
pub proof fn law_reports_and_drawings_settle(u: UiView, cfg: KeyerConfig)
    ensures
        !u.reported().config_changed,
        u.reported().dirty == u.dirty,
        !u.drawn().dirty,
        u.drawn().config_changed == u.config_changed,
        u.reported().screen == u.screen && u.drawn().screen == u.screen,
        u.reported().last_key_indicator == u.last_key_indicator,
        u.drawn().last_key_indicator == u.last_key_indicator,
        u.reported().decoded == u.decoded && u.drawn().decoded == u.decoded,
        frame(u.drawn(), cfg) == frame(u, cfg),
        frame(u.reported(), cfg) == frame(u, cfg),
{
}

} // verus!
