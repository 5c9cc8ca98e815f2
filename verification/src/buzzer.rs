//! PWM-driven passive piezo buzzer for sidetone.
//!
//! Drives the buzzer at the configured sidetone frequency with a square wave
//! of up to 50 % duty while keyed, and parks the duty at 0 % when idle so the
//! buzzer is silent.
//!
//! The frequency is set via the (divider, top) pair so a single PWM slice
//! covers the full sidetone range without straining the 16-bit counter at low
//! frequencies. Scaling the duty by the volume is left to the caller, as is
//! the PWM slice.

use vstd::prelude::*;

use fixed::types::extra::U4;
use fixed::FixedU16;

verus! {

/// The lowest frequency that is programmed.
pub const MIN_FREQ_HZ: u32 = 50;

/// Counter steps per period that the divider aims for.
pub const TARGET_STEPS: u32 = 4096;

/// The counter's top value after reset of the slice.
pub const RESET_TOP: u16 = 0xffff;

/// What the buzzer remembers.
pub struct BuzzerView {
    pub sys_clk_hz: int,
    /// The frequency that is programmed; zero before the first one.
    pub freq_hz: int,
    /// The carrier is being driven.
    pub keying: bool,
    /// The counter's top value that is programmed.
    pub top: int,
}

/// Programming of the PWM slice.
#[derive(Debug, Clone, Copy, PartialEq, Eq, Structural)]
pub struct Program {
    /// Clock divider, in sixteenths.
    pub divider_bits: u16,
    /// Counter top value.
    pub top: u16,
    /// Compare value at full volume: half the top value while keyed, else
    /// zero, which parks the pin low for the entire period.
    pub max_compare: u16,
    /// Reset the counter. If the top value shrinks below the live counter,
    /// the slice counts to the end of its range before it wraps, which can be
    /// tens of milliseconds of stuck output in the middle of an element.
    pub reset_counter: bool,
}

/// A value held inside bounds.
pub open spec fn clamped(v: int, lo: int, hi: int) -> int {
    if v < lo {
        lo
    } else if v > hi {
        hi
    } else {
        v
    }
}

/// The clock divider for a frequency: the slice clock comes near to
/// [`TARGET_STEPS`] per period.
pub open spec fn divider(sys_clk_hz: int, freq_hz: int) -> int {
    clamped(sys_clk_hz / clamped(freq_hz * TARGET_STEPS, 1, u32::MAX as int), 1, 255)
}

/// The slice clock for a frequency.
pub open spec fn slice_clk(sys_clk_hz: int, freq_hz: int) -> int {
    sys_clk_hz / divider(sys_clk_hz, freq_hz)
}

/// The counter top value for a frequency.
pub open spec fn top_for(sys_clk_hz: int, freq_hz: int) -> int {
    clamped(
        slice_clk(sys_clk_hz, freq_hz) / (if freq_hz < 1 { 1 } else { freq_hz }),
        2,
        u16::MAX as int,
    )
}

impl BuzzerView {
    /// A silent buzzer whose slice is as a reset leaves it.
    pub open spec fn initial(sys_clk_hz: u32) -> BuzzerView {
        BuzzerView {
            sys_clk_hz: sys_clk_hz as int,
            freq_hz: 0,
            keying: false,
            top: RESET_TOP as int,
        }
    }

    /// The programming for the current frequency and keying, when `before`
    /// was the top value so far.
    pub open spec fn program(self, before: int) -> Program {
        let top = top_for(self.sys_clk_hz, self.freq_hz);
        Program {
            divider_bits: (16 * divider(self.sys_clk_hz, self.freq_hz)) as u16,
            top: top as u16,
            max_compare: (if self.keying { top / 2 } else { 0 }) as u16,
            reset_counter: top < before,
        }
    }

    /// A request of the frequency has to be programmed: it differs from what
    /// is programmed, or the volume does.
    pub open spec fn needs_update(self, freq_hz: u32, volume_changed: bool) -> bool {
        effective_freq(freq_hz) != self.freq_hz || volume_changed
    }

    /// The buzzer after a request of the frequency.
    pub open spec fn updated(self, freq_hz: u32, volume_changed: bool) -> BuzzerView {
        if self.needs_update(freq_hz, volume_changed) {
            BuzzerView { freq_hz: effective_freq(freq_hz), ..self }.programmed()
        } else {
            self
        }
    }

    /// The programming that a request of the frequency asks for, if any.
    pub open spec fn update_program(self, freq_hz: u32, volume_changed: bool) -> Option<Program> {
        if self.needs_update(freq_hz, volume_changed) {
            Some(self.updated(freq_hz, volume_changed).program(self.top))
        } else {
            None
        }
    }

    /// The buzzer keyed or not.
    pub open spec fn keyed(self, on: bool) -> BuzzerView {
        if self.keying == on {
            self
        } else {
            BuzzerView { keying: on, ..self }.programmed()
        }
    }

    /// The programming that keying or unkeying asks for, if any.
    pub open spec fn key_program(self, on: bool) -> Option<Program> {
        if self.keying == on {
            None
        } else {
            Some(BuzzerView { keying: on, ..self }.program(self.top))
        }
    }

    /// The buzzer with its current settings programmed.
    pub open spec fn programmed(self) -> BuzzerView {
        BuzzerView { top: top_for(self.sys_clk_hz, self.freq_hz), ..self }
    }
}

/// The frequency that a request comes down to.
pub open spec fn effective_freq(freq_hz: u32) -> int {
    if freq_hz < MIN_FREQ_HZ {
        MIN_FREQ_HZ as int
    } else {
        freq_hz as int
    }
}

/// `fixed::FixedU16::<U4>::from_num` on a `u8`, as its bits: the number in
/// sixteenths. Every `u8` is representable.
#[verifier::external_body]
fn sixteenths(v: u8) -> (bits: u16)
    ensures
        bits == 16 * v,
{
    FixedU16::<U4>::from_num(v).to_bits()
}

/// The buzzer, up to the PWM slice and the volume.
pub struct Buzzer {
    sys_clk_hz: u32,
    current_freq_hz: u32,
    keying: bool,
    top: u16,
}

impl View for Buzzer {
    type V = BuzzerView;

    closed spec fn view(&self) -> BuzzerView {
        BuzzerView {
            sys_clk_hz: self.sys_clk_hz as int,
            freq_hz: self.current_freq_hz as int,
            keying: self.keying,
            top: self.top as int,
        }
    }
}

impl Buzzer {
    /// A silent buzzer whose slice has not been programmed yet, on the given
    /// system clock.
    pub fn new(sys_clk_hz: u32) -> (buzzer: Self)
        ensures
            buzzer@ == (BuzzerView {
                sys_clk_hz: sys_clk_hz as int,
                freq_hz: 0,
                keying: false,
                top: RESET_TOP as int,
            }),
            buzzer@ == BuzzerView::initial(sys_clk_hz),
    {
        Buzzer { sys_clk_hz, current_freq_hz: 0, keying: false, top: RESET_TOP }
    }

    /// Update the frequency if it differs from the current setting, or if the
    /// volume does. Cheap to call every keyer tick: the slice is only
    /// reprogrammed on actual change.
    pub fn update_settings(&mut self, freq_hz: u32, volume_changed: bool) -> (program: Option<
        Program,
    >)
        ensures
            final(self)@ == old(self)@.updated(freq_hz, volume_changed),
            program == (if old(self)@.needs_update(freq_hz, volume_changed) {
                Some(final(self)@.program(old(self)@.top))
            } else {
                None
            }),
            program == old(self)@.update_program(freq_hz, volume_changed),
    {
        let freq: u32 = if freq_hz < MIN_FREQ_HZ { MIN_FREQ_HZ } else { freq_hz };
        if freq == self.current_freq_hz && !volume_changed {
            return None;
        }
        self.current_freq_hz = freq;
        Some(self.program())
    }

    /// Gate the output: `true` engages the configured tone, `false` silences
    /// it.
    pub fn set_keyed(&mut self, on: bool) -> (program: Option<Program>)
        ensures
            ({
                let next = BuzzerView { keying: on, ..old(self)@ };
                if old(self)@.keying == on {
                    program is None && final(self)@ == old(self)@
                } else {
                    program == Some(next.program(old(self)@.top)) && final(self)@
                        == next.programmed()
                }
            }),
            program == old(self)@.key_program(on),
            final(self)@ == old(self)@.keyed(on),
    {
        if self.keying == on {
            return None;
        }
        self.keying = on;
        Some(self.program())
    }

    /// Programming for the current settings.
    fn program(&mut self) -> (program: Program)
        ensures
            program == old(self)@.program(old(self)@.top),
            final(self)@ == old(self)@.programmed(),
    {
        let wide: u64 = self.current_freq_hz as u64 * TARGET_STEPS as u64;
        let target: u32 = if wide < 1 {
            1
        } else if wide > 0xffff_ffff {
            0xffff_ffff
        } else {
            wide as u32
        };
        let ratio: u32 = self.sys_clk_hz / target;
        let div_int: u8 = if ratio < 1 {
            1
        } else if ratio > 255 {
            255
        } else {
            ratio as u8
        };
        let slice_clk: u32 = self.sys_clk_hz / div_int as u32;
        let freq: u32 = if self.current_freq_hz < 1 { 1 } else { self.current_freq_hz };
        let count: u32 = slice_clk / freq;
        let top: u16 = if count < 2 {
            2
        } else if count > 0xffff {
            0xffff
        } else {
            count as u16
        };
        assert(target == clamped(self@.freq_hz * TARGET_STEPS, 1, u32::MAX as int));
        assert(div_int == divider(self@.sys_clk_hz, self@.freq_hz));
        assert(top == top_for(self@.sys_clk_hz, self@.freq_hz));
        let max_compare: u16 = if self.keying { top / 2 } else { 0 };
        let reset_counter = top < self.top;
        self.top = top;
        Program { divider_bits: sixteenths(div_int), top, max_compare, reset_counter }
    }
}

/// A request is programmed once: the same request right after it, with the
/// volume as it was, does nothing. Requests below the lowest frequency are the
/// same as the lowest one, and no request changes whether the tone is keyed.
pub proof fn law_update_is_programmed_once(b: BuzzerView, freq_hz: u32, volume_changed: bool)
    ensures
        !b.updated(freq_hz, volume_changed).needs_update(freq_hz, false),
        b.updated(freq_hz, volume_changed).updated(freq_hz, false) == b.updated(
            freq_hz,
            volume_changed,
        ),
        freq_hz < MIN_FREQ_HZ ==> b.updated(freq_hz, volume_changed) == b.updated(
            MIN_FREQ_HZ,
            volume_changed,
        ),
        b.updated(freq_hz, volume_changed).keying == b.keying,
{
}

/// Not keyed means silent, and keyed means a duty of at most one half.
pub proof fn law_silent_unless_keyed(b: BuzzerView, before: int)
    requires
        0 <= b.sys_clk_hz,
        0 <= b.freq_hz,
    ensures
        !b.keying ==> b.program(before).max_compare == 0,
        b.keying ==> 1 <= b.program(before).max_compare,
        2 * b.program(before).max_compare <= b.program(before).top,
{
}

/// Keying on and off again leaves the slice silent and everything else as it
/// was, so that any later programming is what it would have been.
pub proof fn law_unkeying_restores(b: BuzzerView)
    requires
        !b.keying,
        b == b.programmed(),
    ensures
        ({
            let keyed = BuzzerView { keying: true, ..b }.programmed();
            let released = BuzzerView { keying: false, ..keyed }.programmed();
            released == b && !BuzzerView { keying: true, ..b }.program(b.top).reset_counter
        }),
{
}

/// The pitch is right to one step of the counter, both against the slice clock
/// and against the system clock itself, and the counter has between
/// 1000 and 50000 steps per period, for every frequency from the lowest one up
/// to a thousandth of the clock.
pub proof fn law_pitch_is_accurate(sys_clk_hz: int, freq_hz: int)
    requires
        MIN_FREQ_HZ <= freq_hz,
        freq_hz * 1000 <= sys_clk_hz <= 637_500_000,
    ensures
        ({
            let clk = slice_clk(sys_clk_hz, freq_hz);
            let top = top_for(sys_clk_hz, freq_hz);
            let div = divider(sys_clk_hz, freq_hz);
            &&& top * freq_hz <= clk < (top + 1) * freq_hz
            &&& div * (top * freq_hz) <= sys_clk_hz < div * ((top + 1) * freq_hz)
            &&& 1000 <= top <= 50_000
        }),
{
    let target = freq_hz * TARGET_STEPS;
    assert(target == freq_hz * 4096);
    let q = sys_clk_hz / target;
    let div = divider(sys_clk_hz, freq_hz);
    let clk = slice_clk(sys_clk_hz, freq_hz);
    let count = clk / freq_hz;
    vstd::arithmetic::div_mod::lemma_fundamental_div_mod(sys_clk_hz, target);
    vstd::arithmetic::div_mod::lemma_fundamental_div_mod(sys_clk_hz, div);
    vstd::arithmetic::div_mod::lemma_fundamental_div_mod(clk, freq_hz);
    vstd::arithmetic::div_mod::lemma_mod_bound(sys_clk_hz, target);
    vstd::arithmetic::div_mod::lemma_mod_bound(sys_clk_hz, div);
    vstd::arithmetic::div_mod::lemma_mod_bound(clk, freq_hz);
    assert(count * freq_hz <= clk < (count + 1) * freq_hz) by (nonlinear_arith)
        requires
            clk == freq_hz * count + clk % freq_hz,
            0 <= clk % freq_hz < freq_hz,
    ;
    assert(q * target <= sys_clk_hz < (q + 1) * target) by (nonlinear_arith)
        requires
            sys_clk_hz == target * q + sys_clk_hz % target,
            0 <= sys_clk_hz % target < target,
    ;
    assert(div * clk <= sys_clk_hz < div * (clk + 1)) by (nonlinear_arith)
        requires
            sys_clk_hz == div * clk + sys_clk_hz % div,
            0 <= sys_clk_hz % div < div,
    ;
    assert(1000 <= count <= 50_000) by {
        lemma_steps(sys_clk_hz, freq_hz, q, div, clk, count);
    }
    assert(div * (count * freq_hz) <= sys_clk_hz < div * ((count + 1) * freq_hz)) by (
        nonlinear_arith)
        requires
            1 <= div,
            div * clk <= sys_clk_hz < div * (clk + 1),
            count * freq_hz <= clk,
            clk + 1 <= (count + 1) * freq_hz,
    ;
}

/// Bounds of the counter, from what the divisions say of their quotients.
proof fn lemma_steps(sys: int, freq: int, q: int, div: int, clk: int, count: int)
    requires
        50 <= freq,
        freq * 1000 <= sys <= 637_500_000,
        q * (freq * 4096) <= sys < (q + 1) * (freq * 4096),
        div == clamped(q, 1, 255),
        div * clk <= sys < div * (clk + 1),
        count * freq <= clk < (count + 1) * freq,
    ensures
        1000 <= count <= 50_000,
{
    if q < 1 {
        assert(div == 1);
        assert(clk <= sys < clk + 1) by (nonlinear_arith)
            requires
                div == 1,
                div * clk <= sys < div * (clk + 1),
        ;
        assert(count < 4096) by (nonlinear_arith)
            requires
                q < 1,
                50 <= freq,
                sys < (q + 1) * (freq * 4096),
                clk <= sys,
                count * freq <= clk,
        ;
        assert(count >= 1000) by (nonlinear_arith)
            requires
                50 <= freq,
                freq * 1000 <= sys,
                sys < clk + 1,
                clk < (count + 1) * freq,
        ;
    } else {
        assert(div <= q);
        assert(clk + 1 > freq * 4096) by (nonlinear_arith)
            requires
                1 <= div <= q,
                50 <= freq,
                q * (freq * 4096) <= sys,
                sys < div * (clk + 1),
        ;
        assert(count >= 1000) by (nonlinear_arith)
            requires
                50 <= freq,
                clk + 1 > freq * 4096,
                clk < (count + 1) * freq,
        ;
        if q <= 255 {
            assert(clk < 2 * (freq * 4096)) by (nonlinear_arith)
                requires
                    1 <= q,
                    50 <= freq,
                    q * clk <= sys,
                    sys < (q + 1) * (freq * 4096),
            ;
            assert(count < 8192) by (nonlinear_arith)
                requires
                    50 <= freq,
                    clk < 2 * (freq * 4096),
                    count * freq <= clk,
            ;
        } else {
            assert(clk <= 2_500_000) by (nonlinear_arith)
                requires
                    div == 255,
                    div * clk <= sys,
                    sys <= 637_500_000,
            ;
            assert(count <= 50_000) by (nonlinear_arith)
                requires
                    50 <= freq,
                    clk <= 2_500_000,
                    count * freq <= clk,
            ;
        }
    }
}

/// The divider is as large as leaves 4096 counter steps per period, but at
/// least 1 and at most 255. Without a frequency it leaves one step.
pub proof fn law_divider_leaves_enough_steps(sys_clk_hz: int, freq_hz: int)
    requires
        0 <= sys_clk_hz <= u32::MAX,
        0 <= freq_hz <= u32::MAX,
    ensures
        ({
            let div = divider(sys_clk_hz, freq_hz);
            let steps = if freq_hz == 0 { 1 } else { freq_hz * 4096 };
            &&& 1 <= div <= 255
            &&& div > 1 ==> div * steps <= sys_clk_hz
            &&& div < 255 ==> sys_clk_hz < (div + 1) * steps
        }),
{
    let steps = if freq_hz == 0 { 1 } else { freq_hz * 4096 };
    let target = clamped(freq_hz * TARGET_STEPS, 1, u32::MAX as int);
    let q = sys_clk_hz / target;
    vstd::arithmetic::div_mod::lemma_fundamental_div_mod(sys_clk_hz, target);
    vstd::arithmetic::div_mod::lemma_mod_bound(sys_clk_hz, target);
    assert(q * target <= sys_clk_hz < (q + 1) * target) by (nonlinear_arith)
        requires
            sys_clk_hz == target * q + sys_clk_hz % target,
            0 <= sys_clk_hz % target < target,
    ;
    assert(0 <= q) by (nonlinear_arith)
        requires
            0 <= sys_clk_hz,
            1 <= target,
            sys_clk_hz < (q + 1) * target,
    ;
    let div = divider(sys_clk_hz, freq_hz);
    if steps > u32::MAX {
        assert(target == u32::MAX);
        assert(q <= 1) by (nonlinear_arith)
            requires
                q * target <= sys_clk_hz,
                sys_clk_hz <= target,
                1 <= target,
        ;
        assert(div == 1);
        assert(sys_clk_hz < (div + 1) * steps) by (nonlinear_arith)
            requires
                div == 1,
                sys_clk_hz < steps,
                0 <= steps,
        ;
    } else {
        assert(target == steps);
        if div > 1 {
            assert(div * steps <= sys_clk_hz) by (nonlinear_arith)
                requires
                    div <= q,
                    q * steps <= sys_clk_hz,
                    1 <= steps,
            ;
        }
        if div < 255 {
            assert(sys_clk_hz < (div + 1) * steps) by (nonlinear_arith)
                requires
                    q <= div,
                    sys_clk_hz < (q + 1) * steps,
                    1 <= steps,
            ;
        }
    }
}

/// The counter top value is how often the frequency goes into the slice clock,
/// held between 2 and 65535; the slice clock is the system clock over the
/// divider. Without a frequency it is the slice clock itself.
pub proof fn law_top_is_the_period(sys_clk_hz: int, freq_hz: int)
    requires
        0 <= sys_clk_hz,
        0 <= freq_hz,
    ensures
        ({
            let clk = slice_clk(sys_clk_hz, freq_hz);
            let div = divider(sys_clk_hz, freq_hz);
            let top = top_for(sys_clk_hz, freq_hz);
            let freq = if freq_hz == 0 { 1 } else { freq_hz };
            &&& div * clk <= sys_clk_hz < div * (clk + 1)
            &&& 2 <= top <= 65535
            &&& top > 2 ==> top * freq <= clk
            &&& top < 65535 ==> clk < (top + 1) * freq
        }),
{
    let clk = slice_clk(sys_clk_hz, freq_hz);
    let div = divider(sys_clk_hz, freq_hz);
    let top = top_for(sys_clk_hz, freq_hz);
    let freq = if freq_hz == 0 { 1 } else { freq_hz };
    let count = clk / freq;
    vstd::arithmetic::div_mod::lemma_fundamental_div_mod(sys_clk_hz, div);
    vstd::arithmetic::div_mod::lemma_mod_bound(sys_clk_hz, div);
    vstd::arithmetic::div_mod::lemma_fundamental_div_mod(clk, freq);
    vstd::arithmetic::div_mod::lemma_mod_bound(clk, freq);
    assert(div * clk <= sys_clk_hz < div * (clk + 1)) by (nonlinear_arith)
        requires
            sys_clk_hz == div * clk + sys_clk_hz % div,
            0 <= sys_clk_hz % div < div,
    ;
    assert(count * freq <= clk < (count + 1) * freq) by (nonlinear_arith)
        requires
            clk == freq * count + clk % freq,
            0 <= clk % freq < freq,
    ;
    if top > 2 {
        assert(top * freq <= clk) by (nonlinear_arith)
            requires
                top <= count,
                count * freq <= clk,
                1 <= freq,
        ;
    }
    if top < 65535 {
        assert(clk < (top + 1) * freq) by (nonlinear_arith)
            requires
                count <= top,
                clk < (count + 1) * freq,
                1 <= freq,
        ;
    }
}

/// What is programmed are the divider in sixteenths, the top value, and half
/// of the top value for the tone while keyed; the counter is reset exactly
/// when the new period is shorter than the one before.
pub proof fn law_program_is_what_was_computed(b: BuzzerView, before: int)
    requires
        0 <= b.sys_clk_hz,
        0 <= b.freq_hz,
    ensures
        ({
            let p = b.program(before);
            let top = top_for(b.sys_clk_hz, b.freq_hz);
            &&& p.divider_bits == 16 * divider(b.sys_clk_hz, b.freq_hz)
            &&& p.top == top
            &&& b.keying ==> 2 * p.max_compare <= top < 2 * p.max_compare + 2
            &&& !b.keying ==> p.max_compare == 0
            &&& p.reset_counter <==> top < before
            &&& b.programmed() == (BuzzerView { top, ..b })
        }),
{
}

/// A request sets the frequency, to at least 50 Hz, and programs it exactly
/// when it or the volume changed.
pub proof fn law_request_sets_the_frequency(b: BuzzerView, freq_hz: u32, volume_changed: bool)
    ensures
        b.updated(freq_hz, volume_changed).freq_hz == (if freq_hz < 50 { 50 } else { freq_hz }),
        b.needs_update(freq_hz, volume_changed) <==> volume_changed || b.freq_hz != b.updated(
            freq_hz,
            volume_changed,
        ).freq_hz,
        b.updated(freq_hz, volume_changed).sys_clk_hz == b.sys_clk_hz,
        !b.needs_update(freq_hz, volume_changed) ==> b.updated(freq_hz, volume_changed) == b,
        b.needs_update(freq_hz, volume_changed) ==> b.updated(freq_hz, volume_changed).top
            == top_for(b.sys_clk_hz, if freq_hz < 50 { 50 } else { freq_hz as int }),
{
}

/// Keying programs the tone at half duty and unkeying programs silence, each
/// at the frequency in force; keying what is keyed already programs nothing.
/// The frequency and the clock stay.
pub proof fn law_keying_gates_the_tone(b: BuzzerView, on: bool)
    requires
        0 <= b.sys_clk_hz,
        0 <= b.freq_hz,
    ensures
        b.key_program(on) is None <==> b.keying == on,
        b.key_program(on) matches Some(p) ==> {
            &&& on ==> 1 <= p.max_compare && 2 * p.max_compare <= p.top < 2 * p.max_compare + 2
            &&& !on ==> p.max_compare == 0
            &&& p.divider_bits == 16 * divider(b.sys_clk_hz, b.freq_hz)
            &&& p.top == top_for(b.sys_clk_hz, b.freq_hz)
            &&& p.reset_counter <==> p.top < b.top
            &&& b.keyed(on).top == p.top
        },
        b.keyed(on).keying == on,
        b.keyed(on).freq_hz == b.freq_hz,
        b.keyed(on).sys_clk_hz == b.sys_clk_hz,
        b.keying == on ==> b.keyed(on) == b,
{
}

/// A request that changes the frequency or the volume programs the requested
/// frequency, of at least 50 Hz, at half duty if the tone is keyed and silent
/// otherwise; any other request programs nothing.
pub proof fn law_request_programs_the_tone(b: BuzzerView, freq_hz: u32, volume_changed: bool)
    requires
        0 <= b.sys_clk_hz,
    ensures
        ({
            let freq: int = if freq_hz < 50 { 50 } else { freq_hz as int };
            &&& b.update_program(freq_hz, volume_changed) is None <==> b.freq_hz == freq
                && !volume_changed
            &&& b.update_program(freq_hz, volume_changed) matches Some(p) ==> {
                &&& b.keying ==> 1 <= p.max_compare && 2 * p.max_compare <= p.top < 2
                    * p.max_compare + 2
                &&& !b.keying ==> p.max_compare == 0
                &&& p.divider_bits == 16 * divider(b.sys_clk_hz, freq)
                &&& p.top == top_for(b.sys_clk_hz, freq)
                &&& p.reset_counter <==> p.top < b.top
                &&& b.updated(freq_hz, volume_changed).top == p.top
            }
        }),
{
}

/// A new buzzer is silent, and its first request is always programmed, in
/// silence. The counter is then reset unless the period is the longest one,
/// which is what a reset leaves.
pub proof fn law_first_request_is_programmed(
    sys_clk_hz: u32,
    freq_hz: u32,
    volume_changed: bool,
)
    ensures
        ({
            let b = BuzzerView::initial(sys_clk_hz);
            &&& b.sys_clk_hz == sys_clk_hz
            &&& b.freq_hz == 0
            &&& !b.keying
            &&& b.update_program(freq_hz, volume_changed) matches Some(p)
            &&& p.max_compare == 0
            &&& p.reset_counter <==> p.top != 65535
        }),
{
}

} // verus!
