//! High-priority keyer loop.
//!
//! One iteration every 250 us: read and debounce the paddles, hand the USB
//! emit task a snapshot when it changed, push the paddles to the keying
//! engine, refresh the settings now and then, and act on what the engine
//! puts out. The engine itself, the pins and the locks are the caller's; the
//! decisions are here.

use vstd::prelude::*;

use crate::config::{KeyerConfig, KeyerOutput, UsbEmitStyle};
use crate::paddle::{Debouncer, DebouncerView};
use crate::shared::UsbSnapshot;

verus! {

/// Keyer poll and engine tick interval, in microseconds.
pub const POLL_INTERVAL_US: u32 = 250;

/// Settings refresh throttle in ticks: 50 ms between refreshes.
pub const CONFIG_REFRESH_TICKS: u32 = (50 * 1000) / POLL_INTERVAL_US;

/// Paddle debounce in samples. Mechanical paddles bounce for 1 to 3 ms on
/// release; anything shorter lets the bounce through and the iambic memory
/// turns one tap into two elements.
pub const DEBOUNCE_SAMPLES: u8 = 8;

/// What the keyer loop remembers between two iterations.
pub struct KeyerView {
    pub keys_reversed: bool,
    pub emit_style: UsbEmitStyle,
    pub wpm: u8,
    pub decoder_enabled: bool,
    pub dit: DebouncerView,
    pub dah: DebouncerView,
    /// The keyed line, as the engine last drove it.
    pub live_key: bool,
    /// The snapshot that the USB emit task was last given.
    pub last_signaled: Option<UsbSnapshot>,
    /// Iterations since the settings were last refreshed.
    pub refresh_counter: nat,
}

impl KeyerView {
    pub open spec fn wf(self) -> bool {
        &&& self.dit.wf()
        &&& self.dah.wf()
        &&& self.dit.threshold == DEBOUNCE_SAMPLES
        &&& self.dah.threshold == DEBOUNCE_SAMPLES
        &&& self.refresh_counter < CONFIG_REFRESH_TICKS
    }

    /// The loop as it starts, with the given settings.
    pub open spec fn initial(cfg: KeyerConfig) -> KeyerView {
        let released = DebouncerView {
            state: false,
            count: 0,
            threshold: DEBOUNCE_SAMPLES as nat,
        };
        KeyerView {
            keys_reversed: cfg.keys_reversed,
            emit_style: cfg.usb_emit_style,
            wpm: cfg.speed_wpm,
            decoder_enabled: cfg.decoder_enabled,
            dit: released,
            dah: released,
            live_key: false,
            last_signaled: None,
            refresh_counter: 0,
        }
    }

    /// What the USB host should see: the debounced paddles, exchanged when
    /// the keys are reversed.
    pub open spec fn snapshot(self) -> UsbSnapshot {
        UsbSnapshot {
            dit_pressed: if self.keys_reversed { self.dah.state } else { self.dit.state },
            dah_pressed: if self.keys_reversed { self.dit.state } else { self.dah.state },
            live_key: self.live_key,
            emit_style: self.emit_style,
        }
    }

    /// Both paddles sampled once more.
    pub open spec fn sampled(self, raw_dit: bool, raw_dah: bool) -> KeyerView {
        KeyerView { dit: self.dit.after(raw_dit), dah: self.dah.after(raw_dah), ..self }
    }

    /// The settings are due for a refresh in this iteration.
    pub open spec fn refresh_due(self) -> bool {
        self.refresh_counter + 1 >= CONFIG_REFRESH_TICKS
    }

    /// The loop after the poll of one iteration.
    pub open spec fn polled(self, raw_dit: bool, raw_dah: bool) -> KeyerView {
        let s = self.sampled(raw_dit, raw_dah);
        KeyerView {
            last_signaled: Some(s.snapshot()),
            refresh_counter: if self.refresh_due() {
                0
            } else {
                self.refresh_counter + 1
            },
            ..s
        }
    }

    /// The loop after the poll of one iteration; under the save lock nothing
    /// is touched.
    pub open spec fn ticked(self, save_lock: bool, raw_dit: bool, raw_dah: bool) -> KeyerView {
        if save_lock {
            self
        } else {
            self.polled(raw_dit, raw_dah)
        }
    }

    /// The loop with fresh settings.
    pub open spec fn refreshed(self, cfg: KeyerConfig) -> KeyerView {
        KeyerView {
            keys_reversed: cfg.keys_reversed,
            emit_style: cfg.usb_emit_style,
            wpm: cfg.speed_wpm,
            decoder_enabled: cfg.decoder_enabled,
            ..self
        }
    }

    /// The loop after an event.
    pub open spec fn after(self, ev: KeyerEvent) -> KeyerView {
        match ev {
            KeyerEvent::Tick { save_lock, raw_dit, raw_dah } => self.ticked(
                save_lock,
                raw_dit,
                raw_dah,
            ),
            KeyerEvent::Refresh(cfg) => self.refreshed(cfg),
            KeyerEvent::Output(out) => self.after_output(out),
        }
    }

    /// The loop after a whole history of events, oldest first.
    pub open spec fn after_all(self, history: Seq<KeyerEvent>) -> KeyerView
        decreases history.len(),
    {
        if history.len() == 0 {
            self
        } else {
            self.after_all(history.drop_last()).after(history.last())
        }
    }

    /// What the poll of one iteration hands on.
    pub open spec fn step(self, save_lock: bool, raw_dit: bool, raw_dah: bool) -> Step {
        let next = self.polled(raw_dit, raw_dah);
        if save_lock {
            Step::Parked
        } else {
            Step::Poll(
                Poll {
                    signal: if next.last_signaled == self.last_signaled {
                        None
                    } else {
                        next.last_signaled
                    },
                    dit_phys: next.dit.state,
                    dah_phys: next.dah.state,
                    refresh: self.refresh_due(),
                },
            )
        }
    }

    /// What an engine output has driven.
    pub open spec fn drive(self, out: KeyerOutput) -> Option<KeyDrive> {
        match drive_of(out) {
            Some(on) => Some(
                KeyDrive {
                    on,
                    decode_at_wpm: if self.decoder_enabled {
                        Some(self.wpm)
                    } else {
                        None
                    },
                },
            ),
            None => None,
        }
    }

    /// Fresh settings switch the decoder on.
    pub open spec fn clears_decoder(self, cfg: KeyerConfig) -> bool {
        cfg.decoder_enabled && !self.decoder_enabled
    }

    /// The loop after an engine output.
    pub open spec fn after_output(self, out: KeyerOutput) -> KeyerView {
        match drive_of(out) {
            Some(on) => KeyerView { live_key: on, ..self },
            None => self,
        }
    }
}

/// What happens to the loop.
pub enum KeyerEvent {
    /// An iteration begins.
    Tick { save_lock: bool, raw_dit: bool, raw_dah: bool },
    /// Fresh settings are taken.
    Refresh(KeyerConfig),
    /// The engine puts something out.
    Output(KeyerOutput),
}

/// The raw paddles that a history samples, dit and dah, oldest first: those of
/// the iterations that the save lock does not park.
pub open spec fn samples(history: Seq<KeyerEvent>) -> Seq<(bool, bool)>
    decreases history.len(),
{
    if history.len() == 0 {
        Seq::empty()
    } else {
        let before = samples(history.drop_last());
        match history.last() {
            KeyerEvent::Tick { save_lock: false, raw_dit, raw_dah } => before.push(
                (raw_dit, raw_dah),
            ),
            _ => before,
        }
    }
}

/// Where an event drives the key line, if it does.
pub open spec fn drives(ev: KeyerEvent) -> Option<bool> {
    match ev {
        KeyerEvent::Output(out) => drive_of(out),
        _ => None,
    }
}

/// Where an engine output drives the key line, if it does. A PTT request
/// counts as a key-down: the key line doubles as PTT for full break-in, and
/// the leading edge of a fresh element would otherwise be a tick late. The
/// end of a PTT request finds the key already up.
pub open spec fn drive_of(out: KeyerOutput) -> Option<bool> {
    match out {
        KeyerOutput::KeyDown => Some(true),
        KeyerOutput::KeyUp => Some(false),
        KeyerOutput::PttRequest(true) => Some(true),
        KeyerOutput::PttRequest(false) => None,
    }
}

/// What the rest of one iteration has to do.
#[derive(Debug, Clone, Copy, PartialEq, Eq, Structural)]
pub struct Poll {
    /// Signal this snapshot to the USB emit task.
    pub signal: Option<UsbSnapshot>,
    /// Debounced dit paddle for the engine, before any exchange: the engine
    /// exchanges the paddles itself.
    pub dit_phys: bool,
    /// Debounced dah paddle for the engine, before any exchange.
    pub dah_phys: bool,
    /// Take fresh settings before the engine ticks.
    pub refresh: bool,
}

/// One iteration of the keyer loop.
#[derive(Debug, Clone, Copy, PartialEq, Eq, Structural)]
pub enum Step {
    /// A save is under way: report the engine as idle and wait for the next
    /// tick.
    Parked,
    /// Go on with the iteration.
    Poll(Poll),
}

/// How to drive everything that follows the key line.
#[derive(Debug, Clone, Copy, PartialEq, Eq, Structural)]
pub struct KeyDrive {
    /// Level for the radio key, the sidetone and the key indicator.
    pub on: bool,
    /// Feed the transition to the CW decoder, at this speed.
    pub decode_at_wpm: Option<u8>,
}

/// The keyer loop's state.
pub struct KeyerTask {
    keys_reversed: bool,
    emit_style: UsbEmitStyle,
    wpm: u8,
    decoder_enabled: bool,
    dit_debounce: Debouncer,
    dah_debounce: Debouncer,
    live_key: bool,
    last_signaled: Option<UsbSnapshot>,
    refresh_counter: u32,
}

impl View for KeyerTask {
    type V = KeyerView;

    closed spec fn view(&self) -> KeyerView {
        KeyerView {
            keys_reversed: self.keys_reversed,
            emit_style: self.emit_style,
            wpm: self.wpm,
            decoder_enabled: self.decoder_enabled,
            dit: self.dit_debounce@,
            dah: self.dah_debounce@,
            live_key: self.live_key,
            last_signaled: self.last_signaled,
            refresh_counter: self.refresh_counter as nat,
        }
    }
}

impl KeyerTask {
    #[verifier::type_invariant]
    spec fn inv(self) -> bool {
        self@.wf()
    }

    /// The loop's state at start, seeded with the current settings.
    pub fn new(cfg: &KeyerConfig) -> (task: Self)
        ensures
            task@ == KeyerView::initial(*cfg),
            task@.wf(),
    {
        KeyerTask {
            keys_reversed: cfg.keys_reversed,
            emit_style: cfg.usb_emit_style,
            wpm: cfg.speed_wpm,
            decoder_enabled: cfg.decoder_enabled,
            dit_debounce: Debouncer::new(false, DEBOUNCE_SAMPLES),
            dah_debounce: Debouncer::new(false, DEBOUNCE_SAMPLES),
            live_key: false,
            last_signaled: None,
            refresh_counter: 0,
        }
    }

    /// Take fresh settings. Returns whether the CW decoder has to be cleared:
    /// on the off-to-on edge, so that a long-frozen decoder does not make up
    /// a giant gap on the first transition.
    pub fn refresh(&mut self, cfg: &KeyerConfig) -> (clear_decoder: bool)
        ensures
            final(self)@ == old(self)@.refreshed(*cfg),
            final(self)@.wf(),
            clear_decoder == (cfg.decoder_enabled && !old(self)@.decoder_enabled),
            clear_decoder == old(self)@.clears_decoder(*cfg),
    {
        proof {
            use_type_invariant(&*self);
        }
        self.keys_reversed = cfg.keys_reversed;
        self.emit_style = cfg.usb_emit_style;
        self.wpm = cfg.speed_wpm;
        let clear_decoder = cfg.decoder_enabled && !self.decoder_enabled;
        self.decoder_enabled = cfg.decoder_enabled;
        clear_decoder
    }

    /// Act on what the engine put out; `None` when nothing has to be driven.
    pub fn on_output(&mut self, out: KeyerOutput) -> (drive: Option<KeyDrive>)
        ensures
            final(self)@ == old(self)@.after_output(out),
            final(self)@.wf(),
            drive == old(self)@.drive(out),
            drive == (match drive_of(out) {
                Some(on) => Some(
                    KeyDrive {
                        on,
                        decode_at_wpm: if old(self)@.decoder_enabled {
                            Some(old(self)@.wpm)
                        } else {
                            None
                        },
                    },
                ),
                None => None,
            }),
    {
        proof {
            use_type_invariant(&*self);
        }
        let decode_at_wpm: Option<u8> = if self.decoder_enabled {
            Some(self.wpm)
        } else {
            None
        };
        match out {
            KeyerOutput::KeyDown | KeyerOutput::PttRequest(true) => {
                self.live_key = true;
                Some(KeyDrive { on: true, decode_at_wpm })
            },
            KeyerOutput::KeyUp => {
                self.live_key = false;
                Some(KeyDrive { on: false, decode_at_wpm })
            },
            KeyerOutput::PttRequest(false) => None,
        }
    }
}

/// One iteration of the keyer loop: `save_lock` is set while the settings are
/// written, `raw_dit` and `raw_dah` are the paddles as just read.
///
/// Under the save lock nothing is touched, so that an element in flight
/// cannot tear.
pub fn run(task: &mut KeyerTask, save_lock: bool, raw_dit: bool, raw_dah: bool) -> (step: Step)
    ensures
        final(task)@ == old(task)@.ticked(save_lock, raw_dit, raw_dah),
        step is Parked <==> save_lock,
        step == old(task)@.step(save_lock, raw_dit, raw_dah),
        step matches Step::Poll(poll) ==> {
            let snapshot = old(task)@.sampled(raw_dit, raw_dah).snapshot();
            &&& poll.signal == (if old(task)@.last_signaled == Some(snapshot) {
                None
            } else {
                Some(snapshot)
            })
            &&& poll.dit_phys == final(task)@.dit.state
            &&& poll.dah_phys == final(task)@.dah.state
            &&& poll.refresh == old(task)@.refresh_due()
        },
        final(task)@.wf(),
{
    proof {
        use_type_invariant(&*task);
    }
    if save_lock {
        return Step::Parked;
    }
    let dit_phys = task.dit_debounce.update(raw_dit);
    let dah_phys = task.dah_debounce.update(raw_dah);
    let (dit_pressed, dah_pressed) = if task.keys_reversed {
        (dah_phys, dit_phys)
    } else {
        (dit_phys, dah_phys)
    };
    let snapshot = UsbSnapshot {
        dit_pressed,
        dah_pressed,
        live_key: task.live_key,
        emit_style: task.emit_style,
    };
    let changed = match task.last_signaled {
        Some(last) => snapshot != last,
        None => true,
    };
    let mut signal: Option<UsbSnapshot> = None;
    if changed {
        signal = Some(snapshot);
        task.last_signaled = Some(snapshot);
    }
    // Counts up to the refresh and starts over, rather than wrapping.
    let count: u32 = task.refresh_counter + 1;
    let refresh = count >= CONFIG_REFRESH_TICKS;
    task.refresh_counter = if refresh { 0 } else { count };
    Step::Poll(Poll { signal, dit_phys, dah_phys, refresh })
}

/// No event breaks the invariant.
pub proof fn lemma_after_all_wf(k: KeyerView, history: Seq<KeyerEvent>)
    requires
        k.wf(),
    ensures
        k.after_all(history).wf(),
    decreases history.len(),
{
    if history.len() > 0 {
        lemma_after_all_wf(k, history.drop_last());
    }
}

/// The paddles that the engine and the USB host see are the raw paddles,
/// each through its own debouncer, whatever refreshes, engine outputs and
/// parked iterations come in between.
pub proof fn law_paddles_are_debounced(k: KeyerView, history: Seq<KeyerEvent>)
    ensures
        k.after_all(history).dit == k.dit.after_all(
            samples(history).map_values(|r: (bool, bool)| r.0),
        ),
        k.after_all(history).dah == k.dah.after_all(
            samples(history).map_values(|r: (bool, bool)| r.1),
        ),
    decreases history.len(),
{
    let raw = samples(history);
    let dits = raw.map_values(|r: (bool, bool)| r.0);
    let dahs = raw.map_values(|r: (bool, bool)| r.1);
    if history.len() == 0 {
        assert(dits =~= Seq::empty());
        assert(dahs =~= Seq::empty());
    } else {
        let prev = history.drop_last();
        law_paddles_are_debounced(k, prev);
        let before = samples(prev);
        if let KeyerEvent::Tick { save_lock: false, raw_dit, raw_dah } = history.last() {
            assert(dits.drop_last() =~= before.map_values(|r: (bool, bool)| r.0));
            assert(dahs.drop_last() =~= before.map_values(|r: (bool, bool)| r.1));
        }
    }
}

/// A paddle that is held for the debounce time, 2 ms, is seen by the engine,
/// and so is a release, whatever bounced before and whatever else happened.
pub proof fn law_held_paddle_is_seen(k: KeyerView, history: Seq<KeyerEvent>, x: bool)
    requires
        k.wf(),
        samples(history).len() >= DEBOUNCE_SAMPLES,
    ensures
        (forall|i: int|
            samples(history).len() - DEBOUNCE_SAMPLES <= i < samples(history).len() ==> samples(
                history,
            )[i].0 == x) ==> k.after_all(history).dit.state == x,
        (forall|i: int|
            samples(history).len() - DEBOUNCE_SAMPLES <= i < samples(history).len() ==> samples(
                history,
            )[i].1 == x) ==> k.after_all(history).dah.state == x,
        DEBOUNCE_SAMPLES * POLL_INTERVAL_US == 2000,
{
    law_paddles_are_debounced(k, history);
    let raw = samples(history);
    let dits = raw.map_values(|r: (bool, bool)| r.0);
    let dahs = raw.map_values(|r: (bool, bool)| r.1);
    if forall|i: int| raw.len() - DEBOUNCE_SAMPLES <= i < raw.len() ==> raw[i].0 == x {
        crate::paddle::law_steady_input_is_accepted(k.dit, dits, x);
    }
    if forall|i: int| raw.len() - DEBOUNCE_SAMPLES <= i < raw.len() ==> raw[i].1 == x {
        crate::paddle::law_steady_input_is_accepted(k.dah, dahs, x);
    }
}

/// The settings are refreshed exactly once per `CONFIG_REFRESH_TICKS` polls:
/// the poll that follows a history is due iff it completes a multiple of
/// them, however refreshes, engine outputs and parked iterations are mixed in.
/// The ticks come to 50 ms.
pub proof fn law_refresh_cadence(k: KeyerView, history: Seq<KeyerEvent>)
    requires
        k.refresh_counter == 0,
    ensures
        k.after_all(history).refresh_counter == samples(history).len() % (
        CONFIG_REFRESH_TICKS as nat),
        k.after_all(history).refresh_due() <==> (samples(history).len() + 1) % (
        CONFIG_REFRESH_TICKS as nat) == 0,
        CONFIG_REFRESH_TICKS * POLL_INTERVAL_US == 50_000,
    decreases history.len(),
{
    let ticks = CONFIG_REFRESH_TICKS as nat;
    let n = samples(history).len();
    assert(ticks == 200);
    if history.len() > 0 {
        law_refresh_cadence(k, history.drop_last());
        let m = samples(history.drop_last()).len();
        assert(m % ticks == m % 200);
        assert((m + 1) % ticks == (m + 1) % 200);
    }
    assert(n % ticks == n % 200);
    assert((n + 1) % ticks == (n + 1) % 200);
}

/// Exchanging the paddles of the wiring and reversing the keys cancel out.
pub proof fn law_reversal_exchanges_paddles(k: KeyerView)
    ensures
        (KeyerView { keys_reversed: !k.keys_reversed, dit: k.dah, dah: k.dit, ..k }).snapshot()
            == k.snapshot(),
{
}

/// The USB emit task is never left with a stale snapshot: whatever poll came
/// last, what it was last given is the current state of the paddles.
pub proof fn law_signal_is_current(k: KeyerView, raw_dit: bool, raw_dah: bool)
    ensures
        k.polled(raw_dit, raw_dah).last_signaled == Some(
            k.polled(raw_dit, raw_dah).snapshot(),
        ),
{
}

/// The keyed line is where the latest output that drives it left it, whatever
/// else happened since.
pub proof fn law_live_key_follows_engine(k: KeyerView, history: Seq<KeyerEvent>, i: int)
    requires
        0 <= i < history.len(),
        drives(history[i]) is Some,
        forall|j: int| i < j < history.len() ==> drives(#[trigger] history[j]) is None,
    ensures
        k.after_all(history).live_key == drives(history[i])->0,
    decreases history.len(),
{
    if i < history.len() - 1 {
        assert(drives(history[history.len() - 1]) is None);
        law_live_key_follows_engine(k, history.drop_last(), i);
    }
}

/// A key-down right after a PTT request changes nothing further, and the end
/// of a PTT request never keys or unkeys.
pub proof fn law_ptt_keys_early(k: KeyerView)
    ensures
        k.after_output(KeyerOutput::PttRequest(true)).live_key,
        k.after_output(KeyerOutput::PttRequest(true)).after_output(KeyerOutput::KeyDown)
            == k.after_output(KeyerOutput::PttRequest(true)),
        k.after_output(KeyerOutput::PttRequest(false)) == k,
{
}

/// The raw samples of the dit paddle in a history, oldest first.
pub open spec fn dit_samples(history: Seq<KeyerEvent>) -> Seq<bool> {
    samples(history).map_values(|r: (bool, bool)| r.0)
}

/// The raw samples of the dah paddle in a history, oldest first.
pub open spec fn dah_samples(history: Seq<KeyerEvent>) -> Seq<bool> {
    samples(history).map_values(|r: (bool, bool)| r.1)
}

/// What a history samples is what its polls read: a poll adds its two
/// readings, and nothing else adds anything.
pub proof fn law_polls_are_what_is_sampled(
    history: Seq<KeyerEvent>,
    cfg: KeyerConfig,
    out: KeyerOutput,
    raw_dit: bool,
    raw_dah: bool,
)
    ensures
        samples(Seq::<KeyerEvent>::empty()).len() == 0,
        samples(history.push(KeyerEvent::Tick { save_lock: false, raw_dit, raw_dah })) == samples(
            history,
        ).push((raw_dit, raw_dah)),
        samples(history.push(KeyerEvent::Tick { save_lock: true, raw_dit, raw_dah })) == samples(
            history,
        ),
        samples(history.push(KeyerEvent::Refresh(cfg))) == samples(history),
        samples(history.push(KeyerEvent::Output(out))) == samples(history),
{
    assert(history.push(
        KeyerEvent::Tick { save_lock: false, raw_dit, raw_dah },
    ).drop_last() =~= history);
    assert(history.push(
        KeyerEvent::Tick { save_lock: true, raw_dit, raw_dah },
    ).drop_last() =~= history);
    assert(history.push(KeyerEvent::Refresh(cfg)).drop_last() =~= history);
    assert(history.push(KeyerEvent::Output(out)).drop_last() =~= history);
}

/// After every poll the USB side has been given the two debounced paddles,
/// each on its own and whatever the other one does: the dit paddle on the dit
/// side and the dah paddle on the dah side, or the two exchanged when the keys
/// are reversed. It has been given the keyed line and the style as they are.
pub proof fn law_usb_sees_each_paddle(
    k: KeyerView,
    history: Seq<KeyerEvent>,
    raw_dit: bool,
    raw_dah: bool,
)
    ensures
        ({
            let now = k.after_all(history);
            let all = history.push(KeyerEvent::Tick { save_lock: false, raw_dit, raw_dah });
            let dit = k.dit.after_all(dit_samples(all)).state;
            let dah = k.dah.after_all(dah_samples(all)).state;
            &&& k.after_all(all).last_signaled matches Some(s)
            &&& !now.keys_reversed ==> s.dit_pressed == dit && s.dah_pressed == dah
            &&& now.keys_reversed ==> s.dit_pressed == dah && s.dah_pressed == dit
            &&& s.live_key == now.live_key
            &&& s.emit_style == now.emit_style
        }),
{
    let all = history.push(KeyerEvent::Tick { save_lock: false, raw_dit, raw_dah });
    assert(all.drop_last() =~= history);
    law_paddles_are_debounced(k, all);
}

/// A paddle whose last eight samples all read the same is shown to the USB
/// side as just that, on its logical side, whatever the other paddle did and
/// whatever happened before.
pub proof fn law_held_paddle_reaches_usb(
    k: KeyerView,
    history: Seq<KeyerEvent>,
    raw_dit: bool,
    raw_dah: bool,
    x: bool,
)
    requires
        k.wf(),
    ensures
        ({
            let reversed = k.after_all(history).keys_reversed;
            let all = history.push(KeyerEvent::Tick { save_lock: false, raw_dit, raw_dah });
            &&& k.after_all(all).last_signaled matches Some(s)
            &&& crate::paddle::ends_with_run(dit_samples(all), x, 8) ==> (if reversed {
                s.dah_pressed
            } else {
                s.dit_pressed
            }) == x
            &&& crate::paddle::ends_with_run(dah_samples(all), x, 8) ==> (if reversed {
                s.dit_pressed
            } else {
                s.dah_pressed
            }) == x
        }),
{
    let all = history.push(KeyerEvent::Tick { save_lock: false, raw_dit, raw_dah });
    law_usb_sees_each_paddle(k, history, raw_dit, raw_dah);
    if crate::paddle::ends_with_run(dit_samples(all), x, 8) {
        crate::paddle::law_steady_input_is_accepted(k.dit, dit_samples(all), x);
    }
    if crate::paddle::ends_with_run(dah_samples(all), x, 8) {
        crate::paddle::law_steady_input_is_accepted(k.dah, dah_samples(all), x);
    }
}

/// A poll wakes the USB side exactly when what it was last given differs from
/// the state of the paddles, the keyed line or the style, and hands it the
/// state as it is. Under the save lock nothing is handed on and nothing changes.
pub proof fn law_usb_is_woken_on_change(k: KeyerView, raw_dit: bool, raw_dah: bool)
    ensures
        k.step(true, raw_dit, raw_dah) == Step::Parked,
        k.ticked(true, raw_dit, raw_dah) == k,
        ({
            let dit = k.dit.after(raw_dit).state;
            let dah = k.dah.after(raw_dah).state;
            let up_to_date = k.last_signaled matches Some(s) && s.live_key == k.live_key
                && s.emit_style == k.emit_style && s.dit_pressed == (if k.keys_reversed {
                dah
            } else {
                dit
            }) && s.dah_pressed == (if k.keys_reversed {
                dit
            } else {
                dah
            });
            &&& k.step(false, raw_dit, raw_dah) matches Step::Poll(p)
            &&& p.signal is None <==> up_to_date
            &&& p.signal matches Some(s) ==> {
                &&& k.ticked(false, raw_dit, raw_dah).last_signaled == Some(s)
                &&& s.live_key == k.live_key
                &&& s.emit_style == k.emit_style
                &&& (if k.keys_reversed { s.dah_pressed } else { s.dit_pressed }) == dit
                &&& (if k.keys_reversed { s.dit_pressed } else { s.dah_pressed }) == dah
            }
        }),
{
}

/// The engine is given the paddles as they are wired, each on its own: what it
/// gets for one paddle depends on that paddle's samples alone, not on the
/// other paddle, the reversal or anything else. It is asked for fresh settings
/// on every two hundredth poll.
pub proof fn law_engine_gets_each_paddle(
    k: KeyerView,
    history: Seq<KeyerEvent>,
    raw_dit: bool,
    raw_dah: bool,
)
    requires
        k.refresh_counter == 0,
    ensures
        ({
            let all = history.push(KeyerEvent::Tick { save_lock: false, raw_dit, raw_dah });
            &&& k.after_all(history).step(false, raw_dit, raw_dah) matches Step::Poll(p)
            &&& p.dit_phys == k.dit.after_all(dit_samples(all)).state
            &&& p.dah_phys == k.dah.after_all(dah_samples(all)).state
            &&& p.refresh <==> samples(all).len() % 200 == 0
        }),
{
    let all = history.push(KeyerEvent::Tick { save_lock: false, raw_dit, raw_dah });
    assert(all.drop_last() =~= history);
    law_paddles_are_debounced(k, all);
    law_refresh_cadence(k, history);
    let n = samples(history).len();
    assert((n + 1) % (CONFIG_REFRESH_TICKS as nat) == (n + 1) % 200);
}

/// The loop works with the settings `cfg`: the reversal, the style, the
/// decoder switch and the decoder's speed are those.
pub open spec fn works_with(k: KeyerView, cfg: KeyerConfig) -> bool {
    &&& k.keys_reversed == cfg.keys_reversed
    &&& k.emit_style == cfg.usb_emit_style
    &&& k.decoder_enabled == cfg.decoder_enabled
    &&& k.wpm == cfg.speed_wpm
}

/// Ticks and engine outputs leave the settings alone.
proof fn lemma_settings_stay(k: KeyerView, history: Seq<KeyerEvent>, cfg: KeyerConfig)
    requires
        works_with(k, cfg),
        forall|j: int| 0 <= j < history.len() ==> !(#[trigger] history[j] is Refresh),
    ensures
        works_with(k.after_all(history), cfg),
    decreases history.len(),
{
    if history.len() > 0 {
        assert(!(history[history.len() - 1] is Refresh));
        lemma_settings_stay(k, history.drop_last(), cfg);
    }
}

/// After any history the loop works with the settings of the latest refresh,
/// whatever ticks and outputs followed it: the reversal, the style, the
/// decoder switch, and the speed at which key transitions are fed to the
/// decoder.
pub proof fn law_latest_refresh_is_in_force(
    k: KeyerView,
    history: Seq<KeyerEvent>,
    i: int,
    cfg: KeyerConfig,
)
    requires
        0 <= i < history.len(),
        history[i] == KeyerEvent::Refresh(cfg),
        forall|j: int| i < j < history.len() ==> !(#[trigger] history[j] is Refresh),
    ensures
        ({
            let now = k.after_all(history);
            let fed = if cfg.decoder_enabled { Some(cfg.speed_wpm) } else { None::<u8> };
            &&& now.keys_reversed == cfg.keys_reversed
            &&& now.snapshot().emit_style == cfg.usb_emit_style
            &&& now.decoder_enabled == cfg.decoder_enabled
            &&& now.drive(KeyerOutput::KeyDown) == Some(KeyDrive { on: true, decode_at_wpm: fed })
            &&& now.drive(KeyerOutput::KeyUp) == Some(KeyDrive { on: false, decode_at_wpm: fed })
            &&& now.drive(KeyerOutput::PttRequest(true)) == Some(
                KeyDrive { on: true, decode_at_wpm: fed },
            )
        }),
{
    lemma_latest_refresh(k, history, i, cfg);
}

/// The settings of the latest refresh, by the fields that hold them.
proof fn lemma_latest_refresh(k: KeyerView, history: Seq<KeyerEvent>, i: int, cfg: KeyerConfig)
    requires
        0 <= i < history.len(),
        history[i] == KeyerEvent::Refresh(cfg),
        forall|j: int| i < j < history.len() ==> !(#[trigger] history[j] is Refresh),
    ensures
        works_with(k.after_all(history), cfg),
    decreases history.len(),
{
    if i < history.len() - 1 {
        assert(!(history[history.len() - 1] is Refresh));
        lemma_latest_refresh(k, history.drop_last(), i, cfg);
    }
}

/// Before the first refresh the loop works with the settings that it started
/// with. It starts with both paddles and the key up, the USB side not yet told
/// anything, and its first poll tells it.
pub proof fn law_start_settings_are_in_force(
    cfg: KeyerConfig,
    history: Seq<KeyerEvent>,
    raw_dit: bool,
    raw_dah: bool,
)
    requires
        forall|j: int| 0 <= j < history.len() ==> !(#[trigger] history[j] is Refresh),
    ensures
        ({
            let start = KeyerView::initial(cfg);
            let now = start.after_all(history);
            let fed = if cfg.decoder_enabled { Some(cfg.speed_wpm) } else { None::<u8> };
            &&& now.keys_reversed == cfg.keys_reversed
            &&& now.snapshot().emit_style == cfg.usb_emit_style
            &&& now.decoder_enabled == cfg.decoder_enabled
            &&& now.drive(KeyerOutput::KeyDown) == Some(KeyDrive { on: true, decode_at_wpm: fed })
            &&& !start.dit.state && !start.dah.state && !start.live_key
            &&& start.dit.count == 0 && start.dah.count == 0
            &&& start.dit.threshold == 8 && start.dah.threshold == 8
            &&& start.refresh_counter == 0
            &&& start.step(false, raw_dit, raw_dah) matches Step::Poll(p)
            &&& p.signal matches Some(s)
            &&& !s.dit_pressed && !s.dah_pressed && !s.live_key
        }),
{
    lemma_settings_stay(KeyerView::initial(cfg), history, cfg);
}

/// A key-down and the start of a PTT request drive the key on, a key-up drives
/// it off, and the end of a PTT request drives nothing. The line that the USB
/// side is shown is the one that was driven, and an output changes nothing but
/// that line.
pub proof fn law_outputs_drive_the_key(k: KeyerView, out: KeyerOutput)
    ensures
        k.drive(out) is None <==> out == KeyerOutput::PttRequest(false),
        k.drive(out) matches Some(d) ==> {
            &&& d.on <==> out != KeyerOutput::KeyUp
            &&& d.decode_at_wpm is Some <==> k.decoder_enabled
            &&& k.after_output(out).snapshot().live_key == d.on
        },
        k.drive(out) is None ==> k.after_output(out) == k,
        k.after_output(out) == (KeyerView { live_key: k.after_output(out).live_key, ..k }),
{
}

/// Fresh settings clear the decoder exactly when they switch it on: against
/// the settings before, be those the first ones or later ones.
pub proof fn law_decoder_is_cleared_when_switched_on(
    k: KeyerView,
    before: KeyerConfig,
    after: KeyerConfig,
)
    ensures
        k.refreshed(before).clears_decoder(after) <==> after.decoder_enabled
            && !before.decoder_enabled,
        KeyerView::initial(before).clears_decoder(after) <==> after.decoder_enabled
            && !before.decoder_enabled,
{
}

/// A refresh takes settings and touches nothing else: the paddles, the keyed
/// line, what the USB side was given and the refresh count stay.
pub proof fn law_refresh_touches_settings_only(k: KeyerView, cfg: KeyerConfig)
    ensures
        k.refreshed(cfg).dit == k.dit,
        k.refreshed(cfg).dah == k.dah,
        k.refreshed(cfg).live_key == k.live_key,
        k.refreshed(cfg).last_signaled == k.last_signaled,
        k.refreshed(cfg).refresh_counter == k.refresh_counter,
{
}

} // verus!
