//! User interface task: one round every 25 ms.
//!
//! A round notes the keyed line, hands the button events to the menu, polls
//! the CW decoder when it is on, and draws when something on the screen
//! changed. The locks, the decoder and the display are the caller's.

use vstd::prelude::*;

use crate::buttons::ButtonEvent;
use crate::config::KeyerConfig;
use crate::screens::TextRow;
use crate::ui::{MenuItem, Ui, UiView};

verus! {

/// Time from one round to the next, in milliseconds.
pub const ROUND_MS: u64 = 25;

/// What the task remembers between two rounds.
pub struct UiTaskView {
    pub ui: UiView,
    /// Keying speed for the decoder, as of the latest drawing.
    pub decoder_wpm: u8,
    /// Whether the decoder is polled, as of the latest drawing.
    pub decoder_enabled: bool,
}

impl UiTaskView {
    /// Between two rounds every edit has been reported.
    pub open spec fn settled(self) -> bool {
        self.ui.wf() && !self.ui.config_changed
    }

    /// The remembered settings are those of `cfg`.
    pub open spec fn remembers(self, cfg: KeyerConfig) -> bool {
        self.decoder_wpm == cfg.speed_wpm && self.decoder_enabled == cfg.decoder_enabled
    }

    /// The task at boot.
    pub open spec fn initial(cfg: KeyerConfig) -> UiTaskView {
        UiTaskView {
            ui: UiView::initial(),
            decoder_wpm: cfg.speed_wpm,
            decoder_enabled: cfg.decoder_enabled,
        }
    }

    /// The speed that the decoder is polled at, when it is on.
    pub open spec fn polls_at(self) -> Option<u8> {
        if self.decoder_enabled {
            Some(self.decoder_wpm)
        } else {
            None
        }
    }

    /// What the button events of a round do to the settings.
    pub open spec fn edits(self, cfg: KeyerConfig, events: Seq<ButtonEvent>) -> Edits {
        Edits {
            save: events.len() > 0 && pressed_all(self.ui, cfg, events).0.config_changed,
            volume: steps_volume(self.ui, cfg, events),
        }
    }

    /// The task after the keyed line was reported.
    pub open spec fn key_noted(self, keyed: bool) -> UiTaskView {
        UiTaskView { ui: self.ui.key_noted(keyed), ..self }
    }

    /// The task after the decoder's text was reported.
    pub open spec fn decoded_noted(self, text: Seq<u8>) -> UiTaskView {
        UiTaskView { ui: self.ui.decoded_noted(text), ..self }
    }

    /// The task after the button events of a round.
    pub open spec fn after_buttons(self, cfg: KeyerConfig, events: Seq<ButtonEvent>) -> UiTaskView {
        if events.len() == 0 {
            self
        } else {
            UiTaskView {
                ui: UiView { config_changed: false, ..pressed_all(self.ui, cfg, events).0 },
                ..self
            }
        }
    }

    /// The task after the drawing at the end of a round.
    pub open spec fn drawn(self, cfg: KeyerConfig) -> UiTaskView {
        if self.ui.dirty {
            UiTaskView {
                ui: UiView { dirty: false, ..self.ui },
                decoder_wpm: cfg.speed_wpm,
                decoder_enabled: cfg.decoder_enabled,
            }
        } else {
            self
        }
    }
}

/// The UI and the settings after some button presses, oldest first.
pub open spec fn pressed_all(u: UiView, cfg: KeyerConfig, events: Seq<ButtonEvent>) -> (
    UiView,
    KeyerConfig,
)
    decreases events.len(),
{
    if events.len() == 0 {
        (u, cfg)
    } else {
        let (before, before_cfg) = pressed_all(u, cfg, events.drop_last());
        (
            before.pressed(events.last()),
            crate::ui::config_pressed(before, before_cfg, events.last()),
        )
    }
}

/// Some of the presses stepped the volume.
pub open spec fn steps_volume(u: UiView, cfg: KeyerConfig, events: Seq<ButtonEvent>) -> bool {
    exists|i: int|
        0 <= i < events.len() && (#[trigger] pressed_all(u, cfg, events.take(i)).0.steps(
            events[i],
        ) matches Some((item, _)) && item == MenuItem::SidetoneVolume)
}

/// What the button presses of a round did to the settings.
#[derive(Debug, Clone, Copy, PartialEq, Eq, Structural)]
pub struct Edits {
    /// The settings have to be saved.
    pub save: bool,
    /// The volume was set, to exactly the whole percent that the settings
    /// have now.
    pub volume: bool,
}

/// The user interface task's state.
pub struct UiTask {
    ui: Ui,
    decoder_wpm: u8,
    decoder_enabled: bool,
}

impl View for UiTask {
    type V = UiTaskView;

    closed spec fn view(&self) -> UiTaskView {
        UiTaskView {
            ui: self.ui@,
            decoder_wpm: self.decoder_wpm,
            decoder_enabled: self.decoder_enabled,
        }
    }
}

impl UiTask {
    /// The task at boot, seeded from the settings so that the very first poll
    /// uses the right speed and, when the decoder is off, does not happen.
    pub fn new(cfg: &KeyerConfig) -> (task: Self)
        ensures
            task@.ui == UiView::initial(),
            task@.remembers(*cfg),
            task@.settled(),
            task@ == UiTaskView::initial(*cfg),
    {
        UiTask {
            ui: Ui::new(),
            decoder_wpm: cfg.speed_wpm,
            decoder_enabled: cfg.decoder_enabled,
        }
    }

    /// Start of a round: note the keyed line.
    pub fn note_key_state(&mut self, keyed: bool)
        ensures
            final(self)@ == (UiTaskView { ui: old(self)@.ui.key_noted(keyed), ..old(self)@ }),
            final(self)@ == old(self)@.key_noted(keyed),
    {
        self.ui.note_key_state(keyed);
    }

    /// Handle the button events of a round.
    pub fn on_buttons(&mut self, events: &[ButtonEvent], cfg: &mut KeyerConfig) -> (edits: Edits)
        ensures
            final(self)@ == old(self)@.after_buttons(*old(cfg), events@),
            *final(cfg) == pressed_all(old(self)@.ui, *old(cfg), events@).1,
            edits.save == (events@.len() > 0 && pressed_all(
                old(self)@.ui,
                *old(cfg),
                events@,
            ).0.config_changed),
            edits.volume == steps_volume(old(self)@.ui, *old(cfg), events@),
            edits == old(self)@.edits(*old(cfg), events@),
    {
        let mut volume = false;
        if events.len() == 0 {
            return Edits { save: false, volume };
        }
        let ghost u = self@.ui;
        let ghost before = *cfg;
        let mut i: usize = 0;
        while i < events.len()
            invariant
                i <= events.len(),
                u == old(self)@.ui,
                before == *old(cfg),
                (self@.ui, *cfg) == pressed_all(u, before, events@.take(i as int)),
                self@ == (UiTaskView { ui: self@.ui, ..old(self)@ }),
                volume == exists|k: int|
                    0 <= k < i && (#[trigger] pressed_all(u, before, events@.take(k)).0.steps(
                        events@[k],
                    ) matches Some((item, _)) && item == MenuItem::SidetoneVolume),
            decreases events.len() - i,
        {
            let ev = events[i];
            assert(events@.take(i + 1).drop_last() =~= events@.take(i as int));
            if let Some((item, _)) = self.ui.steps_setting(ev) {
                if item == MenuItem::SidetoneVolume {
                    volume = true;
                }
            }
            let _ = self.ui.on_button(ev, cfg);
            i = i + 1;
        }
        assert(events@.take(i as int) =~= events@);
        let save = self.ui.take_config_changed();
        Edits { save, volume }
    }

    /// The speed to poll the decoder at, when it is on.
    pub fn decoder_poll(&self) -> (wpm: Option<u8>)
        ensures
            wpm == (if self@.decoder_enabled {
                Some(self@.decoder_wpm)
            } else {
                None
            }),
            wpm == self@.polls_at(),
    {
        if self.decoder_enabled {
            Some(self.decoder_wpm)
        } else {
            None
        }
    }

    /// The decoder's text after the poll.
    pub fn note_decoded(&mut self, text: &[u8])
        ensures
            final(self)@ == (UiTaskView { ui: old(self)@.ui.decoded_noted(text@), ..old(self)@ }),
            final(self)@ == old(self)@.decoded_noted(text@),
    {
        self.ui.note_decoded(text);
    }

    /// Whether the round has to draw: only then are the settings needed.
    pub fn is_dirty(&self) -> (dirty: bool)
        ensures
            dirty == self@.ui.dirty,
    {
        self.ui.is_dirty()
    }

    /// End of a round: the rows to draw on a cleared display, if anything on
    /// the screen changed. Remembers the decoder's settings.
    pub fn draw(&mut self, cfg: &KeyerConfig) -> (rows: Option<Vec<TextRow>>)
        ensures
            final(self)@ == old(self)@.drawn(*cfg),
            rows is Some <==> old(self)@.ui.dirty,
            rows matches Some(r) ==> crate::screens::rows_view(r@) == crate::ui::frame(
                old(self)@.ui,
                *cfg,
            ),
    {
        if !self.ui.is_dirty() {
            return None;
        }
        self.decoder_wpm = cfg.speed_wpm;
        self.decoder_enabled = cfg.decoder_enabled;
        self.ui.render(cfg)
    }
}

/// The menu stays well formed through any presses.
pub proof fn lemma_pressed_all_wf(u: UiView, cfg: KeyerConfig, events: Seq<ButtonEvent>)
    requires
        u.wf(),
    ensures
        pressed_all(u, cfg, events).0.wf(),
    decreases events.len(),
{
    if events.len() > 0 {
        lemma_pressed_all_wf(u, cfg, events.drop_last());
        let before = pressed_all(u, cfg, events.drop_last()).0;
        crate::ui::lemma_pressed_wf(before, events.last());
    }
}

/// A save is asked for once per batch of presses, and exactly when one of
/// them stepped a setting; without one the settings are as they were.
pub proof fn law_save_iff_edited(t: UiTaskView, cfg: KeyerConfig, events: Seq<ButtonEvent>)
    requires
        t.settled(),
    ensures
        t.after_buttons(cfg, events).settled(),
        pressed_all(t.ui, cfg, events).0.config_changed <==> exists|i: int|
            0 <= i < events.len() && #[trigger] pressed_all(t.ui, cfg, events.take(i)).0.steps(
                events[i],
            ) is Some,
        !pressed_all(t.ui, cfg, events).0.config_changed ==> pressed_all(t.ui, cfg, events).1
            == cfg,
    decreases events.len(),
{
    lemma_pressed_all_wf(t.ui, cfg, events);
    if events.len() > 0 {
        let last = events.len() - 1;
        let rest = events.drop_last();
        assert(rest =~= events.take(last));
        law_save_iff_edited(t, cfg, rest);
        crate::ui::law_edits_are_flagged(
            pressed_all(t.ui, cfg, rest).0,
            pressed_all(t.ui, cfg, rest).1,
            events[last],
        );
        assert forall|i: int| 0 <= i < last implies rest.take(i) == #[trigger] events.take(i) by {
            assert(rest.take(i) =~= events.take(i));
        }
        if pressed_all(t.ui, cfg, events).0.config_changed {
            if pressed_all(t.ui, cfg, rest).0.steps(events[last]) is Some {
                assert(pressed_all(t.ui, cfg, events.take(last)).0.steps(events[last]) is Some);
            } else {
                let i = choose|i: int|
                    0 <= i < rest.len() && #[trigger] pressed_all(t.ui, cfg, rest.take(i)).0.steps(
                        rest[i],
                    ) is Some;
                assert(rest.take(i) == events.take(i));
                assert(pressed_all(t.ui, cfg, events.take(i)).0.steps(events[i]) is Some);
            }
        }
        if exists|i: int|
            0 <= i < events.len() && #[trigger] pressed_all(t.ui, cfg, events.take(i)).0.steps(
                events[i],
            ) is Some {
            let i = choose|i: int|
                0 <= i < events.len() && #[trigger] pressed_all(
                    t.ui,
                    cfg,
                    events.take(i),
                ).0.steps(events[i]) is Some;
            if i < last {
                assert(rest.take(i) == events.take(i));
                assert(pressed_all(t.ui, cfg, rest.take(i)).0.steps(rest[i]) is Some);
            }
        }
    }
}

/// The decoder follows the settings: if the remembered settings are current
/// before a round, they are current after it, whatever was pressed.
pub proof fn law_decoder_follows_settings(
    t: UiTaskView,
    cfg: KeyerConfig,
    events: Seq<ButtonEvent>,
)
    requires
        t.settled(),
        t.remembers(cfg),
    ensures
        t.after_buttons(cfg, events).drawn(pressed_all(t.ui, cfg, events).1).remembers(
            pressed_all(t.ui, cfg, events).1,
        ),
{
    law_save_iff_edited(t, cfg, events);
    lemma_edits_are_dirty(t.ui, cfg, events);
}

/// A flagged edit is always drawn.
proof fn lemma_edits_are_dirty(u: UiView, cfg: KeyerConfig, events: Seq<ButtonEvent>)
    requires
        !u.config_changed,
    ensures
        pressed_all(u, cfg, events).0.config_changed ==> pressed_all(u, cfg, events).0.dirty,
    decreases events.len(),
{
    if events.len() > 0 {
        lemma_edits_are_dirty(u, cfg, events.drop_last());
    }
}

/// Presses are handled one after the other, none left out: some presses and
/// then some more are the same as all of them at once, and a single press does
/// what that press does.
pub proof fn law_presses_are_handled_in_turn(
    u: UiView,
    cfg: KeyerConfig,
    a: Seq<ButtonEvent>,
    b: Seq<ButtonEvent>,
    ev: ButtonEvent,
)
    ensures
        pressed_all(u, cfg, a + b) == pressed_all(
            pressed_all(u, cfg, a).0,
            pressed_all(u, cfg, a).1,
            b,
        ),
        pressed_all(u, cfg, seq![ev]) == (
            u.pressed(ev),
            crate::ui::config_pressed(u, cfg, ev),
        ),
        pressed_all(u, cfg, Seq::<ButtonEvent>::empty()) == (u, cfg),
    decreases b.len(),
{
    assert(seq![ev].drop_last() =~= Seq::<ButtonEvent>::empty());
    reveal_with_fuel(pressed_all, 2);
    if b.len() == 0 {
        assert(a + b =~= a);
    } else {
        law_presses_are_handled_in_turn(u, cfg, a, b.drop_last(), ev);
        assert((a + b).drop_last() =~= a + b.drop_last());
    }
}

/// The button presses of a round leave the UI where the presses lead, with the
/// edits reported, and leave what the decoder is polled with alone.
pub proof fn law_round_ends_where_presses_lead(
    t: UiTaskView,
    cfg: KeyerConfig,
    events: Seq<ButtonEvent>,
)
    requires
        t.settled(),
    ensures
        ({
            let after = t.after_buttons(cfg, events);
            let u = pressed_all(t.ui, cfg, events).0;
            &&& after.ui.screen == u.screen
            &&& after.ui.dirty == u.dirty
            &&& after.ui.decoded == t.ui.decoded
            &&& after.ui.last_key_indicator == t.ui.last_key_indicator
            &&& !after.ui.config_changed
            &&& after.decoder_wpm == t.decoder_wpm
            &&& after.decoder_enabled == t.decoder_enabled
        }),
    decreases events.len(),
{
    if events.len() > 0 {
        law_round_ends_where_presses_lead(t, cfg, events.drop_last());
    }
}

/// Drawing leaves nothing to draw, and takes the decoder's speed and switch
/// from the settings that are drawn; when there is nothing to draw nothing
/// changes.
pub proof fn law_drawing_takes_decoder_settings(t: UiTaskView, cfg: KeyerConfig)
    ensures
        !t.drawn(cfg).ui.dirty,
        t.ui.dirty ==> t.drawn(cfg).decoder_wpm == cfg.speed_wpm,
        t.ui.dirty ==> t.drawn(cfg).decoder_enabled == cfg.decoder_enabled,
        !t.ui.dirty ==> t.drawn(cfg) == t,
        t.drawn(cfg).ui.screen == t.ui.screen,
        t.drawn(cfg).ui.config_changed == t.ui.config_changed,
        t.drawn(cfg).ui.last_key_indicator == t.ui.last_key_indicator,
        t.drawn(cfg).ui.decoded == t.ui.decoded,
        t.remembers(cfg) <==> t.decoder_wpm == cfg.speed_wpm && t.decoder_enabled
            == cfg.decoder_enabled,
{
}

/// The volume changes only in a round that reports it as set, and a round
/// that reports it leaves it between zero and a hundred percent.
pub proof fn law_volume_edits_are_reported(
    u: UiView,
    cfg: KeyerConfig,
    events: Seq<ButtonEvent>,
)
    ensures
        pressed_all(u, cfg, events).1.sidetone_volume_pct != cfg.sidetone_volume_pct
            ==> steps_volume(u, cfg, events),
        steps_volume(u, cfg, events) ==> 0 <= pressed_all(u, cfg, events).1.sidetone_volume_pct
            <= 100,
    decreases events.len(),
{
    if events.len() > 0 {
        let last = events.len() - 1;
        let prev = events.drop_last();
        law_volume_edits_are_reported(u, cfg, prev);
        assert(prev =~= events.take(last));
        let (before, before_cfg) = pressed_all(u, cfg, prev);
        if steps_volume(u, cfg, prev) {
            let i = choose|i: int|
                0 <= i < prev.len() && (#[trigger] pressed_all(u, cfg, prev.take(i)).0.steps(
                    prev[i],
                ) matches Some((item, _)) && item == MenuItem::SidetoneVolume);
            assert(prev.take(i) =~= events.take(i));
            assert(pressed_all(u, cfg, events.take(i)).0.steps(events[i]) matches Some((item, _))
                && item == MenuItem::SidetoneVolume);
        }
        if before.steps(events[last]) matches Some((item, _)) && item == MenuItem::SidetoneVolume {
            assert(pressed_all(u, cfg, events.take(last)).0.steps(events[last]) matches Some(
                (item, _),
            ) && item == MenuItem::SidetoneVolume);
        } else if steps_volume(u, cfg, events) {
            let i = choose|i: int|
                0 <= i < events.len() && (#[trigger] pressed_all(u, cfg, events.take(i)).0.steps(
                    events[i],
                ) matches Some((item, _)) && item == MenuItem::SidetoneVolume);
            assert(i < last);
            assert(prev.take(i) =~= events.take(i));
            assert(pressed_all(u, cfg, prev.take(i)).0.steps(prev[i]) matches Some((item, _))
                && item == MenuItem::SidetoneVolume);
        }
    }
}

/// The volume is reported as set exactly when UP or DOWN was pressed on the
/// edit screen of the volume, the fifth item of the menu, at any of the
/// presses.
pub proof fn law_volume_is_set_on_its_edit_screen(
    u: UiView,
    cfg: KeyerConfig,
    events: Seq<ButtonEvent>,
    ev: ButtonEvent,
)
    requires
        u.wf(),
    ensures
        !steps_volume(u, cfg, Seq::<ButtonEvent>::empty()),
        steps_volume(u, cfg, events.push(ev)) <==> steps_volume(u, cfg, events) || (pressed_all(
            u,
            cfg,
            events,
        ).0.screen == (crate::ui::Screen::Edit { selected: 4 }) && (ev == ButtonEvent::Up || ev
            == ButtonEvent::Down)),
{
    let all = events.push(ev);
    let last = events.len() as int;
    lemma_pressed_all_wf(u, cfg, events);
    assert(all.take(last) =~= events);
    let now = pressed_all(u, cfg, events).0;
    match now.screen {
        crate::ui::Screen::Main => {},
        crate::ui::Screen::Menu { selected } => {
            crate::ui::law_menu_order(selected as int);
        },
        crate::ui::Screen::Edit { selected } => {
            crate::ui::law_menu_order(selected as int);
        },
    }
    if steps_volume(u, cfg, events) {
        let i = choose|i: int|
            0 <= i < events.len() && (#[trigger] pressed_all(u, cfg, events.take(i)).0.steps(
                events[i],
            ) matches Some((item, _)) && item == MenuItem::SidetoneVolume);
        assert(all.take(i) =~= events.take(i));
        assert(pressed_all(u, cfg, all.take(i)).0.steps(all[i]) matches Some((item, _)) && item
            == MenuItem::SidetoneVolume);
    }
    if steps_volume(u, cfg, all) {
        let i = choose|i: int|
            0 <= i < all.len() && (#[trigger] pressed_all(u, cfg, all.take(i)).0.steps(
                all[i],
            ) matches Some((item, _)) && item == MenuItem::SidetoneVolume);
        if i < last {
            assert(all.take(i) =~= events.take(i));
            assert(pressed_all(u, cfg, events.take(i)).0.steps(events[i]) matches Some((item, _))
                && item == MenuItem::SidetoneVolume);
        }
    }
    if now.steps(ev) matches Some((item, _)) && item == MenuItem::SidetoneVolume {
        assert(pressed_all(u, cfg, all.take(last)).0.steps(all[last]) matches Some((item, _))
            && item == MenuItem::SidetoneVolume);
    }
}

/// The decoder is polled at the speed of the settings that were drawn last,
/// and exactly if it is on in them; before the first drawing at that of the
/// settings at boot.
pub proof fn law_decoder_is_polled_as_set(t: UiTaskView, cfg: KeyerConfig)
    ensures
        ({
            let set = if cfg.decoder_enabled { Some(cfg.speed_wpm) } else { None::<u8> };
            &&& UiTaskView::initial(cfg).polls_at() == set
            &&& t.ui.dirty ==> t.drawn(cfg).polls_at() == set
            &&& t.remembers(cfg) ==> t.polls_at() == set
        }),
        UiTaskView::initial(cfg).ui == UiView::initial(),
        UiTaskView::initial(cfg).settled(),
{
}

/// A press adds to what a round reports: the settings have to be saved if it,
/// or one before it, steps a setting, and the volume was set if it, or one
/// before it, steps the volume. Without a press nothing is reported.
pub proof fn law_edits_add_up(
    t: UiTaskView,
    cfg: KeyerConfig,
    events: Seq<ButtonEvent>,
    ev: ButtonEvent,
)
    requires
        t.settled(),
    ensures
        ({
            let none = t.edits(cfg, Seq::<ButtonEvent>::empty());
            let some = t.edits(cfg, events);
            let more = t.edits(cfg, events.push(ev));
            let now = pressed_all(t.ui, cfg, events).0;
            &&& !none.save && !none.volume
            &&& more.save <==> some.save || now.steps(ev) is Some
            &&& more.volume <==> some.volume || (now.screen == (crate::ui::Screen::Edit {
                selected: 4,
            }) && (ev == ButtonEvent::Up || ev == ButtonEvent::Down))
        }),
{
    let now = pressed_all(t.ui, cfg, events).0;
    assert(events.push(ev).drop_last() =~= events);
    law_volume_is_set_on_its_edit_screen(t.ui, cfg, events, ev);
    crate::ui::law_edits_are_flagged(now, pressed_all(t.ui, cfg, events).1, ev);
    law_save_iff_edited(t, cfg, events);
}

/// Notes reach the UI and change nothing else of the task.
pub proof fn law_notes_reach_the_ui(t: UiTaskView, keyed: bool, text: Seq<u8>)
    requires
        t.ui.wf(),
    ensures
        t.key_noted(keyed).ui.last_key_indicator == keyed,
        t.key_noted(keyed).polls_at() == t.polls_at(),
        text.len() <= 32 ==> t.decoded_noted(text).ui.decoded == text,
        t.decoded_noted(text).polls_at() == t.polls_at(),
        t.key_noted(keyed).ui == t.ui.key_noted(keyed),
        t.decoded_noted(text).ui == t.ui.decoded_noted(text),
{
    crate::ui::law_notes_are_remembered(t.ui, keyed, text);
}

/// A button that is held for two rounds, 50 ms, is seen as pressed, whatever
/// it bounced before.
pub proof fn law_press_takes_two_rounds(b: crate::buttons::ButtonView, head: Seq<bool>)
    requires
        b.wf(),
        b.debouncer.threshold == 2,
        !b.polled_all(head).debouncer.state,
    ensures
        b.polled_all(head).rises(true) || b.polled_all(head.push(true)).rises(true),
        2 * ROUND_MS == 50,
{
    let tail = seq![true, true];
    crate::buttons::law_held_press_is_seen(b, head, tail);
    let k = choose|k: int|
        0 <= k < tail.len() && b.polled_all(head + #[trigger] tail.take(k)).rises(tail[k]);
    assert(head + tail.take(0) =~= head);
    assert(head + tail.take(1) =~= head.push(true));
    assert(k == 0 || k == 1);
}

} // verus!
