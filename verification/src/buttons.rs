//! Push-buttons.
//!
//! Four buttons (UP, DOWN, OK, BACK), scanned by the UI task at about 20 ms,
//! which is comfortably above mechanical switch bounce. A one-shot edge
//! detector makes a single press a single event however long it is held.

use vstd::prelude::*;

use crate::paddle::{Debouncer, DebouncerView};

verus! {

#[derive(Debug, Clone, Copy, PartialEq, Eq, Structural)]
pub enum ButtonEvent {
    Up,
    Down,
    Okay,
    Back,
}

/// Samples in a row that it takes to accept a press or a release.
pub const BUTTON_SAMPLES: u8 = 2;

/// What a button remembers between two polls.
pub struct ButtonView {
    pub debouncer: DebouncerView,
    /// The debounced state at the previous poll.
    pub last_pressed: bool,
}

impl ButtonView {
    /// A button that has never been pressed.
    pub open spec fn initial() -> ButtonView {
        ButtonView {
            debouncer: DebouncerView {
                state: false,
                count: 0,
                threshold: BUTTON_SAMPLES as nat,
            },
            last_pressed: false,
        }
    }

    /// The latest debounced state is the one that was remembered.
    pub open spec fn wf(self) -> bool {
        &&& self.debouncer.wf()
        &&& self.last_pressed == self.debouncer.state
    }

    /// The button after one more raw sample.
    pub open spec fn polled(self, raw: bool) -> ButtonView {
        let d = self.debouncer.after(raw);
        ButtonView { debouncer: d, last_pressed: d.state }
    }

    /// The poll of this sample is the rising edge of a press.
    pub open spec fn rises(self, raw: bool) -> bool {
        self.debouncer.after(raw).state && !self.last_pressed
    }

    /// The button after a whole sequence of raw samples, oldest first.
    pub open spec fn polled_all(self, raw: Seq<bool>) -> ButtonView
        decreases raw.len(),
    {
        if raw.len() == 0 {
            self
        } else {
            self.polled_all(raw.drop_last()).polled(raw.last())
        }
    }
}

/// One push-button.
pub struct ButtonInput {
    debouncer: Debouncer,
    last_pressed: bool,
}

impl View for ButtonInput {
    type V = ButtonView;

    closed spec fn view(&self) -> ButtonView {
        ButtonView { debouncer: self.debouncer@, last_pressed: self.last_pressed }
    }
}

impl ButtonInput {
    /// A released button.
    pub fn new() -> (button: Self)
        ensures
            button@ == ButtonView::initial(),
            button@.wf(),
    {
        ButtonInput { debouncer: Debouncer::new(false, BUTTON_SAMPLES), last_pressed: false }
    }

    /// Feed the button as just read. Returns `true` once on the rising edge
    /// of a press (released, then pressed), otherwise `false`.
    pub fn poll_rising_edge(&mut self, raw: bool) -> (edge: bool)
        ensures
            final(self)@ == old(self)@.polled(raw),
            edge == old(self)@.rises(raw),
            final(self)@.wf(),
    {
        let now_pressed = self.debouncer.update(raw);
        let edge = now_pressed && !self.last_pressed;
        self.last_pressed = now_pressed;
        edge
    }
}

/// The four buttons as just read; `true` is pressed.
#[derive(Debug, Clone, Copy, PartialEq, Eq, Structural)]
pub struct PanelSample {
    pub up: bool,
    pub down: bool,
    pub ok: bool,
    pub back: bool,
}

/// The button panel.
pub struct ButtonPanel {
    pub up: ButtonInput,
    pub down: ButtonInput,
    pub ok: ButtonInput,
    pub back: ButtonInput,
}

/// One event if there is an edge, none otherwise.
pub open spec fn event_if(edge: bool, event: ButtonEvent) -> Seq<ButtonEvent> {
    if edge {
        seq![event]
    } else {
        Seq::empty()
    }
}

impl ButtonPanel {
    /// The events of one poll: the rising edges, always in this order.
    pub open spec fn events(self, raw: PanelSample) -> Seq<ButtonEvent> {
        event_if(self.up@.rises(raw.up), ButtonEvent::Up) + event_if(
            self.down@.rises(raw.down),
            ButtonEvent::Down,
        ) + event_if(self.ok@.rises(raw.ok), ButtonEvent::Okay) + event_if(
            self.back@.rises(raw.back),
            ButtonEvent::Back,
        )
    }

    /// Drain all rising edges from this poll into the provided buffer.
    /// Returns the slice of events actually written; the rest of the buffer is
    /// left alone.
    pub fn poll<'a>(&mut self, raw: PanelSample, buf: &'a mut [ButtonEvent; 4]) -> (events:
        &'a [ButtonEvent])
        ensures
            final(self).up@ == old(self).up@.polled(raw.up),
            final(self).down@ == old(self).down@.polled(raw.down),
            final(self).ok@ == old(self).ok@.polled(raw.ok),
            final(self).back@ == old(self).back@.polled(raw.back),
            events@ == old(self).events(raw),
            final(buf)@ == events@ + old(buf)@.skip(events@.len() as int),
    {
        let mut n: usize = 0;
        if self.up.poll_rising_edge(raw.up) {
            buf[n] = ButtonEvent::Up;
            n = n + 1;
        }
        if self.down.poll_rising_edge(raw.down) {
            buf[n] = ButtonEvent::Down;
            n = n + 1;
        }
        if self.ok.poll_rising_edge(raw.ok) {
            buf[n] = ButtonEvent::Okay;
            n = n + 1;
        }
        if self.back.poll_rising_edge(raw.back) {
            buf[n] = ButtonEvent::Back;
            n = n + 1;
        }
        assert(buf@.take(n as int) =~= old(self).events(raw));
        assert(buf@ =~= buf@.take(n as int) + old(buf)@.skip(n as int));
        vstd::slice::slice_subrange(vstd::array::array_as_slice(buf), 0, n)
    }
}

/// The button is its debouncer: what it remembers is the debounced state.
pub proof fn lemma_polled_all(b: ButtonView, raw: Seq<bool>)
    requires
        b.wf(),
    ensures
        b.polled_all(raw).debouncer == b.debouncer.after_all(raw),
        b.polled_all(raw).wf(),
    decreases raw.len(),
{
    if raw.len() > 0 {
        lemma_polled_all(b, raw.drop_last());
    }
}

/// A single press is a single event, however long it is held: between two
/// rising edges the button has read as released at some poll.
pub proof fn law_one_event_per_press(b: ButtonView, raw: Seq<bool>, i: int, j: int)
    requires
        b.wf(),
        0 <= i < j < raw.len(),
        b.polled_all(raw.take(i)).rises(raw[i]),
        b.polled_all(raw.take(j)).rises(raw[j]),
    ensures
        exists|k: int| i < k < j && !b.polled_all(#[trigger] raw.take(k + 1)).debouncer.state,
    decreases j - i,
{
    // The poll before `j` left the button released.
    let before = raw.take(j);
    assert(raw.take(i + 1).drop_last() =~= raw.take(i));
    assert(raw.take(i + 1).last() == raw[i]);
    lemma_polled_all(b, raw.take(i));
    lemma_polled_all(b, before);
    assert(b.polled_all(raw.take(i + 1)).debouncer.state);
    assert(!b.polled_all(before).debouncer.state);
    if j == i + 1 {
        assert(before =~= raw.take(i + 1));
        assert(false);
    }
    assert(before =~= raw.take((j - 1) + 1));
}

/// A press that is held for the debounce time is seen: if the button was
/// released before and the last samples all read pressed, some poll among
/// them was a rising edge.
pub proof fn law_held_press_is_seen(b: ButtonView, head: Seq<bool>, tail: Seq<bool>)
    requires
        b.wf(),
        b.debouncer.threshold == BUTTON_SAMPLES,
        !b.polled_all(head).debouncer.state,
        tail.len() >= BUTTON_SAMPLES,
        forall|i: int| 0 <= i < tail.len() ==> tail[i],
    ensures
        exists|k: int|
            0 <= k < tail.len() && b.polled_all(head + #[trigger] tail.take(k)).rises(tail[k]),
{
    let raw = head + tail;
    lemma_polled_all(b, raw);
    crate::paddle::law_steady_input_is_accepted(b.debouncer, raw, true);
    lemma_first_rise(b, head, tail);
}

/// Between a released and a pressed reading there is a rising edge.
proof fn lemma_first_rise(b: ButtonView, head: Seq<bool>, tail: Seq<bool>)
    requires
        b.wf(),
        !b.polled_all(head).debouncer.state,
        b.polled_all(head + tail).debouncer.state,
    ensures
        exists|k: int|
            0 <= k < tail.len() && b.polled_all(head + #[trigger] tail.take(k)).rises(tail[k]),
    decreases tail.len(),
{
    if tail.len() == 0 {
        assert(head + tail =~= head);
    } else {
        let n = tail.len() - 1;
        let prev = tail.drop_last();
        assert(prev =~= tail.take(n));
        assert((head + tail).drop_last() =~= head + prev);
        assert((head + tail).last() == tail[n]);
        lemma_polled_all(b, head + prev);
        if b.polled_all(head + prev).debouncer.state {
            lemma_first_rise(b, head, prev);
            let k = choose|k: int|
                0 <= k < prev.len() && b.polled_all(head + #[trigger] prev.take(k)).rises(
                    prev[k],
                );
            assert(prev.take(k) =~= tail.take(k));
            assert(b.polled_all(head + tail.take(k)).rises(tail[k]));
        } else {
            assert(b.polled_all(head + tail.take(n)).rises(tail[n]));
        }
    }
}

/// A poll is a rising edge exactly when the debounced button goes from
/// released to pressed with it, and the debounced button is the raw samples
/// through the debouncer, two in a row to accept a change.
pub proof fn law_edge_is_the_start_of_a_press(b: ButtonView, raw: Seq<bool>, sample: bool)
    requires
        b.wf(),
    ensures
        ({
            let before = b.debouncer.after_all(raw).state;
            let after = b.debouncer.after_all(raw.push(sample)).state;
            b.polled_all(raw).rises(sample) <==> !before && after
        }),
        BUTTON_SAMPLES == 2,
        ButtonView::initial().debouncer.threshold == 2,
        ButtonView::initial().wf(),
        !ButtonView::initial().debouncer.state,
        ButtonView::initial().debouncer.count == 0,
{
    lemma_polled_all(b, raw);
    assert(raw.push(sample).drop_last() =~= raw);
}

/// A poll of the panel reports every button whose edge it is and no other,
/// each once, in the order UP, DOWN, OK, BACK, whatever the other buttons do.
pub proof fn law_panel_reports_every_edge(p: ButtonPanel, raw: PanelSample, i: int, j: int)
    ensures
        p.events(raw).contains(ButtonEvent::Up) <==> p.up@.rises(raw.up),
        p.events(raw).contains(ButtonEvent::Down) <==> p.down@.rises(raw.down),
        p.events(raw).contains(ButtonEvent::Okay) <==> p.ok@.rises(raw.ok),
        p.events(raw).contains(ButtonEvent::Back) <==> p.back@.rises(raw.back),
        0 <= i < j < p.events(raw).len() ==> place(p.events(raw)[i]) < place(p.events(raw)[j]),
{
    let events = p.events(raw);
    let n_up: int = if p.up@.rises(raw.up) { 1 } else { 0 };
    let n_down: int = if p.down@.rises(raw.down) { 1 } else { 0 };
    let n_ok: int = if p.ok@.rises(raw.ok) { 1 } else { 0 };
    if p.up@.rises(raw.up) {
        assert(events[0] == ButtonEvent::Up);
    }
    if p.down@.rises(raw.down) {
        assert(events[n_up] == ButtonEvent::Down);
    }
    if p.ok@.rises(raw.ok) {
        assert(events[n_up + n_down] == ButtonEvent::Okay);
    }
    if p.back@.rises(raw.back) {
        assert(events[n_up + n_down + n_ok] == ButtonEvent::Back);
    }
}

/// The place of a button on the panel.
pub open spec fn place(event: ButtonEvent) -> int {
    match event {
        ButtonEvent::Up => 0,
        ButtonEvent::Down => 1,
        ButtonEvent::Okay => 2,
        ButtonEvent::Back => 3,
    }
}

} // verus!
