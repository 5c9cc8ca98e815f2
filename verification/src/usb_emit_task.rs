//! USB emit task: turns keyer snapshots into MIDI and CDC SERIAL_STATE
//! transitions.
//!
//! Snapshots arrive latest-wins, so some may be missed. Each transport
//! remembers the two lines that the host was last told. A failed write, of a
//! release as well as of an update, leaves that memory alone, and the next
//! snapshot emits the difference again.
//!
//! Wire contract:
//!
//! * Paddle style: two MIDI notes (60 = dit, 62 = dah) and two serial bits
//!   (DCD = dit, DSR = dah) track paddle press and release.
//! * Keyed style: note 60 and DCD both carry the engine's keyed line. Note 62
//!   and DSR stay off.

use vstd::prelude::*;

use crate::config::UsbEmitStyle;
use crate::shared::UsbSnapshot;

verus! {

pub const MIDI_NOTE_DIT: u8 = 60;

pub const MIDI_NOTE_DAH: u8 = 62;

pub const MIDI_NOTE_ON: u8 = 0x90;

pub const MIDI_NOTE_OFF: u8 = 0x80;

pub const MIDI_CIN_NOTE_ON: u8 = 0x09;

pub const MIDI_CIN_NOTE_OFF: u8 = 0x08;

/// The two host-visible lines: note 60 or DCD first, note 62 or DSR second.
#[derive(Debug, Clone, Copy, PartialEq, Eq, Structural)]
pub struct Lines {
    pub first: bool,
    pub second: bool,
}

impl Lines {
    /// Both lines off.
    pub open spec fn off() -> Lines {
        Lines { first: false, second: false }
    }
}

/// The lines that a snapshot asks the host to see.
pub open spec fn wanted(snap: UsbSnapshot) -> Lines {
    match snap.emit_style {
        UsbEmitStyle::Paddle => Lines { first: snap.dit_pressed, second: snap.dah_pressed },
        UsbEmitStyle::Keyed => Lines { first: snap.live_key, second: false },
    }
}

/// What a transport remembers after a write of `lines` that went through or
/// not; `told` is what it remembered before, if there is such a transport.
pub open spec fn told_after(told: Option<Lines>, lines: Lines, ok: bool) -> Option<Lines> {
    if told is Some && ok {
        Some(lines)
    } else {
        told
    }
}

/// The four-byte USB-MIDI event that turns `note` on or off.
pub open spec fn note_event(note: u8, on: bool) -> Seq<u8> {
    if on {
        seq![MIDI_CIN_NOTE_ON, MIDI_NOTE_ON, note, 0x7F]
    } else {
        seq![MIDI_CIN_NOTE_OFF, MIDI_NOTE_OFF, note, 0x00]
    }
}

/// The MIDI packet that takes a host from the lines `from` to the lines `to`:
/// one event per line that differs, dit first.
pub open spec fn midi_diff(from: Lines, to: Lines) -> Seq<u8> {
    (if from.first != to.first {
        note_event(MIDI_NOTE_DIT, to.first)
    } else {
        Seq::empty()
    }) + (if from.second != to.second {
        note_event(MIDI_NOTE_DAH, to.second)
    } else {
        Seq::empty()
    })
}

/// The MIDI packet that turns both notes off.
pub open spec fn midi_release() -> Seq<u8> {
    note_event(MIDI_NOTE_DIT, false) + note_event(MIDI_NOTE_DAH, false)
}

/// What has to be written before the updates of a snapshot, in the order of
/// the fields.
#[derive(Debug)]
pub struct ReleasePlan {
    /// Clear both serial bits.
    pub serial: bool,
    /// Turn both notes off with this packet.
    pub midi: Option<Vec<u8>>,
}

/// What has to be written so that the host sees a snapshot. The two writes
/// are independent of each other.
#[derive(Debug)]
pub struct UpdatePlan {
    /// Serial bits (DCD, DSR) to report.
    pub serial: Option<Lines>,
    /// MIDI packet to write.
    pub midi: Option<Vec<u8>>,
}

/// The USB transports that the emit task owns, and the lines that the host
/// was last told over each.
///
/// For every snapshot: `run`, its releases and how each went, then `update`,
/// its writes and how each went.
#[derive(Debug, Clone, Copy, PartialEq, Eq, Structural)]
pub struct UsbEmitApp {
    pub serial: Option<Lines>,
    pub midi: Option<Lines>,
    pub prev_style: Option<UsbEmitStyle>,
}

impl UsbEmitApp {
    /// An emit task with the given transports, before its first snapshot.
    pub fn new(has_serial: bool, has_midi: bool) -> (app: Self)
        ensures
            app.serial == (if has_serial { Some(Lines::off()) } else { None }),
            app.midi == (if has_midi { Some(Lines::off()) } else { None }),
            app.prev_style == None::<UsbEmitStyle>,
            app == UsbEmitApp::initial(has_serial, has_midi),
    {
        let off = Lines { first: false, second: false };
        UsbEmitApp {
            serial: if has_serial { Some(off) } else { None },
            midi: if has_midi { Some(off) } else { None },
            prev_style: None,
        }
    }

    /// The task before its first snapshot, with the given transports.
    pub open spec fn initial(has_serial: bool, has_midi: bool) -> UsbEmitApp {
        UsbEmitApp {
            serial: if has_serial { Some(Lines::off()) } else { None },
            midi: if has_midi { Some(Lines::off()) } else { None },
            prev_style: None,
        }
    }

    /// Both serial bits have to be cleared before the snapshot is shown.
    pub open spec fn releases_serial(self, snap: UsbSnapshot) -> bool {
        self.switches(snap) && self.serial is Some
    }

    /// Both notes have to be turned off before the snapshot is shown.
    pub open spec fn releases_midi(self, snap: UsbSnapshot) -> bool {
        self.switches(snap) && self.midi is Some
    }

    /// The serial bits to report for the snapshot, if any have to be.
    pub open spec fn serial_update(self, snap: UsbSnapshot) -> Option<Lines> {
        if self.needs_serial(snap) {
            Some(wanted(snap))
        } else {
            None
        }
    }

    /// The MIDI packet to write for the snapshot, if one has to be.
    pub open spec fn midi_update(self, snap: UsbSnapshot) -> Option<Seq<u8>> {
        if self.needs_midi(snap) {
            Some(midi_diff(self.midi->0, wanted(snap)))
        } else {
            None
        }
    }

    /// The snapshot brings another style than the one before.
    pub open spec fn switches(self, snap: UsbSnapshot) -> bool {
        self.prev_style != Some(snap.emit_style)
    }

    /// The task with the style of the snapshot in force. What the host was
    /// told is not touched.
    pub open spec fn switched(self, snap: UsbSnapshot) -> UsbEmitApp {
        UsbEmitApp { prev_style: Some(snap.emit_style), ..self }
    }

    /// The task after a serial release that went through or not.
    pub open spec fn after_serial_release(self, ok: bool) -> UsbEmitApp {
        UsbEmitApp { serial: told_after(self.serial, Lines::off(), ok), ..self }
    }

    /// The task after a MIDI release that went through or not.
    pub open spec fn after_midi_release(self, ok: bool) -> UsbEmitApp {
        UsbEmitApp { midi: told_after(self.midi, Lines::off(), ok), ..self }
    }

    /// The task after a serial update that went through or not.
    pub open spec fn after_serial_update(self, snap: UsbSnapshot, ok: bool) -> UsbEmitApp {
        UsbEmitApp { serial: told_after(self.serial, wanted(snap), ok), ..self }
    }

    /// The task after a MIDI update that went through or not.
    pub open spec fn after_midi_update(self, snap: UsbSnapshot, ok: bool) -> UsbEmitApp {
        UsbEmitApp { midi: told_after(self.midi, wanted(snap), ok), ..self }
    }

    /// The serial bits have to be reported for the snapshot.
    pub open spec fn needs_serial(self, snap: UsbSnapshot) -> bool {
        self.serial matches Some(told) && told != wanted(snap)
    }

    /// A MIDI packet has to be written for the snapshot.
    pub open spec fn needs_midi(self, snap: UsbSnapshot) -> bool {
        self.midi matches Some(told) && told != wanted(snap)
    }

    /// Take one snapshot and say what has to be released first.
    ///
    /// On a style switch every note and serial bit is released, so that the
    /// host sees nothing stuck from the previous style. How the releases went
    /// is reported with `serial_released` and `midi_released`.
    pub fn run(&mut self, snap: UsbSnapshot) -> (plan: ReleasePlan)
        ensures
            *final(self) == old(self).switched(snap),
            plan.serial <==> old(self).switches(snap) && old(self).serial is Some,
            plan.midi is Some <==> old(self).switches(snap) && old(self).midi is Some,
            plan.midi matches Some(p) ==> p@ == midi_release(),
            plan.serial == old(self).releases_serial(snap),
            plan.midi is Some <==> old(self).releases_midi(snap),
    {
        let switches = match self.prev_style {
            Some(style) => style != snap.emit_style,
            None => true,
        };
        self.prev_style = Some(snap.emit_style);
        let mut midi: Option<Vec<u8>> = None;
        if switches && self.midi.is_some() {
            let mut packet: Vec<u8> = Vec::new();
            push_note(&mut packet, MIDI_NOTE_DIT, false);
            push_note(&mut packet, MIDI_NOTE_DAH, false);
            assert(packet@ =~= midi_release());
            midi = Some(packet);
        }
        ReleasePlan { serial: switches && self.serial.is_some(), midi }
    }

    /// Record how the serial release went.
    pub fn serial_released(&mut self, ok: bool)
        ensures
            *final(self) == old(self).after_serial_release(ok),
    {
        if ok && self.serial.is_some() {
            self.serial = Some(Lines { first: false, second: false });
        }
    }

    /// Record how the MIDI release went.
    pub fn midi_released(&mut self, ok: bool)
        ensures
            *final(self) == old(self).after_midi_release(ok),
    {
        if ok && self.midi.is_some() {
            self.midi = Some(Lines { first: false, second: false });
        }
    }

    /// What has to be written so that the host sees the snapshot: on each
    /// transport the difference to what it was last told.
    pub fn update(&self, snap: UsbSnapshot) -> (plan: UpdatePlan)
        ensures
            plan.serial == (if self.needs_serial(snap) { Some(wanted(snap)) } else { None }),
            plan.midi is Some <==> self.needs_midi(snap),
            plan.midi matches Some(p) ==> p@ == midi_diff(self.midi->0, wanted(snap)),
            plan.serial == self.serial_update(snap),
            plan.midi is Some <==> self.midi_update(snap) is Some,
            plan.midi matches Some(p) ==> Some(p@) == self.midi_update(snap),
    {
        let lines = wanted_lines(snap);
        let mut serial: Option<Lines> = None;
        if let Some(told) = self.serial {
            if told != lines {
                serial = Some(lines);
            }
        }
        let mut midi: Option<Vec<u8>> = None;
        if let Some(told) = self.midi {
            if told != lines {
                midi = Some(midi_packet(told, lines));
            }
        }
        UpdatePlan { serial, midi }
    }

    /// Record how the serial update of `snap` went.
    pub fn serial_written(&mut self, snap: UsbSnapshot, ok: bool)
        ensures
            *final(self) == old(self).after_serial_update(snap, ok),
    {
        if ok && self.serial.is_some() {
            self.serial = Some(wanted_lines(snap));
        }
    }

    /// Record how the MIDI update of `snap` went.
    pub fn midi_written(&mut self, snap: UsbSnapshot, ok: bool)
        ensures
            *final(self) == old(self).after_midi_update(snap, ok),
    {
        if ok && self.midi.is_some() {
            self.midi = Some(wanted_lines(snap));
        }
    }
}

/// The lines that a snapshot asks the host to see.
fn wanted_lines(snap: UsbSnapshot) -> (lines: Lines)
    ensures
        lines == wanted(snap),
{
    match snap.emit_style {
        UsbEmitStyle::Paddle => Lines { first: snap.dit_pressed, second: snap.dah_pressed },
        UsbEmitStyle::Keyed => Lines { first: snap.live_key, second: false },
    }
}

/// Append a note event to a packet.
fn push_note(packet: &mut Vec<u8>, note: u8, on: bool)
    ensures
        final(packet)@ == old(packet)@ + note_event(note, on),
{
    if on {
        packet.push(MIDI_CIN_NOTE_ON);
        packet.push(MIDI_NOTE_ON);
        packet.push(note);
        packet.push(0x7F);
    } else {
        packet.push(MIDI_CIN_NOTE_OFF);
        packet.push(MIDI_NOTE_OFF);
        packet.push(note);
        packet.push(0x00);
    }
    assert(packet@ =~= old(packet)@ + note_event(note, on));
}

/// The MIDI packet that takes a host from one pair of lines to another.
fn midi_packet(from: Lines, to: Lines) -> (packet: Vec<u8>)
    ensures
        packet@ == midi_diff(from, to),
{
    let mut packet: Vec<u8> = Vec::new();
    if from.first != to.first {
        push_note(&mut packet, MIDI_NOTE_DIT, to.first);
    }
    if from.second != to.second {
        push_note(&mut packet, MIDI_NOTE_DAH, to.second);
    }
    assert(packet@ =~= midi_diff(from, to));
    packet
}

/// The notes that a host holds after one four-byte USB-MIDI event: note-on is
/// code 9 with status 0x90 and a velocity, note-off is code 8 with status
/// 0x80; dit is note 60 and dah is note 62.
pub open spec fn host_event(notes: Lines, event: Seq<u8>) -> Lines {
    let on = event[0] == 0x09 && event[1] == 0x90 && event[3] > 0;
    let off = event[0] == 0x08 && event[1] == 0x80;
    if (on || off) && event[2] == 60 {
        Lines { first: on, second: notes.second }
    } else if (on || off) && event[2] == 62 {
        Lines { first: notes.first, second: on }
    } else {
        notes
    }
}

/// The notes that a host holds after a packet of USB-MIDI events.
pub open spec fn host_notes(notes: Lines, packet: Seq<u8>) -> Lines
    decreases packet.len(),
{
    if packet.len() < 4 {
        notes
    } else {
        host_notes(host_event(notes, packet.take(4)), packet.skip(4))
    }
}

/// A host reads the events of a packet one after the other.
proof fn lemma_host_two_events(notes: Lines, a: Seq<u8>, b: Seq<u8>)
    requires
        a.len() == 4,
        b.len() == 4,
    ensures
        host_notes(notes, a) == host_event(notes, a),
        host_notes(notes, a + b) == host_event(host_event(notes, a), b),
        host_notes(notes, Seq::<u8>::empty() + b) == host_event(notes, b),
        host_notes(notes, a + Seq::<u8>::empty()) == host_event(notes, a),
{
    reveal_with_fuel(host_notes, 3);
    assert(a.take(4) =~= a);
    assert(b.take(4) =~= b);
    assert((a + b).take(4) =~= a);
    assert((a + b).skip(4) =~= b);
    assert(Seq::<u8>::empty() + b =~= b);
    assert(a + Seq::<u8>::empty() =~= a);
}

/// Whatever the host held before, a note named in an update packet ends up as
/// the update says, and the other note is left alone.
pub proof fn law_written_notes_are_right(host: Lines, from: Lines, to: Lines)
    ensures
        host_notes(host, midi_diff(from, to)) == (Lines {
            first: if from.first != to.first {
                to.first
            } else {
                host.first
            },
            second: if from.second != to.second {
                to.second
            } else {
                host.second
            },
        }),
{
    let a = note_event(MIDI_NOTE_DIT, to.first);
    let b = note_event(MIDI_NOTE_DAH, to.second);
    lemma_host_two_events(host, a, b);
    assert(host_notes(host, Seq::<u8>::empty() + Seq::<u8>::empty()) == host);
}

/// A release packet leaves nothing stuck, whatever the host held before.
pub proof fn law_release_leaves_nothing_stuck(host: Lines)
    ensures
        host_notes(host, midi_release()) == Lines::off(),
{
    lemma_host_two_events(
        host,
        note_event(MIDI_NOTE_DIT, false),
        note_event(MIDI_NOTE_DAH, false),
    );
}

/// A snapshot, and whether the release and the update that it causes on a
/// transport go through.
pub struct Round {
    pub snap: UsbSnapshot,
    pub release_ok: bool,
    pub update_ok: bool,
}

/// The task and the notes that the host holds, after the release of a round.
pub open spec fn midi_release_pass(app: UsbEmitApp, host: Lines, r: Round) -> (
    UsbEmitApp,
    Lines,
) {
    let next = app.switched(r.snap);
    if app.releases_midi(r.snap) {
        (
            next.after_midi_release(r.release_ok),
            if r.release_ok {
                host_notes(host, midi_release())
            } else {
                host
            },
        )
    } else {
        (next, host)
    }
}

/// The task and the notes that the host holds, after a whole round on the
/// MIDI side.
pub open spec fn midi_pass(app: UsbEmitApp, host: Lines, r: Round) -> (UsbEmitApp, Lines) {
    let (ready, h) = midi_release_pass(app, host, r);
    if ready.needs_midi(r.snap) {
        (
            ready.after_midi_update(r.snap, r.update_ok),
            if r.update_ok {
                host_notes(h, midi_diff(ready.midi->0, wanted(r.snap)))
            } else {
                h
            },
        )
    } else {
        (ready, h)
    }
}

/// A whole history of rounds on the MIDI side, oldest first.
pub open spec fn midi_passes(app: UsbEmitApp, host: Lines, history: Seq<Round>) -> (
    UsbEmitApp,
    Lines,
)
    decreases history.len(),
{
    if history.len() == 0 {
        (app, host)
    } else {
        let (a, h) = midi_passes(app, host, history.drop_last());
        midi_pass(a, h, history.last())
    }
}

/// The first round of a history releases everything, and that goes through.
pub open spec fn starts_released(app: UsbEmitApp, history: Seq<Round>) -> bool {
    history.len() > 0 && app.switches(history[0].snap) && history[0].release_ok
}

/// No edge is lost on MIDI: through any history of snapshots, failed releases
/// and failed updates, the host holds exactly the notes that the task believes
/// it holds, and whenever the latest update went through or was not needed,
/// these are the notes of the latest snapshot. Task and host have to be in step
/// at the start, or be brought in step by the first release.
pub proof fn law_midi_host_follows(app: UsbEmitApp, host: Lines, history: Seq<Round>)
    requires
        app.midi == Some(host) || (app.midi is Some && starts_released(app, history)),
    ensures
        ({
            let (a, h) = midi_passes(app, host, history);
            &&& a.midi == Some(h)
            &&& history.len() > 0 ==> a.prev_style == Some(history.last().snap.emit_style)
            &&& history.len() > 0 && history.last().update_ok ==> h == wanted(history.last().snap)
        }),
    decreases history.len(),
{
    if history.len() > 0 {
        let prev = history.drop_last();
        if prev.len() > 0 || app.midi == Some(host) {
            law_midi_host_follows(app, host, prev);
        }
        let (a, h) = midi_passes(app, host, prev);
        let r = history.last();
        law_release_leaves_nothing_stuck(h);
        let (ready, released) = midi_release_pass(a, h, r);
        assert(ready.midi == Some(released));
        law_written_notes_are_right(released, released, wanted(r.snap));
    }
}

/// The task and the host's serial bits, after the release of a round: a
/// release that goes through clears both bits.
pub open spec fn serial_release_pass(app: UsbEmitApp, host: Lines, r: Round) -> (
    UsbEmitApp,
    Lines,
) {
    let next = app.switched(r.snap);
    if app.releases_serial(r.snap) {
        (
            next.after_serial_release(r.release_ok),
            if r.release_ok {
                Lines::off()
            } else {
                host
            },
        )
    } else {
        (next, host)
    }
}

/// The task and the host's serial bits, after a whole round on the serial
/// side: an update that goes through reports both bits.
pub open spec fn serial_pass(app: UsbEmitApp, host: Lines, r: Round) -> (UsbEmitApp, Lines) {
    let (ready, h) = serial_release_pass(app, host, r);
    if ready.needs_serial(r.snap) {
        (
            ready.after_serial_update(r.snap, r.update_ok),
            if r.update_ok {
                wanted(r.snap)
            } else {
                h
            },
        )
    } else {
        (ready, h)
    }
}

/// A whole history of rounds on the serial side, oldest first.
pub open spec fn serial_passes(app: UsbEmitApp, host: Lines, history: Seq<Round>) -> (
    UsbEmitApp,
    Lines,
)
    decreases history.len(),
{
    if history.len() == 0 {
        (app, host)
    } else {
        let (a, h) = serial_passes(app, host, history.drop_last());
        serial_pass(a, h, history.last())
    }
}

/// No edge is lost on the serial port either: through any history of
/// snapshots, failed releases and failed updates, the host's DCD and DSR are
/// what the task believes they are, and whenever the latest update went
/// through or was not needed, they are those of the latest snapshot. Task and
/// host have to be in step at the start, or be brought in step by the first
/// release.
pub proof fn law_serial_host_follows(app: UsbEmitApp, host: Lines, history: Seq<Round>)
    requires
        app.serial == Some(host) || (app.serial is Some && starts_released(app, history)),
    ensures
        ({
            let (a, h) = serial_passes(app, host, history);
            &&& a.serial == Some(h)
            &&& history.len() > 0 ==> a.prev_style == Some(history.last().snap.emit_style)
            &&& history.len() > 0 && history.last().update_ok ==> h == wanted(history.last().snap)
        }),
    decreases history.len(),
{
    if history.len() > 0 {
        let prev = history.drop_last();
        if prev.len() > 0 || app.serial == Some(host) {
            law_serial_host_follows(app, host, prev);
        }
    }
}

/// A release that goes through brings task and host in step, whatever the
/// host held before.
pub proof fn law_release_brings_in_step(app: UsbEmitApp, host: Lines, r: Round)
    requires
        app.switches(r.snap),
        r.release_ok,
    ensures
        app.midi is Some ==> midi_release_pass(app, host, r).0.midi == Some(
            midi_release_pass(app, host, r).1,
        ),
        app.serial is Some ==> serial_release_pass(app, host, r).0.serial == Some(
            serial_release_pass(app, host, r).1,
        ),
{
    law_release_leaves_nothing_stuck(host);
}

/// A serial update that goes through reports both bits, so it brings task and
/// host in step too, whatever the host held before.
pub proof fn law_serial_update_brings_in_step(app: UsbEmitApp, host: Lines, r: Round)
    requires
        serial_release_pass(app, host, r).0.needs_serial(r.snap),
        r.update_ok,
    ensures
        serial_pass(app, host, r).1 == wanted(r.snap),
        serial_pass(app, host, r).0.serial == Some(wanted(r.snap)),
{
}

/// A failed release is made good: as long as the host was last told that a
/// line is on which the snapshot wants off, a write is asked for, and the
/// packet turns that note off. This goes on until a write goes through.
pub proof fn law_failed_release_is_made_good(app: UsbEmitApp, snap: UsbSnapshot)
    ensures
        app.switched(snap).after_midi_release(false).midi == app.midi,
        app.switched(snap).after_serial_release(false).serial == app.serial,
        app.after_midi_update(snap, false) == app,
        app.after_serial_update(snap, false) == app,
        app.midi matches Some(told) && told.second && !wanted(snap).second ==> app.needs_midi(
            snap,
        ) && note_event(MIDI_NOTE_DAH, false).is_suffix_of(midi_diff(app.midi->0, wanted(snap))),
        app.midi matches Some(told) && told.first && !wanted(snap).first ==> app.needs_midi(snap)
            && note_event(MIDI_NOTE_DIT, false).is_prefix_of(
            midi_diff(app.midi->0, wanted(snap)),
        ),
        app.serial matches Some(told) && told.second && !wanted(snap).second ==> app.needs_serial(
            snap,
        ),
{
    let dah = note_event(MIDI_NOTE_DAH, false);
    let dit = note_event(MIDI_NOTE_DIT, false);
    if let Some(told) = app.midi {
        let packet = midi_diff(told, wanted(snap));
        if told.second && !wanted(snap).second {
            assert(packet.skip(packet.len() - 4) =~= dah);
        }
        if told.first && !wanted(snap).first {
            assert(packet.take(4) =~= dit);
        }
    }
}

/// A snapshot that comes again after all its writes went through causes no
/// write on either transport.
pub proof fn law_repeated_snapshot_is_silent(app: UsbEmitApp, host: Lines, r: Round)
    requires
        r.update_ok,
    ensures
        ({
            let a = midi_pass(app, host, r).0;
            !a.switches(r.snap) && !a.switched(r.snap).needs_midi(r.snap)
        }),
        ({
            let a = serial_pass(app, host, r).0;
            !a.switches(r.snap) && !a.switched(r.snap).needs_serial(r.snap)
        }),
{
}

/// In keyed style the host was last told that note 62 is off.
pub open spec fn keyed_is_clean(app: UsbEmitApp) -> bool {
    app.prev_style == Some(UsbEmitStyle::Keyed) ==> (app.midi matches Some(told) ==> !told.second)
}

/// As long as releases go through, note 62 is off throughout keyed style.
proof fn lemma_keyed_stays_clean(app: UsbEmitApp, host: Lines, history: Seq<Round>)
    requires
        keyed_is_clean(app),
        forall|i: int| 0 <= i < history.len() ==> (#[trigger] history[i]).release_ok,
    ensures
        keyed_is_clean(midi_passes(app, host, history).0),
    decreases history.len(),
{
    if history.len() > 0 {
        let prev = history.drop_last();
        assert forall|i: int| 0 <= i < prev.len() implies (#[trigger] prev[i]).release_ok by {
            assert(history[i].release_ok);
        }
        lemma_keyed_stays_clean(app, host, prev);
        assert(history[history.len() - 1].release_ok);
    }
}

/// In keyed style note 62 stays silent as long as releases go through: after
/// any history from the start, a packet consists of the one event of note 60.
/// DSR is never asked to be on.
pub proof fn law_keyed_style_leaves_second_line_off(
    app: UsbEmitApp,
    host: Lines,
    history: Seq<Round>,
    r: Round,
)
    requires
        app.prev_style is None,
        forall|i: int| 0 <= i < history.len() ==> (#[trigger] history[i]).release_ok,
        r.release_ok,
        r.snap.emit_style == UsbEmitStyle::Keyed,
    ensures
        ({
            let (a, h) = midi_passes(app, host, history);
            let ready = midi_release_pass(a, h, r).0;
            ready.needs_midi(r.snap) ==> midi_diff(ready.midi->0, wanted(r.snap)) == note_event(
                MIDI_NOTE_DIT,
                r.snap.live_key,
            )
        }),
        wanted(r.snap) == (Lines { first: r.snap.live_key, second: false }),
{
    lemma_keyed_stays_clean(app, host, history);
    let (a, h) = midi_passes(app, host, history);
    let ready = midi_release_pass(a, h, r).0;
    if ready.needs_midi(r.snap) {
        assert(midi_diff(ready.midi->0, wanted(r.snap)) =~= note_event(
            MIDI_NOTE_DIT,
            r.snap.live_key,
        ));
    }
}

/// The lines of the wire contract, by the snapshot's fields.
pub open spec fn shows(lines: Lines, snap: UsbSnapshot) -> bool {
    match snap.emit_style {
        UsbEmitStyle::Paddle => (lines.first <==> snap.dit_pressed) && (lines.second
            <==> snap.dah_pressed),
        UsbEmitStyle::Keyed => (lines.first <==> snap.live_key) && !lines.second,
    }
}

/// In paddle style, after a round whose writes go through, the host holds note
/// 60 iff the dit paddle is pressed and note 62 iff the dah paddle is pressed,
/// and likewise DCD and DSR, whatever the keyed line does. In keyed style it
/// holds note 60 and DCD iff the key is down, and neither note 62 nor DSR.
pub proof fn law_host_shows_the_snapshot(
    app: UsbEmitApp,
    midi_host: Lines,
    serial_host: Lines,
    r: Round,
)
    requires
        r.update_ok,
        app.midi == Some(midi_host) || (app.midi is Some && app.switches(r.snap) && r.release_ok),
        app.serial == Some(serial_host) || (app.serial is Some && app.switches(r.snap)
            && r.release_ok),
    ensures
        ({
            let notes = midi_pass(app, midi_host, r).1;
            let bits = serial_pass(app, serial_host, r).1;
            &&& r.snap.emit_style == UsbEmitStyle::Paddle ==> {
                &&& notes.first <==> r.snap.dit_pressed
                &&& notes.second <==> r.snap.dah_pressed
                &&& bits.first <==> r.snap.dit_pressed
                &&& bits.second <==> r.snap.dah_pressed
            }
            &&& r.snap.emit_style == UsbEmitStyle::Keyed ==> {
                &&& notes.first <==> r.snap.live_key
                &&& !notes.second
                &&& bits.first <==> r.snap.live_key
                &&& !bits.second
            }
        }),
{
    let one = seq![r];
    assert(one.drop_last() =~= Seq::<Round>::empty());
    assert(midi_passes(app, midi_host, one) == midi_pass(app, midi_host, r)) by {
        reveal_with_fuel(midi_passes, 2);
    }
    assert(serial_passes(app, serial_host, one) == serial_pass(app, serial_host, r)) by {
        reveal_with_fuel(serial_passes, 2);
    }
    law_midi_host_follows(app, midi_host, one);
    law_serial_host_follows(app, serial_host, one);
}

/// The same through any history: whatever snapshots, failed releases and
/// failed updates came before, once the latest update goes through the host
/// shows the latest snapshot's paddles or key, by its style.
pub proof fn law_host_shows_the_latest_snapshot(app: UsbEmitApp, host: Lines, history: Seq<Round>)
    requires
        history.len() > 0,
        history.last().update_ok,
    ensures
        app.midi == Some(host) || (app.midi is Some && starts_released(app, history)) ==> shows(
            midi_passes(app, host, history).1,
            history.last().snap,
        ),
        app.serial == Some(host) || (app.serial is Some && starts_released(app, history)) ==> shows(
            serial_passes(app, host, history).1,
            history.last().snap,
        ),
{
    if app.midi == Some(host) || (app.midi is Some && starts_released(app, history)) {
        law_midi_host_follows(app, host, history);
    }
    if app.serial == Some(host) || (app.serial is Some && starts_released(app, history)) {
        law_serial_host_follows(app, host, history);
    }
}

/// An update is asked for exactly when what the host was told differs from
/// what the snapshot's fields call for; a transport that is not there is never
/// asked for one.
pub proof fn law_update_iff_host_differs(app: UsbEmitApp, snap: UsbSnapshot)
    ensures
        app.needs_midi(snap) <==> (app.midi matches Some(told) && !shows(told, snap)),
        app.needs_serial(snap) <==> (app.serial matches Some(told) && !shows(told, snap)),
        shows(wanted(snap), snap),
{
}

/// A packet names only the notes that change, each once, dit before dah: four
/// bytes per changed note, and nothing when none changes.
pub proof fn law_packet_names_only_changes(from: Lines, to: Lines)
    ensures
        midi_diff(from, to).len() == (if from.first != to.first { 4int } else { 0 }) + (
        if from.second != to.second { 4int } else { 0 }),
        from.first != to.first ==> midi_diff(from, to)[2] == 60,
        from.second != to.second ==> midi_diff(from, to)[midi_diff(from, to).len() - 2] == 62,
        midi_release().len() == 8,
        midi_release()[2] == 60,
        midi_release()[6] == 62,
{
}

/// A note event is code, status, note and velocity: 9, 0x90 and full velocity
/// for on, 8, 0x80 and none for off.
pub proof fn law_note_event_bytes(note: u8)
    ensures
        note_event(note, true) == seq![0x09u8, 0x90, note, 0x7f],
        note_event(note, false) == seq![0x08u8, 0x80, note, 0x00],
{
}

/// Everything is released exactly on the first snapshot and when a snapshot
/// brings another style than the one before it, and taking a snapshot forgets
/// nothing of what the host was told.
pub proof fn law_releases_come_with_style_switches(
    app: UsbEmitApp,
    before: UsbSnapshot,
    snap: UsbSnapshot,
)
    ensures
        app.prev_style is None ==> app.switches(snap),
        app.switched(before).switches(snap) <==> before.emit_style != snap.emit_style,
        app.switched(before).midi == app.midi,
        app.switched(before).serial == app.serial,
{
}

/// What is remembered of one transport is not touched by what happens on the
/// other, nor by anything that failed, and a write that went through is
/// remembered as what it said.
pub proof fn law_transports_are_independent(app: UsbEmitApp, snap: UsbSnapshot, ok: bool)
    ensures
        app.after_serial_release(ok).midi == app.midi,
        app.after_serial_update(snap, ok).midi == app.midi,
        app.after_midi_release(ok).serial == app.serial,
        app.after_midi_update(snap, ok).serial == app.serial,
        app.after_serial_release(ok).prev_style == app.prev_style,
        app.after_serial_update(snap, ok).prev_style == app.prev_style,
        app.after_midi_release(ok).prev_style == app.prev_style,
        app.after_midi_update(snap, ok).prev_style == app.prev_style,
        app.after_serial_release(false) == app,
        app.after_midi_release(false) == app,
        app.serial is Some ==> app.after_serial_release(true).serial == Some(
            Lines { first: false, second: false },
        ),
        app.midi is Some ==> app.after_midi_release(true).midi == Some(
            Lines { first: false, second: false },
        ),
        app.serial is Some ==> (app.after_serial_update(snap, true).serial matches Some(told)
            && shows(told, snap)),
        app.midi is Some ==> (app.after_midi_update(snap, true).midi matches Some(told) && shows(
            told,
            snap,
        )),
        app.serial is None ==> app.after_serial_update(snap, ok).serial is None
            && app.after_serial_release(ok).serial is None,
        app.midi is None ==> app.after_midi_update(snap, ok).midi is None
            && app.after_midi_release(ok).midi is None,
{
}

/// Notes and serial bits are released exactly on the first snapshot and when a
/// snapshot brings another style, on every transport that there is.
pub proof fn law_every_transport_is_released(
    app: UsbEmitApp,
    before: UsbSnapshot,
    snap: UsbSnapshot,
)
    ensures
        app.switched(before).releases_serial(snap) <==> app.serial is Some && before.emit_style
            != snap.emit_style,
        app.switched(before).releases_midi(snap) <==> app.midi is Some && before.emit_style
            != snap.emit_style,
        app.prev_style is None ==> (app.releases_serial(snap) <==> app.serial is Some),
        app.prev_style is None ==> (app.releases_midi(snap) <==> app.midi is Some),
{
}

/// The task starts with the transports that there are, the host told that all
/// is off on each, and everything is released with the first snapshot.
pub proof fn law_emit_task_at_start(has_serial: bool, has_midi: bool, snap: UsbSnapshot)
    ensures
        ({
            let app = UsbEmitApp::initial(has_serial, has_midi);
            &&& app.serial is Some <==> has_serial
            &&& app.midi is Some <==> has_midi
            &&& app.serial matches Some(told) ==> !told.first && !told.second
            &&& app.midi matches Some(told) ==> !told.first && !told.second
            &&& app.releases_serial(snap) <==> has_serial
            &&& app.releases_midi(snap) <==> has_midi
        }),
{
}

/// What is written for a snapshot shows it: the serial bits are the snapshot's
/// paddles or key, and a host that holds the notes it was told holds the
/// snapshot's paddles or key after the packet. Nothing is written exactly when
/// the host was told all that already, or the transport is not there.
pub proof fn law_updates_show_the_snapshot(app: UsbEmitApp, snap: UsbSnapshot)
    ensures
        app.serial_update(snap) is Some <==> (app.serial matches Some(told) && !shows(told, snap)),
        app.serial_update(snap) matches Some(lines) ==> shows(lines, snap),
        app.midi_update(snap) is Some <==> (app.midi matches Some(told) && !shows(told, snap)),
        app.midi_update(snap) matches Some(packet) ==> shows(
            host_notes(app.midi->0, packet),
            snap,
        ),
{
    if let Some(told) = app.midi {
        law_written_notes_are_right(told, told, wanted(snap));
    }
}

} // verus!
