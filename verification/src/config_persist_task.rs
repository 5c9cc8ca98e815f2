//! Debounce-and-commit task for settings persistence.
//!
//! State machine: wait, debounce, acquire the save window, save.
//!
//! * **wait**: until the UI signals an edit.
//! * **debounce**: each further edit within 3 s extends the window, so that a
//!   slider moved by eight steps is written once.
//! * **acquire the save window**: a flash erase keeps interrupts off for about
//!   50 ms, so the keyer must be quiet for that long. Once the engine is seen
//!   idle, the save lock is set, the keyer gets a millisecond to park, and the
//!   engine is looked at again. If it became active after all, the lock is
//!   released and the task tries again later.
//! * **save**: the settings are written and the lock is released.

use vstd::prelude::*;

use crate::keyer_task::{KeyerEvent, KeyerView, POLL_INTERVAL_US};

verus! {

/// How long the user must be quiet before a save, in milliseconds.
pub const DEBOUNCE_MS: u64 = 3000;

/// How long to wait before looking again at an active engine, in milliseconds.
pub const IDLE_RECHECK_MS: u64 = 250;

/// How long the keyer gets to observe the save lock, in milliseconds.
pub const PARK_OBSERVE_MS: u64 = 1;

/// Where the task is.
#[derive(Debug, Clone, Copy, PartialEq, Eq, Structural)]
pub enum Phase {
    /// Nothing to save.
    Wait,
    /// Edited, and waiting for the user to be quiet.
    Debounce,
    /// Waiting for an active engine to become idle.
    Recheck,
    /// The engine was reported idle; the lock is set and the keyer parks.
    Observe,
    /// The settings are being written.
    Save,
}

impl Phase {
    /// The save lock is set.
    pub open spec fn holds_lock(self) -> bool {
        self == Phase::Observe || self == Phase::Save
    }

    /// What the task does in a phase.
    pub open spec fn activity(self) -> Activity {
        match self {
            Phase::Wait => Activity::AwaitEdit,
            Phase::Debounce => Activity::AwaitEditFor(DEBOUNCE_MS),
            Phase::Recheck => Activity::Sleep(IDLE_RECHECK_MS),
            Phase::Observe => Activity::Sleep(PARK_OBSERVE_MS),
            Phase::Save => Activity::Save,
        }
    }
}

/// What the task remembers.
pub struct PersistView {
    pub phase: Phase,
    /// There was an edit since the debounce ended.
    pub pending: bool,
}

impl PersistView {
    /// An edit that comes after the debounce is remembered until the save is
    /// over, and only until then.
    pub open spec fn wf(self) -> bool {
        self.pending ==> self.phase == Phase::Recheck || self.phase == Phase::Observe || self.phase
            == Phase::Save
    }

    /// The task at boot.
    pub open spec fn initial() -> PersistView {
        PersistView { phase: Phase::Wait, pending: false }
    }

    /// What to do next.
    pub open spec fn action(self) -> Action {
        Action { save_lock: self.phase.holds_lock(), activity: self.phase.activity() }
    }

    /// There is an edit that no save has started for.
    pub open spec fn owes_save(self) -> bool {
        self.pending || self.phase == Phase::Debounce || self.phase == Phase::Recheck || self.phase
            == Phase::Observe
    }

    /// The task after an event. Timeouts and ends of saves that it does not
    /// wait for change nothing.
    pub open spec fn after(self, ev: Event) -> PersistView {
        match (self.phase, ev) {
            (Phase::Wait, Event::Edited) => PersistView { phase: Phase::Debounce, ..self },
            (Phase::Debounce, Event::Edited) => self,
            (_, Event::Edited) => PersistView { pending: true, ..self },
            (Phase::Observe, Event::TimedOut { engine_active: false }) => PersistView {
                phase: Phase::Save,
                ..self
            },
            (Phase::Debounce, Event::TimedOut { engine_active })
            | (Phase::Recheck, Event::TimedOut { engine_active })
            | (Phase::Observe, Event::TimedOut { engine_active }) => PersistView {
                phase: if engine_active { Phase::Recheck } else { Phase::Observe },
                ..self
            },
            (Phase::Save, Event::Saved) => PersistView {
                phase: if self.pending { Phase::Debounce } else { Phase::Wait },
                pending: false,
            },
            _ => self,
        }
    }
}

/// What happened.
#[derive(Debug, Clone, Copy, PartialEq, Eq, Structural)]
pub enum Event {
    /// The UI signalled an edit of the settings.
    Edited,
    /// The time of the current activity ran out; is the engine reported as
    /// active?
    TimedOut { engine_active: bool },
    /// The settings were written, or could not be.
    Saved,
}

/// What to do until the next event.
#[derive(Debug, Clone, Copy, PartialEq, Eq, Structural)]
pub enum Activity {
    /// Wait for an edit.
    AwaitEdit,
    /// Wait for an edit, but only for so many milliseconds.
    AwaitEditFor(u64),
    /// Wait for so many milliseconds.
    Sleep(u64),
    /// Write the settings.
    Save,
}

/// What to do next.
#[derive(Debug, Clone, Copy, PartialEq, Eq, Structural)]
pub struct Action {
    /// Store this into the save lock first.
    pub save_lock: bool,
    pub activity: Activity,
}

/// The persistence task's state.
pub struct ConfigPersistTask {
    phase: Phase,
    pending: bool,
}

impl View for ConfigPersistTask {
    type V = PersistView;

    closed spec fn view(&self) -> PersistView {
        PersistView { phase: self.phase, pending: self.pending }
    }
}

impl ConfigPersistTask {
    #[verifier::type_invariant]
    spec fn inv(self) -> bool {
        self@.wf()
    }

    /// The task at boot, which waits for an edit.
    pub fn new() -> (task: Self)
        ensures
            task@ == (PersistView { phase: Phase::Wait, pending: false }),
            task@ == PersistView::initial(),
            task@.wf(),
    {
        ConfigPersistTask { phase: Phase::Wait, pending: false }
    }

    /// What to do in the current phase.
    pub fn action(&self) -> (action: Action)
        ensures
            action.save_lock == self@.phase.holds_lock(),
            action.activity == self@.phase.activity(),
            action == self@.action(),
    {
        Action {
            save_lock: matches!(self.phase, Phase::Observe | Phase::Save),
            activity: match self.phase {
                Phase::Wait => Activity::AwaitEdit,
                Phase::Debounce => Activity::AwaitEditFor(DEBOUNCE_MS),
                Phase::Recheck => Activity::Sleep(IDLE_RECHECK_MS),
                Phase::Observe => Activity::Sleep(PARK_OBSERVE_MS),
                Phase::Save => Activity::Save,
            },
        }
    }

    /// Take in what happened and say what to do next.
    pub fn on_event(&mut self, ev: Event) -> (action: Action)
        ensures
            final(self)@ == old(self)@.after(ev),
            final(self)@.wf(),
            action.save_lock == final(self)@.phase.holds_lock(),
            action.activity == final(self)@.phase.activity(),
            action == final(self)@.action(),
    {
        proof {
            use_type_invariant(&*self);
        }
        match ev {
            Event::Edited => match self.phase {
                Phase::Wait => {
                    self.phase = Phase::Debounce;
                },
                Phase::Debounce => {},
                Phase::Recheck | Phase::Observe | Phase::Save => {
                    self.pending = true;
                },
            },
            Event::TimedOut { engine_active } => match self.phase {
                Phase::Debounce | Phase::Recheck => {
                    self.phase = if engine_active { Phase::Recheck } else { Phase::Observe };
                },
                Phase::Observe => {
                    self.phase = if engine_active { Phase::Recheck } else { Phase::Save };
                },
                Phase::Wait | Phase::Save => {},
            },
            Event::Saved => {
                if self.phase == Phase::Save {
                    let again = self.pending;
                    self.pending = false;
                    self.phase = if again { Phase::Debounce } else { Phase::Wait };
                }
            },
        }
        self.action()
    }
}

/// The task after a run of events, oldest first.
pub open spec fn after_all(p: PersistView, events: Seq<Event>) -> PersistView
    decreases events.len(),
{
    if events.len() == 0 {
        p
    } else {
        after_all(p, events.drop_last()).after(events.last())
    }
}

/// The lock is only set on a report of an idle engine. A save begins only when
/// the lock was already set and the engine was then
/// reported idle: never on a report of an active engine, and never without the
/// lock. This speaks of the reported flag, which a keyer that has parked under
/// the lock reports as idle.
pub proof fn law_save_needs_lock_and_idle(p: PersistView, ev: Event)
    requires
        p.phase != Phase::Save,
    ensures
        p.after(ev).phase == Phase::Save <==> p.phase == Phase::Observe && ev
            == (Event::TimedOut { engine_active: false }),
        p.after(ev).phase == Phase::Save ==> p.phase.holds_lock() && p.after(
            ev,
        ).phase.holds_lock(),
        p.after(Event::TimedOut { engine_active: true }).phase != Phase::Save,
        !p.phase.holds_lock() && p.after(ev).phase.holds_lock() ==> ev == (Event::TimedOut {
            engine_active: false,
        }),
{
}

/// The lock does not outlast what it is for: it is released when the engine
/// is reported active, and when the save is over, and is never set while
/// the task waits for edits.
pub proof fn law_lock_is_released(p: PersistView)
    ensures
        p.phase == Phase::Observe ==> !p.after(
            Event::TimedOut { engine_active: true },
        ).phase.holds_lock(),
        p.phase == Phase::Save ==> !p.after(Event::Saved).phase.holds_lock(),
        p.phase == Phase::Wait || p.phase == Phase::Debounce ==> !p.phase.holds_lock(),
{
}

/// However many edits follow one another while the task debounces, they lead
/// to one save: the task goes on debouncing, with the window as long as ever,
/// then saves once the engine is reported idle, and has nothing left to save
/// after that.
pub proof fn law_edits_extend_debounce(p: PersistView, events: Seq<Event>)
    requires
        p.wf(),
        p.phase == Phase::Wait,
        events.len() > 0,
        forall|i: int| 0 <= i < events.len() ==> #[trigger] events[i] == Event::Edited,
    ensures
        after_all(p, events) == (PersistView { phase: Phase::Debounce, pending: false }),
        after_all(p, events).phase.activity() == Activity::AwaitEditFor(DEBOUNCE_MS),
        ({
            let idle = Event::TimedOut { engine_active: false };
            let saving = after_all(p, events).after(idle).after(idle);
            saving.phase == Phase::Save && saving.after(Event::Saved) == (PersistView {
                phase: Phase::Wait,
                pending: false,
            })
        }),
    decreases events.len(),
{
    assert(events[events.len() - 1] == Event::Edited);
    let rest = events.drop_last();
    if rest.len() > 0 {
        assert forall|i: int| 0 <= i < rest.len() implies #[trigger] rest[i] == Event::Edited by {
            assert(events[i] == Event::Edited);
        }
        law_edits_extend_debounce(p, rest);
    } else {
        assert(after_all(p, rest) == p);
    }
}

/// No edit is forgotten: after an edit a save is owed, whatever the task was
/// doing, and that stays so until a save starts.
pub proof fn law_edits_are_remembered(p: PersistView, ev: Event)
    requires
        p.wf(),
    ensures
        p.after(Event::Edited).owes_save(),
        p.owes_save() && !p.after(ev).owes_save() ==> p.phase == Phase::Observe && p.after(
            ev,
        ).phase == Phase::Save,
        p.after(ev).wf(),
{
}

/// A save that is owed is made as soon as the engine is reported idle at two
/// timeouts in a row, after the end of a save that is still under way.
pub proof fn law_owed_save_is_made(p: PersistView)
    requires
        p.wf(),
        p.owes_save(),
    ensures
        ({
            let idle = Event::TimedOut { engine_active: false };
            let ready = if p.phase == Phase::Save { p.after(Event::Saved) } else { p };
            ready.after(idle).phase == Phase::Save || ready.after(idle).after(idle).phase
                == Phase::Save
        }),
{
}

/// While the settings are written the keyer is parked: whatever the paddles
/// do, it neither moves on nor drives the key. The keyer looks at the lock
/// four times before the task goes on to write.
pub proof fn law_keyer_is_parked_while_saving(
    p: PersistView,
    k: KeyerView,
    history: Seq<KeyerEvent>,
)
    requires
        p.phase == Phase::Save,
        forall|i: int|
            0 <= i < history.len() ==> (#[trigger] history[i] matches KeyerEvent::Tick {
                save_lock,
                ..
            } && save_lock == p.phase.holds_lock()),
    ensures
        k.after_all(history) == k,
        PARK_OBSERVE_MS * 1000 == 4 * POLL_INTERVAL_US,
    decreases history.len(),
{
    if history.len() > 0 {
        let prev = history.drop_last();
        assert(history[history.len() - 1] is Tick);
        assert forall|i: int| 0 <= i < prev.len() implies (
        #[trigger] prev[i] matches KeyerEvent::Tick { save_lock, .. } && save_lock
            == p.phase.holds_lock()) by {
            assert(history[i] is Tick);
        }
        law_keyer_is_parked_while_saving(p, k, prev);
    }
}

/// What the task does in each phase: it waits for an edit; debounces for three
/// seconds; looks again at a busy engine after a quarter of a second; gives
/// the keyer one millisecond to park; and writes. The lock is set while the
/// keyer parks and while the settings are written, and at no other time.
pub proof fn law_activity_of_each_phase(p: Phase)
    ensures
        p.activity() == Activity::AwaitEdit <==> p == Phase::Wait,
        p.activity() == Activity::AwaitEditFor(3000) <==> p == Phase::Debounce,
        p.activity() == Activity::Sleep(250) <==> p == Phase::Recheck,
        p.activity() == Activity::Sleep(1) <==> p == Phase::Observe,
        p.activity() == Activity::Save <==> p == Phase::Save,
        p.holds_lock() <==> p.activity() == Activity::Sleep(1) || p.activity() == Activity::Save,
{
}

/// At a timeout a busy engine sends the task to wait without the lock, and an
/// idle one takes it one step on: to the lock, and from there to the write.
/// Whether there was another edit is not touched by timeouts.
pub proof fn law_timeouts_follow_the_engine(p: PersistView)
    requires
        p.phase == Phase::Debounce || p.phase == Phase::Recheck || p.phase == Phase::Observe,
    ensures
        ({
            let busy = p.after(Event::TimedOut { engine_active: true });
            let idle = p.after(Event::TimedOut { engine_active: false });
            &&& busy.phase == Phase::Recheck
            &&& p.phase == Phase::Observe ==> idle.phase == Phase::Save
            &&& p.phase != Phase::Observe ==> idle.phase == Phase::Observe
            &&& busy.pending == p.pending
            &&& idle.pending == p.pending
        }),
{
}

/// An edit starts the debounce if the task waits, and otherwise interrupts
/// nothing; one that comes after the debounce starts another debounce once the
/// save is over. Without one the task waits after a save. A timeout or the end
/// of a save that the task does not wait for changes nothing.
pub proof fn law_edits_interrupt_nothing(p: PersistView, engine_active: bool)
    requires
        p.wf(),
    ensures
        p.phase == Phase::Wait ==> p.after(Event::Edited).phase == Phase::Debounce,
        p.phase != Phase::Wait ==> p.after(Event::Edited).phase == p.phase,
        p.phase == Phase::Recheck || p.phase == Phase::Observe || p.phase == Phase::Save
            ==> p.after(Event::Edited).pending,
        p.phase == Phase::Wait || p.phase == Phase::Debounce ==> !p.after(Event::Edited).pending,
        p.phase == Phase::Save ==> p.after(Event::Saved).phase == (if p.pending {
            Phase::Debounce
        } else {
            Phase::Wait
        }) && !p.after(Event::Saved).pending,
        p.phase != Phase::Save ==> p.after(Event::Saved) == p,
        p.phase == Phase::Wait || p.phase == Phase::Save ==> p.after(
            Event::TimedOut { engine_active },
        ) == p,
{
}

/// The settings are only ever written under the lock, and the lock is never
/// set while the task waits for edits or for an engine to become idle. At boot
/// the task waits for an edit, without the lock and with nothing to save.
pub proof fn law_writes_are_locked(p: PersistView)
    ensures
        p.action().activity == Activity::Save ==> p.action().save_lock,
        p.action().save_lock <==> p.phase == Phase::Observe || p.phase == Phase::Save,
        p.action().activity == Activity::AwaitEdit || p.action().activity == Activity::AwaitEditFor(
            3000,
        ) || p.action().activity == Activity::Sleep(250) ==> !p.action().save_lock,
        p.action().activity == p.phase.activity(),
        PersistView::initial().action() == (Action {
            save_lock: false,
            activity: Activity::AwaitEdit,
        }),
        !PersistView::initial().owes_save(),
        PersistView::initial().wf(),
{
}

} // verus!
