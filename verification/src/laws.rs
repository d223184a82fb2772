//! What holds of every run of the supervisor.

use crate::handle::load_result;
use crate::loader::{LoadError, Probe};
use crate::report::Report;
use crate::supervisor::{Action, Event, Outcome, Phase, SupervisorView};
use crate::timestamp::Timestamp;
use vstd::prelude::*;

verus! {

impl SupervisorView {
    /// The state after a run of events, taken in order.
    pub open spec fn after_all(self, events: Seq<Event>) -> SupervisorView
        decreases events.len(),
    {
        if events.len() == 0 {
            self
        } else {
            self.after(events.first()).after_all(events.drop_first())
        }
    }

    /// How many reloads a run of events sets off.
    pub open spec fn reloads(self, events: Seq<Event>) -> nat
        decreases events.len(),
    {
        if events.len() == 0 {
            0
        } else {
            let here: nat = if self.report(events.first()) is Reloading {
                1
            } else {
                0
            };
            here + self.after(events.first()).reloads(events.drop_first())
        }
    }
}

/// Whether every successful metadata read in `events` shows `mtime`.
pub open spec fn reads_only(events: Seq<Event>, mtime: Timestamp) -> bool {
    forall|i: int|
        0 <= i < events.len() ==> match #[trigger] events[i] {
            Event::Stat(Some(observed)) => observed == mtime,
            _ => true,
        }
}

/// Whether no metadata read in `events` succeeds.
pub open spec fn reads_nothing(events: Seq<Event>) -> bool {
    forall|i: int| 0 <= i < events.len() ==> !(#[trigger] events[i] matches Event::Stat(Some(_)))
}

/// Every step keeps the state well formed: a library is held exactly while no
/// load is under way.
pub proof fn lemma_step_keeps_wf(s: SupervisorView, event: Event)
    requires
        s.wf(),
    ensures
        s.after(event).wf(),
{
}

/// A run of events keeps the state well formed.
pub proof fn lemma_run_keeps_wf(s: SupervisorView, events: Seq<Event>)
    requires
        s.wf(),
    ensures
        s.after_all(events).wf(),
    decreases events.len(),
{
    if events.len() > 0 {
        lemma_step_keeps_wf(s, events.first());
        lemma_run_keeps_wf(s.after(events.first()), events.drop_first());
    }
}

/// A load that finds `foo` starts the ticks with a library that has `bar`
/// exactly where the load found it; no error is reported.
pub proof fn lemma_successful_load_runs(s: SupervisorView, bar: bool)
    requires
        s.wf(),
        s.awaiting is Load,
    ensures
        ({
            let event = Event::Loaded(Probe::Resolved { bar });
            let next = s.after(event);
            &&& next.phase() == Phase::Running
            &&& next.current is Some
            &&& next.has_bar() == bar
            &&& next.generation == s.generation
            &&& s.outcome(event).action == Action::Invoke { call_bar: bar }
        }),
{
}

/// A load that fails ends supervision with its error and leaves no library
/// behind: a file that cannot be mapped gives `LoaderFailure`, a mapped file
/// without `foo` gives `MissingRequiredSymbol`.
pub proof fn lemma_failed_load_is_fatal(s: SupervisorView, probe: Probe)
    requires
        s.wf(),
        s.awaiting is Load,
        !(probe is Resolved),
    ensures
        s.after(Event::Loaded(probe)) == s,
        s.after(Event::Loaded(probe)).current is None,
        load_result(s.path, s.generation, probe) is Err,
        probe is Unloadable ==> s.outcome(Event::Loaded(probe)).action == Action::Abort(
            LoadError::LoaderFailure,
        ),
        probe is FooMissing ==> s.outcome(Event::Loaded(probe)).action == Action::Abort(
            LoadError::MissingRequiredSymbol,
        ),
{
}

/// The exported functions are called only while the supervisor is running,
/// and `bar` is called exactly where the library of that moment has it. Once
/// a reload is pending, the superseded library is not called again.
pub proof fn lemma_calls_follow_current_library(s: SupervisorView, event: Event)
    requires
        s.wf(),
    ensures
        match s.outcome(event).action {
            Action::Invoke { call_bar } => {
                &&& s.after(event).phase() == Phase::Running
                &&& s.after(event).current is Some
                &&& call_bar == s.after(event).has_bar()
            },
            _ => true,
        },
        s.after(event).phase() != Phase::Running ==> !(s.outcome(event).action is Invoke),
{
}

/// A tick is reported for the current generation, with `foo`'s value always,
/// and with a value of `bar` exactly where the current library has `bar`:
/// without it the report notes the absence, with it the report never does.
pub proof fn lemma_tick_shows_current_library(s: SupervisorView, event: Event)
    requires
        s.wf(),
    ensures
        match s.report(event) {
            Report::Tick { generation, foo, bar } => {
                &&& s.phase() == Phase::Running
                &&& generation == s.generation
                &&& event == Event::Invoked { foo, bar }
                &&& (bar is Some) == s.has_bar()
            },
            _ => true,
        },
        s.awaiting is Invoke && s.fits(event) ==> s.report(event) is Tick,
{
}

/// The library stays the same from its load until it is released; only the
/// release increases the generation, by one.
pub proof fn lemma_library_is_stable(s: SupervisorView, event: Event)
    requires
        s.wf(),
        s.current is Some,
    ensures
        !(s.awaiting is Release && event is Released) ==> {
            &&& s.after(event).current == s.current
            &&& s.after(event).generation == s.generation
        },
        s.awaiting is Release && event is Released && s.generation < u32::MAX ==> {
            &&& s.after(event).current is None
            &&& s.after(event).generation == s.generation + 1
        },
{
}

/// The states follow each other in one order only: loading, running, reload
/// pending, and loading again.
pub proof fn lemma_phase_order(s: SupervisorView, event: Event)
    requires
        s.wf(),
    ensures
        match s.phase() {
            Phase::Loading => s.after(event).phase() != Phase::ReloadPending,
            Phase::Running => s.after(event).phase() != Phase::Loading,
            Phase::ReloadPending => s.after(event).phase() != Phase::Running,
        },
{
}

/// Every successful metadata read is remembered, whether or not it sets off a
/// reload, and nothing else changes what is remembered.
pub proof fn lemma_mtime_follows_reads(s: SupervisorView, event: Event)
    ensures
        match event {
            Event::Stat(Some(observed)) if s.awaiting is Stat => s.after(event).last_known_mtime
                == Some(observed),
            _ => s.after(event).last_known_mtime == s.last_known_mtime,
        },
{
}

/// A reload is set off exactly by a successful read, awaited, that differs
/// from a modification time read before.
pub proof fn lemma_reload_needs_change(s: SupervisorView, event: Event)
    ensures
        s.report(event) is Reloading <==> {
            &&& s.awaiting is Stat
            &&& event matches Event::Stat(Some(observed))
            &&& s.last_known_mtime matches Some(known)
            &&& known != observed
        },
        s.report(event) is Reloading <==> s.phase() == Phase::Running && s.after(event).phase()
            == Phase::ReloadPending,
        s.report(event) is Reloading ==> s.outcome(event).action == Action::Release,
{
}

/// The first modification time ever read sets off no reload, whatever it is,
/// the epoch included; it is remembered and the ticks go on.
pub proof fn lemma_first_read_never_reloads(s: SupervisorView, observed: Timestamp)
    requires
        s.wf(),
        s.awaiting is Stat,
        s.last_known_mtime is None,
    ensures
        s.after(Event::Stat(Some(observed))).phase() == Phase::Running,
        s.after(Event::Stat(Some(observed))).last_known_mtime == Some(observed),
        s.report(Event::Stat(Some(observed))) == Report::Silent,
        s.outcome(Event::Stat(Some(observed))).action == (Action::Invoke { call_bar: s.has_bar() }),
{
}

/// The epoch is a modification time like any other: once it has been read, a
/// different time sets off a reload, and the epoch read again does not.
pub proof fn lemma_epoch_is_data(s: SupervisorView, observed: Timestamp)
    requires
        s.wf(),
        s.awaiting is Stat,
        s.last_known_mtime == Some((Timestamp { nanos: 0 })),
    ensures
        s.report(Event::Stat(Some(observed))) is Reloading <==> observed.nanos != 0,
{
}

/// While every successful read shows the modification time that is already
/// remembered, no reload is set off, however long the run.
pub proof fn lemma_same_mtime_never_reloads(
    s: SupervisorView,
    mtime: Timestamp,
    events: Seq<Event>,
)
    requires
        s.last_known_mtime == Some(mtime),
        reads_only(events, mtime),
    ensures
        s.reloads(events) == 0,
        s.after_all(events).last_known_mtime == Some(mtime),
    decreases events.len(),
{
    if events.len() > 0 {
        let first = events.first();
        let rest = events.drop_first();
        assert(first == events[0]);
        assert forall|i: int| 0 <= i < rest.len() implies match #[trigger] rest[i] {
            Event::Stat(Some(observed)) => observed == mtime,
            _ => true,
        } by {
            assert(rest[i] == events[i + 1]);
        }
        lemma_mtime_follows_reads(s, first);
        lemma_same_mtime_never_reloads(s.after(first), mtime, rest);
    }
}

/// A change of the modification time between two reads sets off exactly one
/// reload: the supervisor goes to `ReloadPending` and asks for the release of
/// the library, and while the new time persists, no run of events sets off a
/// second one.
pub proof fn lemma_change_reloads_once(
    s: SupervisorView,
    known: Timestamp,
    observed: Timestamp,
    events: Seq<Event>,
)
    requires
        s.wf(),
        s.awaiting is Stat,
        s.last_known_mtime == Some(known),
        observed != known,
        reads_only(events, observed),
    ensures
        s.after(Event::Stat(Some(observed))).phase() == Phase::ReloadPending,
        s.after(Event::Stat(Some(observed))).last_known_mtime == Some(observed),
        s.outcome(Event::Stat(Some(observed))) == (Outcome {
            report: Report::Reloading,
            action: Action::Release,
        }),
        s.reloads(seq![Event::Stat(Some(observed))] + events) == 1,
        s.generation < u32::MAX ==> s.after(Event::Stat(Some(observed))).after_all(
            events,
        ).generation <= s.generation + 1,
{
    let change = Event::Stat(Some(observed));
    let run = seq![change] + events;
    assert(run.first() == change);
    assert(run.drop_first() =~= events);
    lemma_same_mtime_never_reloads(s.after(change), observed, events);
    if s.generation < u32::MAX {
        lemma_change_advances_one_generation(s.after(change), observed, s.generation, events);
    }
}

/// Whether `s` is a state that follows a change to `mtime` seen in generation
/// `generation`: the new time is remembered, and the generation is the old
/// one until the library is released and the next one from then on.
pub open spec fn reloading_once(s: SupervisorView, mtime: Timestamp, generation: u32) -> bool {
    &&& s.last_known_mtime == Some(mtime)
    &&& s.generation == if s.awaiting is Release {
        generation as int
    } else {
        generation + 1
    }
}

/// While the new modification time persists, the change that was seen moves
/// the supervisor on by one generation and no further, however long the run.
pub proof fn lemma_change_advances_one_generation(
    s: SupervisorView,
    mtime: Timestamp,
    generation: u32,
    events: Seq<Event>,
)
    requires
        reloading_once(s, mtime, generation),
        generation < u32::MAX,
        reads_only(events, mtime),
    ensures
        reloading_once(s.after_all(events), mtime, generation),
        generation <= s.after_all(events).generation <= generation + 1,
    decreases events.len(),
{
    if events.len() > 0 {
        let first = events.first();
        let rest = events.drop_first();
        assert(first == events[0]);
        assert forall|i: int| 0 <= i < rest.len() implies match #[trigger] rest[i] {
            Event::Stat(Some(observed)) => observed == mtime,
            _ => true,
        } by {
            assert(rest[i] == events[i + 1]);
        }
        lemma_change_advances_one_generation(s.after(first), mtime, generation, rest);
    }
}

/// After the one reload that a change sets off, the new library is loaded as
/// the next generation and the ticks resume with it.
pub proof fn lemma_reload_resumes_ticking(
    s: SupervisorView,
    known: Timestamp,
    observed: Timestamp,
    bar: bool,
)
    requires
        s.wf(),
        s.awaiting is Stat,
        s.last_known_mtime == Some(known),
        observed != known,
        s.generation < u32::MAX,
    ensures
        ({
            let pending = s.after(Event::Stat(Some(observed)));
            let loading = pending.after(Event::Released);
            let running = loading.after(Event::Loaded(Probe::Resolved { bar }));
            &&& pending.outcome(Event::Released).action == Action::Load {
                generation: (s.generation + 1) as u32,
            }
            &&& loading.phase() == Phase::Loading
            &&& loading.current is None
            &&& running.phase() == Phase::Running
            &&& running.generation == s.generation + 1
            &&& running.has_bar() == bar
            &&& running.last_known_mtime == Some(observed)
            &&& loading.outcome(Event::Loaded(Probe::Resolved { bar })).action == Action::Invoke {
                call_bar: bar,
            }
        }),
{
}

/// A run without a successful read leaves the remembered modification time
/// as it was.
pub proof fn lemma_no_read_keeps_mtime(s: SupervisorView, events: Seq<Event>)
    requires
        reads_nothing(events),
    ensures
        s.after_all(events).last_known_mtime == s.last_known_mtime,
        s.reloads(events) == 0,
    decreases events.len(),
{
    if events.len() > 0 {
        let first = events.first();
        let rest = events.drop_first();
        assert(first == events[0]);
        assert forall|i: int| 0 <= i < rest.len() implies !(#[trigger] rest[i] matches Event::Stat(
            Some(_),
        )) by {
            assert(rest[i] == events[i + 1]);
        }
        lemma_mtime_follows_reads(s, first);
        lemma_no_read_keeps_mtime(s.after(first), rest);
    }
}

/// A failed metadata read changes nothing but the tick: the remembered time
/// stays, the library stays, and the next tick begins. A change of the file
/// that happened meanwhile is found by the next successful read, however many
/// reads fail before it.
pub proof fn lemma_failed_read_loses_nothing(
    s: SupervisorView,
    known: Timestamp,
    observed: Timestamp,
    events: Seq<Event>,
)
    requires
        s.wf(),
        s.awaiting is Stat,
        s.last_known_mtime == Some(known),
        observed != known,
        reads_nothing(events),
    ensures
        s.after(Event::Stat(None)).last_known_mtime == s.last_known_mtime,
        s.after(Event::Stat(None)).current == s.current,
        s.after(Event::Stat(None)).phase() == Phase::Running,
        s.outcome(Event::Stat(None)) == (Outcome {
            report: Report::Silent,
            action: Action::Invoke { call_bar: s.has_bar() },
        }),
        ({
            let later = s.after(Event::Stat(None)).after_all(events);
            later.awaiting is Stat ==> {
                &&& later.report(Event::Stat(Some(observed))) == Report::Reloading
                &&& later.after(Event::Stat(Some(observed))).phase() == Phase::ReloadPending
            }
        }),
{
    lemma_no_read_keeps_mtime(s.after(Event::Stat(None)), events);
}

} // verus!
