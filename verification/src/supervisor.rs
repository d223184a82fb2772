//! The supervision loop as a state machine.
//!
//! The supervisor decides; the caller acts. Each [`Action`] is one piece of
//! outside work, and each [`Event`] reports how one ended. [`Supervisor::step`]
//! takes the state and an event to the next state, the report to print and
//! the next action. [`SupervisorView::after`] and [`SupervisorView::outcome`]
//! say what it computes.

use crate::handle::{load_result, HandleView, LibraryHandle};
use crate::loader::{LoadError, Probe};
use crate::report::Report;
use crate::timestamp::Timestamp;
use vstd::prelude::*;
use vstd::string::StringExecFns;

verus! {

/// Seconds between two ticks.
pub const TICK_SECONDS: u64 = 1;

/// The three states of the supervisor.
#[derive(Clone, Copy, Debug, PartialEq, Eq, Structural)]
pub enum Phase {
    /// No library is loaded; a load is under way.
    Loading,
    /// A library is loaded and is called on every tick.
    Running,
    /// The backing file changed; the loaded library is superseded and is no
    /// longer called.
    ReloadPending,
}

/// The outside work whose end the supervisor waits for.
#[derive(Clone, Copy, Debug, PartialEq, Eq, Structural)]
pub enum Awaiting {
    Load,
    Invoke,
    Sleep,
    Stat,
    Release,
}

/// How one piece of outside work ended.
#[derive(Clone, Copy, Debug, PartialEq, Eq, Structural)]
pub enum Event {
    /// A load attempt ended with this probe.
    Loaded(Probe),
    /// The exported functions returned: `foo` gave `foo`, and `bar` gave the
    /// value in `bar`, or was not called where that is `None`.
    Invoked { foo: i32, bar: Option<i32> },
    /// The tick interval has passed.
    Slept,
    /// The backing file's metadata was read: its modification time, or
    /// `None` where the read failed.
    Stat(Option<Timestamp>),
    /// The superseded library has been unloaded.
    Released,
}

/// The outside work to do next.
#[derive(Clone, Copy, Debug, PartialEq, Eq, Structural)]
pub enum Action {
    /// Load the library from the supervisor's path, as this generation.
    Load { generation: u32 },
    /// Call `foo`, and call `bar` if and only if `call_bar` is set.
    Invoke { call_bar: bool },
    /// Sleep for this many seconds.
    Sleep { seconds: u64 },
    /// Read the modification time of the file at the supervisor's path.
    Stat,
    /// Unload the current library.
    Release,
    /// End the process with this error.
    Abort(LoadError),
}

/// What a step asks of the caller: print the report, then perform the action.
#[derive(Clone, Copy, Debug, PartialEq, Eq, Structural)]
pub struct Outcome {
    pub report: Report,
    pub action: Action,
}

/// What a [`Supervisor`] stands for.
pub struct SupervisorView {
    /// The path of the backing file.
    pub path: Seq<char>,
    /// The number of the current load, or of the one under way.
    pub generation: u32,
    /// The loaded library, if there is one.
    pub current: Option<HandleView>,
    /// The modification time last read, or `None` while none was read.
    pub last_known_mtime: Option<Timestamp>,
    /// The outside work under way.
    pub awaiting: Awaiting,
}

impl SupervisorView {
    /// The state in which a supervisor of `path` starts.
    pub open spec fn initial(path: Seq<char>) -> SupervisorView {
        SupervisorView {
            path,
            generation: 0,
            current: None,
            last_known_mtime: None,
            awaiting: Awaiting::Load,
        }
    }

    /// A library is held exactly while no load is under way, and it is the
    /// one that the supervisor's path and generation name.
    pub open spec fn wf(self) -> bool {
        match self.current {
            None => self.awaiting is Load,
            Some(handle) => {
                &&& !(self.awaiting is Load)
                &&& handle.path == self.path
                &&& handle.generation == self.generation
            },
        }
    }

    /// The state that the work under way belongs to.
    pub open spec fn phase(self) -> Phase {
        match self.awaiting {
            Awaiting::Load => Phase::Loading,
            Awaiting::Invoke | Awaiting::Sleep | Awaiting::Stat => Phase::Running,
            Awaiting::Release => Phase::ReloadPending,
        }
    }

    /// Whether the current library exports `bar`.
    pub open spec fn has_bar(self) -> bool {
        match self.current {
            Some(handle) => handle.has_bar,
            None => false,
        }
    }

    /// The action whose end the supervisor waits for.
    pub open spec fn pending(self) -> Action {
        match self.awaiting {
            Awaiting::Load => Action::Load { generation: self.generation },
            Awaiting::Invoke => Action::Invoke { call_bar: self.has_bar() },
            Awaiting::Sleep => Action::Sleep { seconds: TICK_SECONDS },
            Awaiting::Stat => Action::Stat,
            Awaiting::Release => Action::Release,
        }
    }

    /// Whether `event` reports the end of the work under way. An invocation
    /// fits only if `bar` was called exactly where the current library has it.
    pub open spec fn fits(self, event: Event) -> bool {
        match (self.awaiting, event) {
            (Awaiting::Load, Event::Loaded(_)) => true,
            (Awaiting::Invoke, Event::Invoked { bar, .. }) => (bar is Some) == self.has_bar(),
            (Awaiting::Sleep, Event::Slept) => true,
            (Awaiting::Stat, Event::Stat(_)) => true,
            (Awaiting::Release, Event::Released) => true,
            _ => false,
        }
    }

    /// Whether `observed` differs from a modification time read before. The
    /// first time ever read differs from nothing.
    pub open spec fn changed(self, observed: Timestamp) -> bool {
        match self.last_known_mtime {
            Some(known) => known != observed,
            None => false,
        }
    }

    /// Whether the generation counter has room for the step on `event`.
    pub open spec fn within_limits(self, event: Event) -> bool {
        (self.awaiting is Release && event is Released) ==> self.generation < u32::MAX
    }

    /// The state after `event`. An event that does not fit changes nothing.
    pub open spec fn after(self, event: Event) -> SupervisorView {
        match (self.awaiting, event) {
            (Awaiting::Load, Event::Loaded(probe)) => match load_result(
                self.path,
                self.generation,
                probe,
            ) {
                Ok(handle) => SupervisorView {
                    current: Some(handle),
                    awaiting: Awaiting::Invoke,
                    ..self
                },
                Err(_) => self,
            },
            (Awaiting::Invoke, Event::Invoked { .. }) => if self.fits(event) {
                SupervisorView { awaiting: Awaiting::Sleep, ..self }
            } else {
                self
            },
            (Awaiting::Sleep, Event::Slept) => SupervisorView { awaiting: Awaiting::Stat, ..self },
            (Awaiting::Stat, Event::Stat(None)) => SupervisorView {
                awaiting: Awaiting::Invoke,
                ..self
            },
            (Awaiting::Stat, Event::Stat(Some(observed))) => SupervisorView {
                last_known_mtime: Some(observed),
                awaiting: if self.changed(observed) {
                    Awaiting::Release
                } else {
                    Awaiting::Invoke
                },
                ..self
            },
            (Awaiting::Release, Event::Released) => SupervisorView {
                generation: (self.generation + 1) as u32,
                current: None,
                awaiting: Awaiting::Load,
                ..self
            },
            _ => self,
        }
    }

    /// What the step on `event` prints.
    pub open spec fn report(self, event: Event) -> Report {
        match (self.awaiting, event) {
            (Awaiting::Invoke, Event::Invoked { foo, bar }) => if self.fits(event) {
                Report::Tick { generation: self.generation, foo, bar }
            } else {
                Report::Silent
            },
            (Awaiting::Stat, Event::Stat(Some(observed))) => if self.changed(observed) {
                Report::Reloading
            } else {
                Report::Silent
            },
            _ => Report::Silent,
        }
    }

    /// The error that ends supervision on `event`: that of a failed load.
    pub open spec fn fatal(self, event: Event) -> Option<LoadError> {
        match (self.awaiting, event) {
            (Awaiting::Load, Event::Loaded(probe)) => probe.error(),
            _ => None,
        }
    }

    /// What the step on `event` asks of the caller: to give up after a failed
    /// load, and otherwise to do the work that the next state waits for.
    pub open spec fn outcome(self, event: Event) -> Outcome {
        Outcome {
            report: self.report(event),
            action: match self.fatal(event) {
                Some(error) => Action::Abort(error),
                None => self.after(event).pending(),
            },
        }
    }
}

/// The supervisor of one shared library: the library that is loaded, the
/// modification time last read, and the outside work under way.
#[derive(Debug)]
pub struct Supervisor {
    path: String,
    generation: u32,
    current: Option<LibraryHandle>,
    last_known_mtime: Option<Timestamp>,
    awaiting: Awaiting,
}

impl View for Supervisor {
    type V = SupervisorView;

    closed spec fn view(&self) -> SupervisorView {
        SupervisorView {
            path: self.path@,
            generation: self.generation,
            current: match self.current {
                Some(handle) => Some(handle@),
                None => None,
            },
            last_known_mtime: self.last_known_mtime,
            awaiting: self.awaiting,
        }
    }
}

impl Supervisor {
    #[verifier::type_invariant]
    spec fn inv(self) -> bool {
        self@.wf()
    }

    /// A supervisor of the library at `path`, about to load it for the first
    /// time. No modification time has been read yet.
    pub fn new(path: &str) -> (supervisor: Supervisor)
        ensures
            supervisor@ == SupervisorView::initial(path@),
    {
        Supervisor {
            path: String::from_str(path),
            generation: 0,
            current: None,
            last_known_mtime: None,
            awaiting: Awaiting::Load,
        }
    }

    /// The path of the backing file.
    pub fn path(&self) -> (path: &str)
        ensures
            path@ == self@.path,
    {
        self.path.as_str()
    }

    /// The number of the current load, or of the one under way.
    pub fn generation(&self) -> (generation: u32)
        ensures
            generation == self@.generation,
    {
        self.generation
    }

    /// The loaded library, if there is one.
    pub fn current(&self) -> (current: Option<&LibraryHandle>)
        ensures
            self@.wf(),
            match current {
                Some(handle) => self@.current == Some(handle@),
                None => self@.current is None,
            },
    {
        proof {
            use_type_invariant(self);
        }
        self.current.as_ref()
    }

    /// The modification time last read, or `None` while none was read.
    pub fn last_known_mtime(&self) -> (mtime: Option<Timestamp>)
        ensures
            mtime == self@.last_known_mtime,
    {
        self.last_known_mtime
    }

    /// The outside work under way.
    pub fn awaiting(&self) -> (awaiting: Awaiting)
        ensures
            awaiting == self@.awaiting,
    {
        self.awaiting
    }

    /// The state of the supervisor.
    pub fn phase(&self) -> (phase: Phase)
        ensures
            phase == self@.phase(),
    {
        match self.awaiting {
            Awaiting::Load => Phase::Loading,
            Awaiting::Invoke => Phase::Running,
            Awaiting::Sleep => Phase::Running,
            Awaiting::Stat => Phase::Running,
            Awaiting::Release => Phase::ReloadPending,
        }
    }

    fn has_bar(&self) -> (present: bool)
        ensures
            present == self@.has_bar(),
    {
        match &self.current {
            Some(handle) => handle.has_bar(),
            None => false,
        }
    }

    /// The action whose end the supervisor waits for.
    pub fn pending(&self) -> (action: Action)
        ensures
            action == self@.pending(),
    {
        match self.awaiting {
            Awaiting::Load => Action::Load { generation: self.generation },
            Awaiting::Invoke => Action::Invoke { call_bar: self.has_bar() },
            Awaiting::Sleep => Action::Sleep { seconds: TICK_SECONDS },
            Awaiting::Stat => Action::Stat,
            Awaiting::Release => Action::Release,
        }
    }

    /// Whether the generation counter has room for the step on `event`. It
    /// has, unless the step is the release that ends generation `u32::MAX`.
    pub fn within_limits(&self, event: &Event) -> (room: bool)
        ensures
            room == self@.within_limits(*event),
    {
        match (self.awaiting, event) {
            (Awaiting::Release, Event::Released) => self.generation < u32::MAX,
            _ => true,
        }
    }

    /// Whether `observed` differs from a modification time read before.
    fn changed(&self, observed: Timestamp) -> (changed: bool)
        ensures
            changed == self@.changed(observed),
    {
        match self.last_known_mtime {
            Some(known) => known.nanos != observed.nanos,
            None => false,
        }
    }

    /// Takes the supervisor through one event, and says what to print and
    /// what to do next. An event that does not report the end of the work
    /// under way changes nothing and has that work asked for again.
    pub fn step(self, event: Event) -> (next: (Supervisor, Outcome))
        requires
            self@.within_limits(event),
        ensures
            next.0@ == self@.after(event),
            next.1 == self@.outcome(event),
            next.0@.wf(),
    {
        proof {
            use_type_invariant(&self);
        }
        let mut report = Report::Silent;
        let mut fatal: Option<LoadError> = None;
        let mut state = self;
        match (state.awaiting, event) {
            (Awaiting::Load, Event::Loaded(probe)) => {
                match LibraryHandle::load(state.path.as_str(), state.generation, probe) {
                    Ok(handle) => {
                        state = Supervisor {
                            path: state.path,
                            generation: state.generation,
                            current: Some(handle),
                            last_known_mtime: state.last_known_mtime,
                            awaiting: Awaiting::Invoke,
                        };
                    },
                    Err(error) => {
                        fatal = Some(error);
                    },
                }
            },
            (Awaiting::Invoke, Event::Invoked { foo, bar }) => {
                if bar.is_some() == state.has_bar() {
                    report = Report::Tick { generation: state.generation, foo, bar };
                    state.awaiting = Awaiting::Sleep;
                }
            },
            (Awaiting::Sleep, Event::Slept) => {
                state.awaiting = Awaiting::Stat;
            },
            (Awaiting::Stat, Event::Stat(None)) => {
                state.awaiting = Awaiting::Invoke;
            },
            (Awaiting::Stat, Event::Stat(Some(observed))) => {
                let changed = state.changed(observed);
                state.last_known_mtime = Some(observed);
                if changed {
                    report = Report::Reloading;
                    state.awaiting = Awaiting::Release;
                } else {
                    state.awaiting = Awaiting::Invoke;
                }
            },
            (Awaiting::Release, Event::Released) => {
                state = Supervisor {
                    path: state.path,
                    generation: state.generation + 1,
                    current: None,
                    last_known_mtime: state.last_known_mtime,
                    awaiting: Awaiting::Load,
                };
            },
            _ => {},
        }
        let action = match fatal {
            Some(error) => Action::Abort(error),
            None => state.pending(),
        };
        proof {
            use_type_invariant(&state);
        }
        (state, Outcome { report, action })
    }
}

} // verus!
