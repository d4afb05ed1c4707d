//! Running a native package manager's command, and once more with elevated
//! privileges where it failed for want of them.
//!
//! The command is first run as it is. If it fails, and the failure reads
//! like a lack of privileges, the host is asked whether it can elevate; if
//! it can, the command is run once more, elevated, and how that run ends is
//! how the attempt ends. In every other case the first failure stands.

use crate::error::{ErrorView, MicasaError};
use crate::package_manager::apt::AptWrapper;
use crate::package_manager::dnf::DnfWrapper;
use vstd::prelude::*;

verus! {

/// The tool whose command is run.
#[derive(Debug, Clone, Copy, PartialEq, Eq, Structural)]
pub enum Tool {
    Apt,
    Dnf,
}

/// Whether a failure of `tool` reads like a lack of privileges.
pub open spec fn wants_elevation(tool: Tool, failure: ErrorView) -> bool {
    match tool {
        Tool::Apt => crate::package_manager::apt::wants_elevation(failure),
        Tool::Dnf => crate::package_manager::dnf::wants_elevation(failure),
    }
}

/// How far an attempt has come.
#[derive(Debug, Clone, Copy, PartialEq, Eq, Structural)]
pub enum Phase {
    /// The command is to be run as it is.
    Plain,
    /// The command failed for want of privileges; the host is to say
    /// whether it can elevate.
    Asking,
    /// The command is to be run with elevated privileges.
    Elevated,
    /// The attempt has ended.
    Ended,
}

/// What the caller is to do next.
#[derive(Debug, Clone, Copy, PartialEq, Eq, Structural)]
pub enum Action {
    /// Run the command, elevated or not; report `Succeeded` or `Failed`.
    Run { elevated: bool },
    /// Find out whether the host can elevate; report `CanElevate`.
    Ask,
    /// Nothing: the attempt has ended.
    Done,
}

/// What the caller reports back.
#[derive(Debug)]
pub enum Event {
    /// The command succeeded.
    Succeeded,
    /// The command failed.
    Failed(MicasaError),
    /// Whether the host can elevate.
    CanElevate(bool),
}

/// What an `Event` denotes.
pub enum EventView {
    Succeeded,
    Failed(ErrorView),
    CanElevate(bool),
}

impl View for Event {
    type V = EventView;

    open spec fn view(&self) -> EventView {
        match self {
            Event::Succeeded => EventView::Succeeded,
            Event::Failed(e) => EventView::Failed(e@),
            Event::CanElevate(b) => EventView::CanElevate(*b),
        }
    }
}

/// The state of an attempt.
pub struct AttemptView {
    pub tool: Tool,
    pub phase: Phase,
    /// The failure of the last run.
    pub failure: Option<ErrorView>,
}

impl AttemptView {
    /// An elevated run is considered only after a failure that reads like a
    /// lack of privileges.
    pub open spec fn wf(self) -> bool {
        &&& self.phase == Phase::Plain ==> self.failure is None
        &&& self.phase == Phase::Asking || self.phase == Phase::Elevated ==> self.failure is Some
            && wants_elevation(self.tool, self.failure->0)
    }

    /// The state in which an attempt with `tool` begins.
    pub open spec fn start(tool: Tool) -> AttemptView {
        AttemptView { tool, phase: Phase::Plain, failure: None }
    }

    /// What the caller is to do in this state.
    pub open spec fn action(self) -> Action {
        match self.phase {
            Phase::Plain => Action::Run { elevated: false },
            Phase::Asking => Action::Ask,
            Phase::Elevated => Action::Run { elevated: true },
            Phase::Ended => Action::Done,
        }
    }

    /// How the attempt ended: `Ok` or the failure that stands; `None` while
    /// it goes on.
    pub open spec fn result(self) -> Option<Result<(), ErrorView>> {
        if self.phase != Phase::Ended {
            None
        } else {
            match self.failure {
                Some(e) => Some(Err(e)),
                None => Some(Ok(())),
            }
        }
    }

    /// The state after `event`. An event that does not answer the pending
    /// action changes nothing.
    pub open spec fn step(self, event: EventView) -> AttemptView {
        match (self.phase, event) {
            (Phase::Plain, EventView::Succeeded) => AttemptView { phase: Phase::Ended, ..self },
            (Phase::Plain, EventView::Failed(e)) => AttemptView {
                phase: if wants_elevation(self.tool, e) {
                    Phase::Asking
                } else {
                    Phase::Ended
                },
                failure: Some(e),
                ..self
            },
            (Phase::Asking, EventView::CanElevate(can)) => AttemptView {
                phase: if can {
                    Phase::Elevated
                } else {
                    Phase::Ended
                },
                ..self
            },
            (Phase::Elevated, EventView::Succeeded) => AttemptView {
                phase: Phase::Ended,
                failure: None,
                ..self
            },
            (Phase::Elevated, EventView::Failed(e)) => AttemptView {
                phase: Phase::Ended,
                failure: Some(e),
                ..self
            },
            _ => self,
        }
    }
}

/// One attempt to run a command of a native package manager.
#[derive(Debug)]
pub struct Attempt {
    tool: Tool,
    phase: Phase,
    failure: Option<MicasaError>,
}

impl View for Attempt {
    type V = AttemptView;

    closed spec fn view(&self) -> AttemptView {
        AttemptView {
            tool: self.tool,
            phase: self.phase,
            failure: match self.failure {
                Some(e) => Some(e@),
                None => None,
            },
        }
    }
}

impl Attempt {
    #[verifier::type_invariant]
    spec fn well_formed(self) -> bool {
        self@.wf()
    }

    /// Begins an attempt with `tool`.
    pub fn start(tool: Tool) -> (out: Self)
        ensures
            out@ == AttemptView::start(tool),
    {
        Attempt { tool, phase: Phase::Plain, failure: None }
    }

    /// What the caller is to do next.
    pub fn action(&self) -> (out: Action)
        ensures
            out == self@.action(),
    {
        match self.phase {
            Phase::Plain => Action::Run { elevated: false },
            Phase::Asking => Action::Ask,
            Phase::Elevated => Action::Run { elevated: true },
            Phase::Ended => Action::Done,
        }
    }

    /// How the attempt ended; `None` while it goes on.
    pub fn result(self) -> (out: Option<Result<(), MicasaError>>)
        ensures
            match out {
                Some(Ok(_)) => self@.result() == Some(Ok::<(), ErrorView>(())),
                Some(Err(e)) => self@.result() == Some(Err::<(), ErrorView>(e@)),
                None => self@.result() is None,
            },
    {
        if self.phase != Phase::Ended {
            return None;
        }
        let Attempt { tool: _, phase: _, failure } = self;
        match failure {
            Some(e) => Some(Err(e)),
            None => Some(Ok(())),
        }
    }

    /// Takes the answer to the pending action and moves on.
    pub fn step(self, event: Event) -> (out: Self)
        ensures
            out@ == self@.step(event@),
            out@.wf(),
    {
        proof {
            use_type_invariant(&self);
        }
        let Attempt { tool, phase, failure } = self;
        match phase {
            Phase::Plain => match event {
                Event::Succeeded => Attempt { tool, phase: Phase::Ended, failure },
                Event::Failed(e) => {
                    let wants = match tool {
                        Tool::Apt => AptWrapper::new().retries_elevated(&e, true),
                        Tool::Dnf => DnfWrapper::new().retries_elevated(&e, true),
                    };
                    Attempt {
                        tool,
                        phase: if wants {
                            Phase::Asking
                        } else {
                            Phase::Ended
                        },
                        failure: Some(e),
                    }
                },
                _ => Attempt { tool, phase, failure },
            },
            Phase::Asking => match event {
                Event::CanElevate(can) => Attempt {
                    tool,
                    phase: if can {
                        Phase::Elevated
                    } else {
                        Phase::Ended
                    },
                    failure,
                },
                _ => Attempt { tool, phase, failure },
            },
            Phase::Elevated => match event {
                Event::Succeeded => Attempt { tool, phase: Phase::Ended, failure: None },
                Event::Failed(e) => Attempt { tool, phase: Phase::Ended, failure: Some(e) },
                _ => Attempt { tool, phase, failure },
            },
            Phase::Ended => Attempt { tool, phase, failure },
        }
    }
}

/// A step keeps an attempt well formed.
pub proof fn lemma_step_wf(state: AttemptView, event: EventView)
    requires
        state.wf(),
    ensures
        state.step(event).wf(),
{
}

/// An elevated run has a cause: it is asked for only when the plain run
/// failed in a way that reads like a lack of privileges, and the host said
/// that it can elevate.
pub proof fn law_elevation_has_a_cause(state: AttemptView, event: EventView)
    requires
        state.wf(),
        state.action() != (Action::Run { elevated: true }),
        state.step(event).action() == (Action::Run { elevated: true }),
    ensures
        state.phase == Phase::Asking,
        event == EventView::CanElevate(true),
        state.failure is Some,
        wants_elevation(state.tool, state.failure->0),
{
}

/// The command is retried once: however the elevated run ends, the attempt
/// ends with it, in success or with the failure of that run.
pub proof fn law_retried_once(state: AttemptView, event: EventView)
    requires
        state.wf(),
        state.action() == (Action::Run { elevated: true }),
        event is Succeeded || event is Failed,
    ensures
        state.step(event).action() == Action::Done,
        event is Succeeded ==> state.step(event).result() == Some(Ok::<(), ErrorView>(())),
        event is Failed ==> state.step(event).result() == Some(
            Err::<(), ErrorView>(event->Failed_0),
        ),
{
}

/// Without a way to elevate, or with a failure of another kind, the first
/// failure stands.
pub proof fn law_first_failure_stands(tool: Tool, failure: ErrorView)
    ensures
        !wants_elevation(tool, failure) ==> AttemptView::start(tool).step(
            EventView::Failed(failure),
        ).result() == Some(Err::<(), ErrorView>(failure)),
        wants_elevation(tool, failure) ==> AttemptView::start(tool).step(
            EventView::Failed(failure),
        ).step(EventView::CanElevate(false)).result() == Some(Err::<(), ErrorView>(failure)),
{
}

/// An attempt comes to an end after three answers at most: a failed run,
/// the host's word on elevation, and the elevated run.
pub proof fn law_attempt_ends(state: AttemptView, first: EventView, second: EventView, third: EventView)
    requires
        state == AttemptView::start(state.tool),
        first is Succeeded || first is Failed,
        second is CanElevate,
        third is Succeeded || third is Failed,
    ensures
        state.step(first).step(second).step(third).action() == Action::Done,
{
}

} // verus!
