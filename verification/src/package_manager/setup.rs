//! Making sure that a tool is there. A connector that needs a tool first
//! finds out whether it starts. If it does not, the installers are run in
//! order; after each that succeeds the tool is tried again, and the first
//! after which it starts ends the search. It is a failure if none does.

use crate::error::{ErrorView, MicasaError};
use vstd::prelude::*;

verus! {

/// How far a setup has come.
#[derive(Debug, Clone, Copy, PartialEq, Eq, Structural)]
pub enum SetupPhase {
    /// The tool is to be tried, before anything was installed.
    Probing,
    /// The installer under the cursor is to be run.
    Running,
    /// The tool is to be tried, after the installer under the cursor
    /// succeeded.
    Checking,
    /// The setup has ended.
    Ended,
}

/// What the caller is to do next.
#[derive(Debug, Clone, Copy, PartialEq, Eq, Structural)]
pub enum SetupAction {
    /// Find out whether the tool starts; report `Starts`.
    Probe,
    /// Run the installer at this place in the list; report `Ran`.
    Run(usize),
    /// Nothing: the setup has ended.
    Done,
}

/// What the caller reports back.
#[derive(Debug, Clone, Copy, PartialEq, Eq, Structural)]
pub enum SetupEvent {
    /// Whether the tool starts.
    Starts(bool),
    /// Whether the installer ran and succeeded.
    Ran(bool),
}

/// The state of a setup.
pub struct ToolSetupView {
    /// The command lines of the installers, in the order in which they are
    /// tried.
    pub installers: Seq<Seq<Seq<char>>>,
    /// The installer that is being tried.
    pub cursor: usize,
    pub phase: SetupPhase,
    /// Whether the tool is there, once the setup has ended.
    pub result: Option<bool>,
}

impl ToolSetupView {
    /// A setup either has ended, or tries the tool, or tries an installer of
    /// its list.
    pub open spec fn wf(self) -> bool {
        &&& self.cursor <= self.installers.len() <= usize::MAX
        &&& self.phase == SetupPhase::Probing ==> self.cursor == 0
        &&& self.phase == SetupPhase::Running || self.phase == SetupPhase::Checking
            ==> self.cursor < self.installers.len()
        &&& self.phase == SetupPhase::Ended <==> self.result is Some
    }

    /// The state in which a setup with `installers` begins.
    pub open spec fn start(installers: Seq<Seq<Seq<char>>>) -> ToolSetupView {
        ToolSetupView { installers, cursor: 0, phase: SetupPhase::Probing, result: None }
    }

    /// What the caller is to do in this state.
    pub open spec fn action(self) -> SetupAction {
        match self.phase {
            SetupPhase::Probing => SetupAction::Probe,
            SetupPhase::Running => SetupAction::Run(self.cursor),
            SetupPhase::Checking => SetupAction::Probe,
            SetupPhase::Ended => SetupAction::Done,
        }
    }

    /// The setup ends: the tool is there, or it is not.
    pub open spec fn end(self, there: bool) -> ToolSetupView {
        ToolSetupView { phase: SetupPhase::Ended, result: Some(there), ..self }
    }

    /// The state after the installer under the cursor did not help: the next
    /// one is run, or the list is exhausted and the setup has failed.
    pub open spec fn next(self) -> ToolSetupView {
        if self.cursor + 1 < self.installers.len() {
            ToolSetupView {
                cursor: (self.cursor + 1) as usize,
                phase: SetupPhase::Running,
                ..self
            }
        } else {
            ToolSetupView { cursor: self.installers.len() as usize, ..self }.end(false)
        }
    }

    /// The state after `event`. An event that does not answer the pending
    /// action changes nothing.
    pub open spec fn step(self, event: SetupEvent) -> ToolSetupView {
        match (self.phase, event) {
            (SetupPhase::Probing, SetupEvent::Starts(true)) => self.end(true),
            (SetupPhase::Probing, SetupEvent::Starts(false)) => if self.installers.len() > 0 {
                ToolSetupView { phase: SetupPhase::Running, ..self }
            } else {
                self.end(false)
            },
            (SetupPhase::Running, SetupEvent::Ran(true)) => ToolSetupView {
                phase: SetupPhase::Checking,
                ..self
            },
            (SetupPhase::Running, SetupEvent::Ran(false)) => self.next(),
            (SetupPhase::Checking, SetupEvent::Starts(true)) => self.end(true),
            (SetupPhase::Checking, SetupEvent::Starts(false)) => self.next(),
            _ => self,
        }
    }
}

/// The setup of one tool.
#[derive(Debug)]
pub struct ToolSetup {
    installers: Vec<Vec<String>>,
    cursor: usize,
    phase: SetupPhase,
    result: Option<bool>,
}

impl View for ToolSetup {
    type V = ToolSetupView;

    closed spec fn view(&self) -> ToolSetupView {
        ToolSetupView {
            installers: self.installers.deep_view(),
            cursor: self.cursor,
            phase: self.phase,
            result: self.result,
        }
    }
}

impl ToolSetup {
    #[verifier::type_invariant]
    spec fn well_formed(self) -> bool {
        self@.wf()
    }

    /// Begins the setup of a tool that `installers` may install, tried in
    /// this order.
    pub fn start(installers: Vec<Vec<String>>) -> (out: Self)
        ensures
            out@ == ToolSetupView::start(installers.deep_view()),
    {
        assert(installers.deep_view().len() == installers.len());
        ToolSetup { installers, cursor: 0, phase: SetupPhase::Probing, result: None }
    }

    /// What the caller is to do next.
    pub fn action(&self) -> (out: SetupAction)
        ensures
            out == self@.action(),
    {
        match self.phase {
            SetupPhase::Probing => SetupAction::Probe,
            SetupPhase::Running => SetupAction::Run(self.cursor),
            SetupPhase::Checking => SetupAction::Probe,
            SetupPhase::Ended => SetupAction::Done,
        }
    }

    /// The command lines of the installers.
    pub fn installers(&self) -> (out: &Vec<Vec<String>>)
        ensures
            out.deep_view() == self@.installers,
    {
        &self.installers
    }

    /// How the setup ended: well, or with a failure that says `failure`;
    /// `None` while it goes on.
    pub fn result(&self, failure: &str) -> (out: Option<Result<(), MicasaError>>)
        ensures
            match out {
                None => self@.result is None,
                Some(Ok(_)) => self@.result == Some(true),
                Some(Err(e)) => self@.result == Some(false) && e@
                    == ErrorView::CommandExecutionFailed(failure@),
            },
    {
        match self.result {
            None => None,
            Some(true) => Some(Ok(())),
            Some(false) => Some(Err(MicasaError::CommandExecutionFailed(failure.to_owned()))),
        }
    }

    fn end(self, there: bool) -> (out: Self)
        ensures
            out@ == self@.end(there),
    {
        proof {
            use_type_invariant(&self);
        }
        let ToolSetup { installers, cursor, phase: _, result: _ } = self;
        ToolSetup { installers, cursor, phase: SetupPhase::Ended, result: Some(there) }
    }

    fn next(self) -> (out: Self)
        requires
            self.phase == SetupPhase::Running || self.phase == SetupPhase::Checking,
        ensures
            out@ == self@.next(),
    {
        proof {
            use_type_invariant(&self);
        }
        let ToolSetup { installers, cursor, phase: _, result } = self;
        assert(installers.deep_view().len() == installers.len());
        if cursor + 1 < installers.len() {
            ToolSetup { installers, cursor: cursor + 1, phase: SetupPhase::Running, result }
        } else {
            let cursor = installers.len();
            ToolSetup { installers, cursor, phase: SetupPhase::Ended, result: Some(false) }
        }
    }

    /// Takes the answer to the pending action and moves on.
    pub fn step(self, event: SetupEvent) -> (out: Self)
        ensures
            out@ == self@.step(event),
            out@.wf(),
    {
        proof {
            use_type_invariant(&self);
        }
        let out = match self.phase {
            SetupPhase::Probing => match event {
                SetupEvent::Starts(true) => self.end(true),
                SetupEvent::Starts(false) => {
                    assert(self.installers.deep_view().len() == self.installers.len());
                    if self.installers.len() > 0 {
                        let ToolSetup { installers, cursor, phase: _, result } = self;
                        ToolSetup { installers, cursor, phase: SetupPhase::Running, result }
                    } else {
                        self.end(false)
                    }
                },
                _ => self,
            },
            SetupPhase::Running => match event {
                SetupEvent::Ran(true) => {
                    let ToolSetup { installers, cursor, phase: _, result } = self;
                    ToolSetup { installers, cursor, phase: SetupPhase::Checking, result }
                },
                SetupEvent::Ran(false) => self.next(),
                _ => self,
            },
            SetupPhase::Checking => match event {
                SetupEvent::Starts(true) => self.end(true),
                SetupEvent::Starts(false) => self.next(),
                _ => self,
            },
            SetupPhase::Ended => self,
        };
        proof {
            use_type_invariant(&out);
        }
        out
    }
}

/// A step keeps a setup well formed.
pub proof fn lemma_step_wf(state: ToolSetupView, event: SetupEvent)
    requires
        state.wf(),
    ensures
        state.step(event).wf(),
{
}

/// A setup ends well only when the tool was found to start.
pub proof fn law_success_means_the_tool_starts(state: ToolSetupView, event: SetupEvent)
    requires
        state.wf(),
        state.result is None,
        state.step(event).result == Some(true),
    ensures
        event == SetupEvent::Starts(true),
        state.action() == SetupAction::Probe,
{
}

/// The installers are tried in order, each once: an installer that fails,
/// or after which the tool still does not start, is followed by the next
/// one, and the last one by failure.
pub proof fn law_installers_in_order(state: ToolSetupView, event: SetupEvent)
    requires
        state.wf(),
        (state.phase == SetupPhase::Running && event == SetupEvent::Ran(false)) || (state.phase
            == SetupPhase::Checking && event == SetupEvent::Starts(false)),
    ensures
        state.cursor + 1 < state.installers.len() ==> state.step(event).action()
            == SetupAction::Run((state.cursor + 1) as usize),
        state.cursor + 1 == state.installers.len() ==> state.step(event).result == Some(false),
{
}

/// Whether `event` answers the action that is pending in `state`.
pub open spec fn answers(state: ToolSetupView, event: SetupEvent) -> bool {
    match state.action() {
        SetupAction::Probe => event is Starts,
        SetupAction::Run(_) => event is Ran,
        SetupAction::Done => false,
    }
}

/// How many answers a setup can still take, at most: one for the first
/// try, and two for each installer that is left.
pub open spec fn remaining(state: ToolSetupView) -> int {
    match state.phase {
        SetupPhase::Probing => 2 * (state.installers.len() as int) + 1,
        SetupPhase::Running => 2 * (state.installers.len() - state.cursor),
        SetupPhase::Checking => 2 * (state.installers.len() - state.cursor) - 1,
        SetupPhase::Ended => 0,
    }
}

/// A setup comes to an end: every answer brings it closer.
pub proof fn law_setup_ends(state: ToolSetupView, event: SetupEvent)
    requires
        state.wf(),
        answers(state, event),
    ensures
        0 <= remaining(state.step(event)) < remaining(state),
{
}

} // verus!
