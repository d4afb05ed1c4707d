//! Uninstalling one package: every connector is asked, for the package may
//! have been installed from more than one source, and each that has it
//! installed removes it.

use crate::error::{ErrorView, MicasaError};
use crate::package_manager::{PackageInfo, PackageInfoView};
use vstd::prelude::*;

verus! {

/// What the caller reports back: a connector's answer to the last action.
#[derive(Debug)]
pub enum Event {
    /// The connector does not know the package; holds its failure.
    NotFound(MicasaError),
    /// The connector knows the package.
    Found(PackageInfo),
    /// The connector removed the package.
    Removed,
    /// The connector failed to remove the package.
    RemoveFailed(MicasaError),
}

/// What an `Event` denotes.
pub enum EventView {
    NotFound(ErrorView),
    Found(PackageInfoView),
    Removed,
    RemoveFailed(ErrorView),
}

impl View for Event {
    type V = EventView;

    open spec fn view(&self) -> EventView {
        match self {
            Event::NotFound(e) => EventView::NotFound(e@),
            Event::Found(info) => EventView::Found(info@),
            Event::Removed => EventView::Removed,
            Event::RemoveFailed(e) => EventView::RemoveFailed(e@),
        }
    }
}

/// What the caller is to do next. The number is the connector's place in the
/// ordered list.
#[derive(Debug, Clone, Copy, PartialEq, Eq, Structural)]
pub enum Action {
    /// Ask the connector for its information on the package; report
    /// `NotFound` or `Found`.
    Probe(usize),
    /// Have the connector remove the package; report `Removed` or
    /// `RemoveFailed`.
    Remove(usize),
    /// Nothing: the removal has ended.
    Done,
}

/// How a removal ended.
pub enum OutcomeView {
    /// These connectors had the package installed and removed it.
    Removed(Seq<usize>),
    /// No connector had the package installed.
    NotInstalled,
    /// A connector failed to remove the package, or there is no connector.
    Failed(ErrorView),
}

/// The state of a removal.
pub struct RemovalView {
    /// How many connectors there are.
    pub count: usize,
    /// The connector that is being dealt with.
    pub cursor: usize,
    /// Whether the connector under `cursor` has been asked to remove.
    pub removing: bool,
    /// The connectors that removed the package, in order.
    pub removed: Seq<usize>,
    /// The failure that ended the removal.
    pub failure: Option<ErrorView>,
    /// Whether the removal has ended.
    pub done: bool,
}

impl RemovalView {
    /// A removal either has ended, or deals with a connector of its list.
    pub open spec fn wf(self) -> bool {
        &&& self.cursor <= self.count
        &&& !self.done ==> self.cursor < self.count && self.failure is None
        &&& self.done ==> !self.removing
    }

    /// The state in which the removal over `count` connectors begins. With
    /// no connector it has already failed.
    pub open spec fn start(count: usize) -> RemovalView {
        RemovalView {
            count,
            cursor: 0,
            removing: false,
            removed: Seq::empty(),
            failure: if count == 0 {
                Some(ErrorView::NoPackageManagers)
            } else {
                None
            },
            done: count == 0,
        }
    }

    /// What the caller is to do in this state.
    pub open spec fn action(self) -> Action {
        if self.done {
            Action::Done
        } else if self.removing {
            Action::Remove(self.cursor)
        } else {
            Action::Probe(self.cursor)
        }
    }

    /// How the removal ended; `None` while it goes on.
    pub open spec fn outcome(self) -> Option<OutcomeView> {
        if !self.done {
            None
        } else if self.failure is Some {
            Some(OutcomeView::Failed(self.failure->0))
        } else if self.removed.len() == 0 {
            Some(OutcomeView::NotInstalled)
        } else {
            Some(OutcomeView::Removed(self.removed))
        }
    }

    /// The state after the connector under `cursor` has been dealt with.
    pub open spec fn proceed(self) -> RemovalView {
        if self.cursor + 1 < self.count {
            RemovalView { cursor: (self.cursor + 1) as usize, removing: false, ..self }
        } else {
            RemovalView { cursor: self.count, removing: false, done: true, ..self }
        }
    }

    /// The state after `event`. A connector that reports an installed
    /// version is asked to remove the package; a failure to remove ends the
    /// removal. An event that does not answer the pending action changes
    /// nothing.
    pub open spec fn step(self, event: EventView) -> RemovalView {
        if self.done {
            self
        } else if self.removing {
            match event {
                EventView::Removed => RemovalView {
                    removed: self.removed.push(self.cursor),
                    ..self
                }.proceed(),
                EventView::RemoveFailed(e) => RemovalView {
                    removing: false,
                    failure: Some(e),
                    done: true,
                    ..self
                },
                _ => self,
            }
        } else {
            match event {
                EventView::NotFound(_) => self.proceed(),
                EventView::Found(info) => if info.installed_version is Some {
                    RemovalView { removing: true, ..self }
                } else {
                    self.proceed()
                },
                _ => self,
            }
        }
    }

    /// The state after the events of `events`, in order.
    pub open spec fn run(self, events: Seq<EventView>) -> RemovalView
        decreases events.len(),
    {
        if events.len() == 0 {
            self
        } else {
            self.step(events[0]).run(events.drop_first())
        }
    }
}

/// How a removal ended.
#[derive(Debug)]
pub enum Outcome {
    /// These connectors had the package installed and removed it.
    Removed(Vec<usize>),
    /// No connector had the package installed.
    NotInstalled,
    /// A connector failed to remove the package, or there is no connector.
    Failed(MicasaError),
}

impl View for Outcome {
    type V = OutcomeView;

    open spec fn view(&self) -> OutcomeView {
        match self {
            Outcome::Removed(by) => OutcomeView::Removed(by@),
            Outcome::NotInstalled => OutcomeView::NotInstalled,
            Outcome::Failed(e) => OutcomeView::Failed(e@),
        }
    }
}

/// The removal of one package over an ordered list of connectors.
#[derive(Debug)]
pub struct Removal {
    count: usize,
    cursor: usize,
    removing: bool,
    removed: Vec<usize>,
    failure: Option<MicasaError>,
    done: bool,
}

impl View for Removal {
    type V = RemovalView;

    closed spec fn view(&self) -> RemovalView {
        RemovalView {
            count: self.count,
            cursor: self.cursor,
            removing: self.removing,
            removed: self.removed@,
            failure: match self.failure {
                Some(e) => Some(e@),
                None => None,
            },
            done: self.done,
        }
    }
}

impl Removal {
    #[verifier::type_invariant]
    spec fn well_formed(self) -> bool {
        self@.wf()
    }

    /// Begins the removal of a package over `count` connectors.
    pub fn start(count: usize) -> (out: Self)
        ensures
            out@ == RemovalView::start(count),
    {
        Removal {
            count,
            cursor: 0,
            removing: false,
            removed: Vec::new(),
            failure: if count == 0 {
                Some(MicasaError::NoPackageManagers)
            } else {
                None
            },
            done: count == 0,
        }
    }

    /// What the caller is to do next.
    pub fn action(&self) -> (out: Action)
        ensures
            out == self@.action(),
    {
        if self.done {
            Action::Done
        } else if self.removing {
            Action::Remove(self.cursor)
        } else {
            Action::Probe(self.cursor)
        }
    }

    /// How the removal ended; `None` while it goes on.
    pub fn outcome(self) -> (out: Option<Outcome>)
        ensures
            match out {
                Some(o) => self@.outcome() == Some(o@),
                None => self@.outcome() is None,
            },
    {
        if !self.done {
            return None;
        }
        let Removal { count: _, cursor: _, removing: _, removed, failure, done: _ } = self;
        match failure {
            Some(e) => Some(Outcome::Failed(e)),
            None => if removed.len() == 0 {
                Some(Outcome::NotInstalled)
            } else {
                Some(Outcome::Removed(removed))
            },
        }
    }

    fn proceed(self) -> (out: Self)
        requires
            !self.done,
        ensures
            out@ == self@.proceed(),
    {
        proof {
            use_type_invariant(&self);
        }
        let Removal { count, cursor, removing: _, removed, failure, done: _ } = self;
        if cursor + 1 < count {
            Removal { count, cursor: cursor + 1, removing: false, removed, failure, done: false }
        } else {
            Removal { count, cursor: count, removing: false, removed, failure, done: true }
        }
    }

    /// Takes the connector's answer to the pending action and moves on.
    pub fn step(self, event: Event) -> (out: Self)
        ensures
            out@ == self@.step(event@),
            out@.wf(),
    {
        proof {
            use_type_invariant(&self);
        }
        if self.done {
            return self;
        }
        if self.removing {
            match event {
                Event::Removed => {
                    let Removal { count, cursor, removing, removed, failure, done } = self;
                    let mut removed = removed;
                    removed.push(cursor);
                    Removal { count, cursor, removing, removed, failure, done }.proceed()
                },
                Event::RemoveFailed(e) => {
                    let Removal { count, cursor, removing: _, removed, failure: _, done: _ } = self;
                    Removal { count, cursor, removing: false, removed, failure: Some(e), done: true }
                },
                _ => self,
            }
        } else {
            match event {
                Event::NotFound(_) => self.proceed(),
                Event::Found(info) => {
                    if info.installed_version.is_some() {
                        let Removal { count, cursor, removing: _, removed, failure, done } = self;
                        Removal { count, cursor, removing: true, removed, failure, done }
                    } else {
                        self.proceed()
                    }
                },
                _ => self,
            }
        }
    }
}

/// A step keeps a removal well formed.
pub proof fn lemma_step_wf(state: RemovalView, event: EventView)
    requires
        state.wf(),
    ensures
        state.step(event).wf(),
{
}

/// Every connector that reports the package installed is asked to remove
/// it, and no other is.
pub proof fn law_removes_where_installed(state: RemovalView, event: EventView)
    requires
        state.wf(),
        state.action() is Probe,
    ensures
        state.step(event).action() is Remove <==> (event is Found
            && event->Found_0.installed_version is Some),
        state.step(event).action() is Remove ==> state.step(event).action() == Action::Remove(
            state.cursor,
        ),
{
}

/// The removal goes on to the next connector after one has removed the
/// package: it does not stop at the first.
pub proof fn law_goes_on_after_removal(state: RemovalView)
    requires
        state.wf(),
        state.action() is Remove,
        state.cursor + 1 < state.count,
    ensures
        state.step(EventView::Removed).action() == Action::Probe((state.cursor + 1) as usize),
        state.step(EventView::Removed).removed == state.removed.push(state.cursor),
{
}

/// How many of the reports show the package installed.
pub open spec fn installed_among(reports: Seq<Option<PackageInfoView>>) -> nat
    decreases reports.len(),
{
    if reports.len() == 0 {
        0
    } else {
        installed_among(reports.drop_first()) + if reports[0] is Some
            && reports[0]->0.installed_version is Some {
            1nat
        } else {
            0nat
        }
    }
}

/// The events of a removal in which connectors answer as `reports` say
/// (`None` for a failed lookup) and every removal succeeds.
pub open spec fn smooth_events(reports: Seq<Option<PackageInfoView>>) -> Seq<EventView>
    decreases reports.len(),
{
    if reports.len() == 0 {
        Seq::empty()
    } else {
        (match reports[0] {
            None => seq![EventView::NotFound(ErrorView::NoPackageManagers)],
            Some(info) => if info.installed_version is Some {
                seq![EventView::Found(info), EventView::Removed]
            } else {
                seq![EventView::Found(info)]
            },
        }) + smooth_events(reports.drop_first())
    }
}

pub proof fn lemma_run_append(state: RemovalView, first: Seq<EventView>, second: Seq<EventView>)
    ensures
        state.run(first + second) == state.run(first).run(second),
    decreases first.len(),
{
    if first.len() == 0 {
        assert(first + second =~= second);
    } else {
        assert((first + second).drop_first() =~= first.drop_first() + second);
        lemma_run_append(state.step(first[0]), first.drop_first(), second);
    }
}

/// Where every connector answers and every removal succeeds, the package is
/// removed from as many connectors as reported it installed, on top of those
/// before; and the removal has then ended.
pub proof fn lemma_smooth_run(state: RemovalView, reports: Seq<Option<PackageInfoView>>)
    requires
        state.wf(),
        !state.done,
        !state.removing,
        reports.len() == state.count - state.cursor,
    ensures
        state.run(smooth_events(reports)).done,
        state.run(smooth_events(reports)).failure is None,
        state.run(smooth_events(reports)).removed.len() == state.removed.len() + installed_among(
            reports,
        ),
    decreases reports.len(),
{
    let head = match reports[0] {
        None => seq![EventView::NotFound(ErrorView::NoPackageManagers)],
        Some(info) => if info.installed_version is Some {
            seq![EventView::Found(info), EventView::Removed]
        } else {
            seq![EventView::Found(info)]
        },
    };
    let rest = reports.drop_first();
    lemma_run_append(state, head, smooth_events(rest));
    let next = state.run(head);
    assert(next == if head.len() == 2 {
        state.step(head[0]).step(head[1])
    } else {
        state.step(head[0])
    }) by {
        reveal_with_fuel(RemovalView::run, 3);
        if head.len() == 2 {
            assert(head.drop_first().len() == 1);
            assert(head.drop_first().drop_first().len() == 0);
            assert(head.drop_first()[0] == head[1]);
        } else {
            assert(head.len() == 1);
            assert(head.drop_first().len() == 0);
        }
    }
    if next.done {
        assert(rest.len() == 0);
        assert(smooth_events(rest) =~= Seq::<EventView>::empty());
    } else {
        lemma_smooth_run(next, rest);
    }
}

/// "Not installed" is reported exactly if no connector reported the package
/// installed: where every connector answers and every removal succeeds, the
/// outcome is `NotInstalled` if none of the reports shows an installed
/// version, and `Removed` otherwise.
pub proof fn law_not_installed_iff_none_reports(reports: Seq<Option<PackageInfoView>>)
    requires
        0 < reports.len() <= usize::MAX,
    ensures
        ({
            let end = RemovalView::start(reports.len() as usize).run(smooth_events(reports));
            &&& end.outcome() is Some
            &&& end.outcome() == Some(OutcomeView::NotInstalled) <==> installed_among(reports) == 0
            &&& end.outcome()->0 is Removed <==> installed_among(reports) > 0
        }),
{
    lemma_smooth_run(RemovalView::start(reports.len() as usize), reports);
}

/// Whether `event` answers the action that is pending in `state`.
pub open spec fn answers(state: RemovalView, event: EventView) -> bool {
    match state.action() {
        Action::Probe(_) => event is NotFound || event is Found,
        Action::Remove(_) => event is Removed || event is RemoveFailed,
        Action::Done => false,
    }
}

/// How many answers a removal can still take, at most.
pub open spec fn remaining(state: RemovalView) -> int {
    if state.done {
        0
    } else {
        2 * (state.count - state.cursor) - if state.removing {
            1int
        } else {
            0int
        }
    }
}

/// A removal comes to an end: every answer brings it closer.
pub proof fn law_removal_ends(state: RemovalView, event: EventView)
    requires
        state.wf(),
        answers(state, event),
    ensures
        0 <= remaining(state.step(event)) < remaining(state),
        remaining(state) == 0 <==> state.action() == Action::Done,
{
}

} // verus!
