//! Installing one package: the connectors are tried in order until one has
//! the package installed in a satisfying version, or installs it.

use crate::error::{ErrorView, MicasaError};
use crate::manifest::{ManifestEntry, ManifestEntryView};
use crate::package_manager::{PackageInfo, PackageInfoView};
use crate::text::text_of;
use crate::version::{satisfies, satisfies_requirement};
use vstd::prelude::*;
use vstd::string::StringExecFns;

verus! {

/// What the caller reports back: a connector's answer to the last action.
#[derive(Debug)]
pub enum Event {
    /// The connector cannot act on this host.
    Unavailable,
    /// The connector does not know the package; holds its failure.
    NotFound(MicasaError),
    /// The connector knows the package.
    Found(PackageInfo),
    /// The connector installed the package.
    InstallSucceeded,
    /// The connector failed to install the package.
    InstallFailed(MicasaError),
}

/// What an `Event` denotes.
pub enum EventView {
    Unavailable,
    NotFound(ErrorView),
    Found(PackageInfoView),
    InstallSucceeded,
    InstallFailed(ErrorView),
}

impl View for Event {
    type V = EventView;

    open spec fn view(&self) -> EventView {
        match self {
            Event::Unavailable => EventView::Unavailable,
            Event::NotFound(e) => EventView::NotFound(e@),
            Event::Found(info) => EventView::Found(info@),
            Event::InstallSucceeded => EventView::InstallSucceeded,
            Event::InstallFailed(e) => EventView::InstallFailed(e@),
        }
    }
}

/// What the caller is to do next. The number is the connector's place in the
/// ordered list.
#[derive(Debug, Clone, Copy, PartialEq, Eq, Structural)]
pub enum Action {
    /// Ask the connector whether it is available and, if so, for its
    /// information on the package; report `Unavailable`, `NotFound` or `Found`.
    Probe(usize),
    /// Have the connector install the package; report `InstallSucceeded` or
    /// `InstallFailed`.
    Install(usize),
    /// Nothing: the resolution has ended.
    Done,
}

/// How a resolution ended.
#[derive(Debug)]
pub enum Outcome {
    /// The connector already has the package installed in this version,
    /// which meets the constraint. Nothing was installed.
    Satisfied { by: usize, version: String },
    /// The connector installed the package; it had offered this version.
    Installed { by: usize, version: String },
    /// No connector could serve the request.
    Failed(MicasaError),
}

/// What an `Outcome` denotes.
pub enum OutcomeView {
    Satisfied { by: usize, version: Seq<char> },
    Installed { by: usize, version: Seq<char> },
    Failed(ErrorView),
}

impl View for Outcome {
    type V = OutcomeView;

    open spec fn view(&self) -> OutcomeView {
        match self {
            Outcome::Satisfied { by, version } => OutcomeView::Satisfied {
                by: *by,
                version: version@,
            },
            Outcome::Installed { by, version } => OutcomeView::Installed {
                by: *by,
                version: version@,
            },
            Outcome::Failed(e) => OutcomeView::Failed(e@),
        }
    }
}

/// A connector that knew the package and did not serve the request, with
/// the version it offered, if it named one.
#[derive(Debug, Clone)]
pub struct Seen {
    pub source: String,
    pub version: Option<String>,
}

/// What a `Seen` denotes.
pub struct SeenView {
    pub source: Seq<char>,
    pub version: Option<Seq<char>>,
}

impl View for Seen {
    type V = SeenView;

    open spec fn view(&self) -> SeenView {
        SeenView { source: self.source@, version: self.version.deep_view() }
    }
}

/// What each element of `seen` denotes.
pub open spec fn seen_views(seen: Seq<Seen>) -> Seq<SeenView> {
    Seq::new(seen.len(), |i: int| seen[i]@)
}

/// What an optional outcome denotes.
pub open spec fn outcome_view(outcome: Option<Outcome>) -> Option<OutcomeView> {
    match outcome {
        Some(o) => Some(o@),
        None => None,
    }
}

/// What an optional failure denotes.
pub open spec fn failure_view(failure: Option<MicasaError>) -> Option<ErrorView> {
    match failure {
        Some(e) => Some(e@),
        None => None,
    }
}

/// The resolution of one package over an ordered list of connectors.
#[derive(Debug)]
pub struct Resolution {
    entry: ManifestEntry,
    sources: Vec<String>,
    cursor: usize,
    offer: Option<String>,
    outcome: Option<Outcome>,
    found: bool,
    offered: bool,
    last_failure: Option<MicasaError>,
    seen: Vec<Seen>,
}

/// The state of a resolution.
pub struct ResolutionView {
    /// The package and its constraint.
    pub entry: ManifestEntryView,
    /// The connectors' names, in the order in which they are tried.
    pub sources: Seq<Seq<char>>,
    /// The connector that is being tried.
    pub cursor: usize,
    /// The version that the connector under `cursor` offered and is now
    /// asked to install.
    pub offer: Option<Seq<char>>,
    /// How the resolution ended, once it has.
    pub outcome: Option<OutcomeView>,
    /// Whether some connector knew the package.
    pub found: bool,
    /// Whether some connector offered a version that meets the constraint.
    pub offered: bool,
    /// The failure of the last installation that was tried.
    pub last_failure: Option<ErrorView>,
    /// The connectors that knew the package and did not serve the request.
    pub seen: Seq<SeenView>,
}

impl ResolutionView {
    /// A resolution either has ended, or tries a connector of its list.
    pub open spec fn wf(self) -> bool {
        &&& self.cursor <= self.sources.len() <= usize::MAX
        &&& self.outcome is None ==> self.cursor < self.sources.len()
        &&& self.outcome is Some ==> self.offer is None
    }

    /// What the caller is to do in this state.
    pub open spec fn action(self) -> Action {
        if self.outcome is Some {
            Action::Done
        } else if self.offer is Some {
            Action::Install(self.cursor)
        } else {
            Action::Probe(self.cursor)
        }
    }

    /// The failure that ends a resolution which no connector served: the
    /// package is unknown everywhere; or it is known, constrained, and no
    /// connector offered a satisfying version; or else the last installation
    /// failure, and "not found" where nothing was ever tried.
    pub open spec fn exhaustion(self) -> ErrorView {
        if !self.found {
            ErrorView::PackageNotFound(self.entry.name)
        } else if self.entry.version_spec is Some && !self.offered {
            ErrorView::NoSatisfactoryVersion(self.entry.name, self.entry.version_spec->0)
        } else {
            match self.last_failure {
                Some(e) => e,
                None => ErrorView::PackageNotFound(self.entry.name),
            }
        }
    }

    /// The state after the connector under `cursor` has been dealt with: the
    /// next connector is tried, or the list is exhausted.
    pub open spec fn proceed(self) -> ResolutionView {
        if self.cursor + 1 < self.sources.len() {
            ResolutionView { cursor: (self.cursor + 1) as usize, offer: None, ..self }
        } else {
            ResolutionView {
                cursor: self.sources.len() as usize,
                offer: None,
                outcome: Some(OutcomeView::Failed(self.exhaustion())),
                ..self
            }
        }
    }

    /// The state in which the resolution has ended with `outcome`.
    pub open spec fn finish(self, outcome: OutcomeView) -> ResolutionView {
        ResolutionView { offer: None, outcome: Some(outcome), ..self }
    }

    /// The connector under `cursor` joins the list of those that did not
    /// serve, with the `version` it offered.
    pub open spec fn note(self, version: Option<Seq<char>>) -> ResolutionView {
        ResolutionView {
            seen: self.seen.push(SeenView { source: self.sources[self.cursor as int], version }),
            ..self
        }
    }

    /// What the connector's offer leads to, its installed version being
    /// absent or unsatisfying: with a satisfying available version the
    /// connector is asked to install; otherwise the next one is tried.
    pub open spec fn consider_offer(self, available: Option<Seq<char>>) -> ResolutionView {
        match available {
            None => self.note(None).proceed(),
            Some(version) => match satisfies(version, self.entry.version_spec) {
                Err(e) => self.finish(OutcomeView::Failed(e)),
                Ok(true) => ResolutionView { offer: Some(version), offered: true, ..self },
                Ok(false) => self.note(Some(version)).proceed(),
            },
        }
    }

    /// What a connector's information leads to: an installed version that
    /// meets the constraint ends the resolution, and nothing is installed;
    /// otherwise the offer is considered. A version or constraint that cannot
    /// be parsed ends the resolution with that error.
    pub open spec fn consider(self, info: PackageInfoView) -> ResolutionView {
        let known = ResolutionView { found: true, ..self };
        match info.installed_version {
            None => known.consider_offer(info.available_version),
            Some(version) => match satisfies(version, self.entry.version_spec) {
                Err(e) => known.finish(OutcomeView::Failed(e)),
                Ok(true) => known.finish(OutcomeView::Satisfied { by: self.cursor, version }),
                Ok(false) => known.consider_offer(info.available_version),
            },
        }
    }

    /// The state after `event`. An event that does not answer the pending
    /// action changes nothing.
    pub open spec fn step(self, event: EventView) -> ResolutionView {
        if self.outcome is Some {
            self
        } else if self.offer is Some {
            match event {
                EventView::InstallSucceeded => self.finish(
                    OutcomeView::Installed { by: self.cursor, version: self.offer->0 },
                ),
                EventView::InstallFailed(e) => ResolutionView {
                    last_failure: Some(e),
                    ..self
                }.note(self.offer).proceed(),
                _ => self,
            }
        } else {
            match event {
                EventView::Unavailable => self.proceed(),
                EventView::NotFound(_) => self.proceed(),
                EventView::Found(info) => self.consider(info),
                _ => self,
            }
        }
    }

    /// The state in which the resolution of `entry` over `sources` begins.
    pub open spec fn start(entry: ManifestEntryView, sources: Seq<Seq<char>>) -> ResolutionView {
        ResolutionView {
            entry,
            sources,
            cursor: 0,
            offer: None,
            outcome: if sources.len() == 0 {
                Some(OutcomeView::Failed(ErrorView::PackageNotFound(entry.name)))
            } else {
                None
            },
            found: false,
            offered: false,
            last_failure: None,
            seen: Seq::empty(),
        }
    }

    /// The state after the events of `events`, in order.
    pub open spec fn run(self, events: Seq<EventView>) -> ResolutionView
        decreases events.len(),
    {
        if events.len() == 0 {
            self
        } else {
            self.step(events[0]).run(events.drop_first())
        }
    }
}

impl View for Resolution {
    type V = ResolutionView;

    closed spec fn view(&self) -> ResolutionView {
        ResolutionView {
            entry: self.entry@,
            sources: self.sources.deep_view(),
            cursor: self.cursor,
            offer: self.offer.deep_view(),
            outcome: outcome_view(self.outcome),
            found: self.found,
            offered: self.offered,
            last_failure: failure_view(self.last_failure),
            seen: seen_views(self.seen@),
        }
    }
}

fn constraint_of(entry: &ManifestEntry) -> (out: Option<&str>)
    ensures
        text_of(out) == entry@.version_spec,
{
    match &entry.version_spec {
        Some(s) => Some(s.as_str()),
        None => None,
    }
}

impl Resolution {
    #[verifier::type_invariant]
    spec fn well_formed(self) -> bool {
        self@.wf()
    }

    /// Begins the resolution of `entry` over the connectors named `sources`,
    /// which are tried in this order. With no connector it has already ended:
    /// the package is not found.
    pub fn start(entry: ManifestEntry, sources: Vec<String>) -> (out: Self)
        ensures
            out@ == ResolutionView::start(entry@, sources.deep_view()),
            out@.wf(),
    {
        let outcome = if sources.len() == 0 {
            Some(Outcome::Failed(MicasaError::PackageNotFound(entry.name.clone())))
        } else {
            None
        };
        let out = Resolution {
            entry,
            sources,
            cursor: 0,
            offer: None,
            outcome,
            found: false,
            offered: false,
            last_failure: None,
            seen: Vec::new(),
        };
        assert(seen_views(out.seen@) =~= Seq::<SeenView>::empty());
        out
    }

    /// What the caller is to do next.
    pub fn action(&self) -> (out: Action)
        ensures
            out == self@.action(),
    {
        if self.outcome.is_some() {
            Action::Done
        } else if self.offer.is_some() {
            Action::Install(self.cursor)
        } else {
            Action::Probe(self.cursor)
        }
    }

    /// How the resolution ended; `None` while it goes on.
    pub fn outcome(&self) -> (out: Option<&Outcome>)
        ensures
            match out {
                Some(o) => self@.outcome == Some(o@),
                None => self@.outcome is None,
            },
    {
        self.outcome.as_ref()
    }

    /// The connectors that knew the package and did not serve the request,
    /// each with the version it offered: what to show with a failure.
    pub fn seen(&self) -> (out: &[Seen])
        ensures
            seen_views(out@) == self@.seen,
    {
        self.seen.as_slice()
    }

    fn exhaustion(&self) -> (out: MicasaError)
        ensures
            out@ == self@.exhaustion(),
    {
        if !self.found {
            MicasaError::PackageNotFound(self.entry.name.clone())
        } else if self.entry.version_spec.is_some() && !self.offered {
            match &self.entry.version_spec {
                Some(constraint) => MicasaError::NoSatisfactoryVersion(
                    self.entry.name.clone(),
                    constraint.clone(),
                ),
                None => MicasaError::PackageNotFound(self.entry.name.clone()),
            }
        } else {
            match &self.last_failure {
                Some(e) => e.duplicate(),
                None => MicasaError::PackageNotFound(self.entry.name.clone()),
            }
        }
    }

    fn proceed(self) -> (out: Self)
        requires
            self@.wf(),
            self.outcome is None,
        ensures
            out@ == self@.proceed(),
            out@.wf(),
    {
        let mut out = self;
        out.offer = None;
        if out.cursor + 1 < out.sources.len() {
            out.cursor = out.cursor + 1;
        } else {
            let failure = out.exhaustion();
            out.outcome = Some(Outcome::Failed(failure));
            out.cursor = out.sources.len();
        }
        out
    }

    fn finish(self, outcome: Outcome) -> (out: Self)
        requires
            self@.wf(),
        ensures
            out@ == self@.finish(outcome@),
            out@.wf(),
    {
        let mut out = self;
        out.offer = None;
        out.outcome = Some(outcome);
        out
    }

    fn note(self, version: Option<String>) -> (out: Self)
        requires
            self@.wf(),
            self.outcome is None,
        ensures
            out@ == self@.note(version.deep_view()),
            out@.wf(),
            out.outcome is None,
    {
        let mut out = self;
        let ghost before = seen_views(out.seen@);
        let seen = Seen { source: out.sources[out.cursor].clone(), version };
        let ghost added = seen@;
        let mut list: Vec<Seen> = Vec::new();
        core::mem::swap(&mut out.seen, &mut list);
        list.push(seen);
        out.seen = list;
        assert(seen_views(out.seen@) =~= before.push(added));
        out
    }

    fn consider_offer(self, available: Option<String>) -> (out: Self)
        requires
            self@.wf(),
            self.outcome is None,
        ensures
            out@ == self@.consider_offer(available.deep_view()),
            out@.wf(),
    {
        match available {
            None => self.note(None).proceed(),
            Some(version) => {
                match satisfies_requirement(version.as_str(), constraint_of(&self.entry)) {
                    Err(e) => self.finish(Outcome::Failed(e)),
                    Ok(true) => {
                        let mut out = self;
                        out.offer = Some(version);
                        out.offered = true;
                        out
                    },
                    Ok(false) => self.note(Some(version)).proceed(),
                }
            },
        }
    }

    fn consider(self, info: PackageInfo) -> (out: Self)
        requires
            self@.wf(),
            self.outcome is None,
        ensures
            out@ == self@.consider(info@),
            out@.wf(),
    {
        let mut known = self;
        known.found = true;
        let PackageInfo { name: _, installed_version, available_version, description: _, source: _ } =
            info;
        match installed_version {
            None => known.consider_offer(available_version),
            Some(version) => {
                match satisfies_requirement(version.as_str(), constraint_of(&known.entry)) {
                    Err(e) => known.finish(Outcome::Failed(e)),
                    Ok(true) => {
                        let by = known.cursor;
                        known.finish(Outcome::Satisfied { by, version })
                    },
                    Ok(false) => known.consider_offer(available_version),
                }
            },
        }
    }

    /// Takes the connector's answer to the pending action and moves on. An
    /// event that does not answer the pending action changes nothing.
    pub fn step(self, event: Event) -> (out: Self)
        ensures
            out@ == self@.step(event@),
            out@.wf(),
    {
        proof {
            use_type_invariant(&self);
        }
        if self.outcome.is_some() {
            return self;
        }
        if self.offer.is_some() {
            match event {
                Event::InstallSucceeded => {
                    let mut state = self;
                    let by = state.cursor;
                    let mut offer: Option<String> = None;
                    core::mem::swap(&mut state.offer, &mut offer);
                    match offer {
                        Some(version) => state.finish(Outcome::Installed { by, version }),
                        None => state,
                    }
                },
                Event::InstallFailed(e) => {
                    let mut state = self;
                    state.last_failure = Some(e);
                    let mut offer: Option<String> = None;
                    core::mem::swap(&mut state.offer, &mut offer);
                    state.note(offer).proceed()
                },
                _ => self,
            }
        } else {
            match event {
                Event::Unavailable => self.proceed(),
                Event::NotFound(_) => self.proceed(),
                Event::Found(info) => self.consider(info),
                _ => self,
            }
        }
    }
}

/// A step keeps a resolution well formed.
pub proof fn lemma_step_wf(state: ResolutionView, event: EventView)
    requires
        state.wf(),
    ensures
        state.step(event).wf(),
{
}

/// A run keeps a resolution well formed.
pub proof fn lemma_run_wf(state: ResolutionView, events: Seq<EventView>)
    requires
        state.wf(),
    ensures
        state.run(events).wf(),
    decreases events.len(),
{
    if events.len() > 0 {
        lemma_step_wf(state, events[0]);
        lemma_run_wf(state.step(events[0]), events.drop_first());
    }
}

/// A resolution that has ended stays as it is, whatever is reported.
pub proof fn lemma_ended_stays(state: ResolutionView, events: Seq<EventView>)
    requires
        state.outcome is Some,
    ensures
        state.run(events) == state,
    decreases events.len(),
{
    if events.len() > 0 {
        lemma_ended_stays(state, events.drop_first());
    }
}

/// Resolution is idempotent: where a connector reports an installed version
/// that meets the constraint, the resolution ends as satisfied by that
/// connector, and no installation is asked for, then or later.
pub proof fn law_satisfied_installs_nothing(
    state: ResolutionView,
    info: PackageInfoView,
    later: Seq<EventView>,
)
    requires
        state.wf(),
        state.action() == Action::Probe(state.cursor),
        info.installed_version is Some,
        satisfies(info.installed_version->0, state.entry.version_spec) == Ok::<bool, ErrorView>(
            true,
        ),
    ensures
        state.step(EventView::Found(info)).outcome == Some(
            OutcomeView::Satisfied { by: state.cursor, version: info.installed_version->0 },
        ),
        state.step(EventView::Found(info)).run(later).action() == Action::Done,
{
    lemma_ended_stays(state.step(EventView::Found(info)), later);
}

/// An installation is asked of a connector only in answer to its own
/// information: it offers a version that meets the constraint, and has no
/// installed version that does.
pub proof fn law_install_follows_offer(state: ResolutionView, event: EventView)
    requires
        state.wf(),
        state.action() is Probe,
        state.step(event).action() is Install,
    ensures
        state.step(event).action() == Action::Install(state.cursor),
        event is Found,
        event->Found_0.available_version is Some,
        satisfies(event->Found_0.available_version->0, state.entry.version_spec) == Ok::<
            bool,
            ErrorView,
        >(true),
        event->Found_0.installed_version is Some ==> satisfies(
            event->Found_0.installed_version->0,
            state.entry.version_spec,
        ) == Ok::<bool, ErrorView>(false),
{
}

/// A failed lookup is forgotten: the resolution goes on in the same way
/// whatever the failure was, so it is never the final error.
pub proof fn law_lookup_failure_forgotten(
    state: ResolutionView,
    failure: ErrorView,
    other: ErrorView,
)
    ensures
        state.step(EventView::NotFound(failure)) == state.step(EventView::NotFound(other)),
        state.step(EventView::NotFound(failure)) == state.step(EventView::Unavailable),
{
}

/// Fallback: where the first of two or more connectors fails the lookup and
/// the second offers a version that meets the constraint, without having a
/// satisfying one installed, the second is asked to install, and its success
/// is the outcome.
pub proof fn law_fallback(
    entry: ManifestEntryView,
    sources: Seq<Seq<char>>,
    failure: ErrorView,
    info: PackageInfoView,
)
    requires
        2 <= sources.len() <= usize::MAX,
        info.installed_version is Some ==> satisfies(
            info.installed_version->0,
            entry.version_spec,
        ) == Ok::<bool, ErrorView>(false),
        info.available_version is Some,
        satisfies(info.available_version->0, entry.version_spec) == Ok::<bool, ErrorView>(true),
    ensures
        ({
            let begun = ResolutionView::start(entry, sources);
            let probed = begun.step(EventView::NotFound(failure)).step(EventView::Found(info));
            &&& begun.action() == Action::Probe(0)
            &&& begun.step(EventView::NotFound(failure)).action() == Action::Probe(1)
            &&& probed.action() == Action::Install(1)
            &&& probed.step(EventView::InstallSucceeded).outcome == Some(
                OutcomeView::Installed { by: 1, version: info.available_version->0 },
            )
        }),
{
}

/// An unknown package: where no connector of the list finds the package,
/// the resolution ends with "not found".
pub proof fn law_unknown_everywhere(state: ResolutionView, events: Seq<EventView>)
    requires
        state.wf(),
        state.outcome is None,
        state.offer is None,
        !state.found,
        events.len() == state.sources.len() - state.cursor,
        forall|i: int| 0 <= i < events.len() ==> events[i] is NotFound || events[i] is Unavailable,
    ensures
        state.run(events).outcome == Some(
            OutcomeView::Failed(ErrorView::PackageNotFound(state.entry.name)),
        ),
    decreases events.len(),
{
    let next = state.step(events[0]);
    if next.outcome is Some {
        assert(events.len() == 1);
        lemma_ended_stays(next, events.drop_first());
    } else {
        law_unknown_everywhere(next, events.drop_first());
    }
}

/// How one package of a batch fared.
#[derive(Debug, Clone)]
pub struct PackageResult {
    pub name: String,
    pub success: bool,
    /// The failure's message.
    pub error: Option<String>,
}

/// What a `PackageResult` denotes.
pub struct PackageResultView {
    pub name: Seq<char>,
    pub success: bool,
    pub error: Option<Seq<char>>,
}

impl View for PackageResult {
    type V = PackageResultView;

    open spec fn view(&self) -> PackageResultView {
        PackageResultView { name: self.name@, success: self.success, error: self.error.deep_view() }
    }
}

/// What each element of `results` denotes.
pub open spec fn result_views(results: Seq<PackageResult>) -> Seq<PackageResultView> {
    Seq::new(results.len(), |i: int| results[i]@)
}

/// How many of `results` are failures.
pub open spec fn failures(results: Seq<PackageResultView>) -> nat
    decreases results.len(),
{
    if results.len() == 0 {
        0
    } else {
        failures(results.drop_last()) + if results.last().success {
            0nat
        } else {
            1nat
        }
    }
}

/// The entry of the report for a package that ended with `failure`, or well.
pub open spec fn result_of(name: Seq<char>, failure: Option<ErrorView>) -> PackageResultView {
    match failure {
        None => PackageResultView { name, success: true, error: None },
        Some(e) => PackageResultView {
            name,
            success: false,
            error: Some(crate::error::message(e)),
        },
    }
}

/// How the batch ends: well if no package failed, else with a failure that
/// gives the number of packages that did.
pub open spec fn conclusion(results: Seq<PackageResultView>) -> Result<(), ErrorView> {
    if failures(results) == 0 {
        Ok(())
    } else {
        Err(
            ErrorView::CommandExecutionFailed(
                crate::text::decimal(failures(results)) + " package(s) failed to install"@,
            ),
        )
    }
}

/// One line for each failed package of `results`, in order: its name and
/// the failure's message.
pub open spec fn failure_lines(results: Seq<PackageResultView>) -> Seq<Seq<char>>
    decreases results.len(),
{
    if results.len() == 0 {
        Seq::empty()
    } else if results.last().success {
        failure_lines(results.drop_last())
    } else {
        failure_lines(results.drop_last()).push(
            "  - "@ + results.last().name + ": "@ + (match results.last().error {
                Some(why) => why,
                None => "Unknown error"@,
            }),
        )
    }
}

/// The lines of the summary of a batch: a heading between two rules, how
/// many packages succeeded out of how many, and, where some failed, the
/// list of them.
pub open spec fn summary(results: Seq<PackageResultView>) -> Seq<Seq<char>> {
    seq![
        Seq::empty(),
        crate::text::repeated("="@, 60),
        "Installation Summary"@,
        crate::text::repeated("="@, 60),
        "Successful: "@ + crate::text::decimal((results.len() - failures(results)) as nat) + "/"@
            + crate::text::decimal(results.len()),
    ] + (if failures(results) > 0 {
        seq![Seq::empty(), "Failed packages:"@] + failure_lines(results)
    } else {
        Seq::empty()
    })
}

pub proof fn lemma_failures_bound(results: Seq<PackageResultView>)
    ensures
        failures(results) <= results.len(),
    decreases results.len(),
{
    if results.len() > 0 {
        lemma_failures_bound(results.drop_last());
    }
}

/// The batch fails exactly if one of its packages did.
pub proof fn law_batch_fails_iff_one_does(results: Seq<PackageResultView>)
    ensures
        conclusion(results) is Err <==> exists|i: int|
            0 <= i < results.len() && !(#[trigger] results[i]).success,
    decreases results.len(),
{
    if results.len() > 0 {
        let init = results.drop_last();
        law_batch_fails_iff_one_does(init);
        if conclusion(init) is Err {
            let i = choose|i: int| 0 <= i < init.len() && !(#[trigger] init[i]).success;
            assert(!results[i].success);
        }
        if exists|i: int| 0 <= i < results.len() && !(#[trigger] results[i]).success {
            let i = choose|i: int| 0 <= i < results.len() && !(#[trigger] results[i]).success;
            if i < init.len() {
                assert(!init[i].success);
            }
        }
    }
}

/// The results of a batch of installations. Each package is resolved by
/// itself; a failure is recorded and the batch goes on.
#[derive(Debug)]
pub struct BatchReport {
    results: Vec<PackageResult>,
}

impl View for BatchReport {
    type V = Seq<PackageResultView>;

    closed spec fn view(&self) -> Seq<PackageResultView> {
        result_views(self.results@)
    }
}

impl BatchReport {
    /// The report of a batch in which nothing has been tried yet.
    pub fn new() -> (out: Self)
        ensures
            out@ == Seq::<PackageResultView>::empty(),
    {
        let out = BatchReport { results: Vec::new() };
        assert(out@ =~= Seq::<PackageResultView>::empty());
        out
    }

    /// Records that the installation of `name` ended with `failure`, or well.
    pub fn record(&mut self, name: &str, failure: Option<&MicasaError>)
        ensures
            final(self)@ == old(self)@.push(
                result_of(
                    name@,
                    match failure {
                        Some(e) => Some(e@),
                        None => None,
                    },
                ),
            ),
    {
        let ghost before = self@;
        let result = match failure {
            None => PackageResult { name: name.to_owned(), success: true, error: None },
            Some(e) => PackageResult {
                name: name.to_owned(),
                success: false,
                error: Some(e.message()),
            },
        };
        let ghost added = result@;
        self.results.push(result);
        assert(self@ =~= before.push(added));
    }

    /// The recorded results, in order.
    pub fn results(&self) -> (out: &[PackageResult])
        ensures
            result_views(out@) == self@,
    {
        self.results.as_slice()
    }

    /// How many packages failed.
    pub fn failed_count(&self) -> (n: usize)
        ensures
            n == failures(self@),
    {
        let mut n: usize = 0;
        let mut i: usize = 0;
        assert(self@.take(0) =~= Seq::<PackageResultView>::empty());
        while i < self.results.len()
            invariant
                i <= self.results.len(),
                n == failures(self@.take(i as int)),
                n <= i,
            decreases self.results.len() - i,
        {
            assert(self@.take(i + 1).drop_last() =~= self@.take(i as int));
            assert(self@.take(i + 1).last() == self.results@[i as int]@);
            if !self.results[i].success {
                n += 1;
            }
            i += 1;
        }
        assert(self@.take(i as int) =~= self@);
        n
    }

    /// How many packages were installed or found installed.
    pub fn success_count(&self) -> (n: usize)
        ensures
            n == self@.len() - failures(self@),
    {
        proof {
            lemma_failures_bound(self@);
        }
        self.results.len() - self.failed_count()
    }

    /// The lines of the summary of the batch.
    pub fn summary(&self) -> (out: Vec<String>)
        ensures
            out.deep_view() == summary(self@),
    {
        let failed = self.failed_count();
        let succeeded = self.success_count();
        let total = self.results.len();
        let mut out: Vec<String> = Vec::new();
        out.push(String::new());
        out.push(crate::text::repeat("=", 60));
        out.push("Installation Summary".to_owned());
        out.push(crate::text::repeat("=", 60));
        let mut counts = crate::text::concat(
            "Successful: ",
            crate::text::decimal_of(succeeded as u64).as_str(),
        );
        counts.append("/");
        counts.append(crate::text::decimal_of(total as u64).as_str());
        out.push(counts);
        let ghost head = out.deep_view();
        assert(head =~= seq![
            Seq::empty(),
            crate::text::repeated("="@, 60),
            "Installation Summary"@,
            crate::text::repeated("="@, 60),
            "Successful: "@ + crate::text::decimal((self@.len() - failures(self@)) as nat) + "/"@
                + crate::text::decimal(self@.len()),
        ]);
        if failed == 0 {
            assert(out.deep_view() =~= summary(self@));
            return out;
        }
        out.push(String::new());
        out.push("Failed packages:".to_owned());
        let ghost opened = out.deep_view();
        assert(opened =~= head + seq![Seq::empty(), "Failed packages:"@]);
        let mut i: usize = 0;
        assert(self@.take(0) =~= Seq::<PackageResultView>::empty());
        assert(out.deep_view() =~= opened + failure_lines(self@.take(0)));
        while i < self.results.len()
            invariant
                i <= self.results.len(),
                out.deep_view() == opened + failure_lines(self@.take(i as int)),
            decreases self.results.len() - i,
        {
            assert(self@.take(i + 1).drop_last() =~= self@.take(i as int));
            assert(self@.take(i + 1).last() == self.results@[i as int]@);
            let result = &self.results[i];
            if !result.success {
                let mut line = crate::text::concat("  - ", result.name.as_str());
                line.append(": ");
                match &result.error {
                    Some(why) => line.append(why.as_str()),
                    None => line.append("Unknown error"),
                }
                let ghost before = out.deep_view();
                let ghost added = line@;
                out.push(line);
                assert(out.deep_view() =~= before.push(added));
                assert(out.deep_view() =~= opened + failure_lines(self@.take(i + 1)));
            }
            i += 1;
        }
        assert(self@.take(i as int) =~= self@);
        assert(out.deep_view() =~= summary(self@));
        out
    }

    /// How the batch ends.
    pub fn conclude(&self) -> (r: Result<(), MicasaError>)
        ensures
            match r {
                Ok(_) => conclusion(self@) is Ok,
                Err(e) => conclusion(self@) == Err::<(), ErrorView>(e@),
            },
    {
        let failed = self.failed_count();
        if failed == 0 {
            Ok(())
        } else {
            let count = crate::text::decimal_of(failed as u64);
            Err(
                MicasaError::CommandExecutionFailed(
                    crate::text::concat(count.as_str(), " package(s) failed to install"),
                ),
            )
        }
    }
}

/// Whether `event` answers the action that is pending in `state`.
pub open spec fn answers(state: ResolutionView, event: EventView) -> bool {
    match state.action() {
        Action::Probe(_) => event is Unavailable || event is NotFound || event is Found,
        Action::Install(_) => event is InstallSucceeded || event is InstallFailed,
        Action::Done => false,
    }
}

/// How many answers a resolution can still take, at most: two for each
/// connector that is left, less the one that the connector under the cursor
/// has given.
pub open spec fn remaining(state: ResolutionView) -> int {
    if state.outcome is Some {
        0
    } else {
        2 * (state.sources.len() - state.cursor) - if state.offer is Some {
            1int
        } else {
            0int
        }
    }
}

/// A resolution comes to an end: every answer brings it closer, so that
/// after two answers for each connector, at most, it has ended.
pub proof fn law_resolution_ends(state: ResolutionView, event: EventView)
    requires
        state.wf(),
        answers(state, event),
    ensures
        0 <= remaining(state.step(event)) < remaining(state),
        remaining(state) == 0 <==> state.action() == Action::Done,
{
}

} // verus!
