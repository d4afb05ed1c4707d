//! Installing a package from a release, step by step. Each step acts on the
//! host and is the caller's; after each, the installation says what comes
//! next. The ledger is loaded, changed and written back only when everything
//! else has succeeded, so that a failure on the way records nothing.

use crate::error::{ErrorView, MicasaError};
use crate::package_manager::github::{
    asset_names, best_index, executables, file_views, installed_record, lemma_best_index_is,
    lemma_best_index_none, link_views, links, registered, scores, version_of, AssetView, FileEntry,
    FileEntryView, GitHubAsset, GitHubRelease, GitHubWrapper, GitHubWrapperView, Link, LinkView,
    ReleaseView,
};
use crate::package_manager::ledger::{InstallState, InstalledPackageView};
use crate::text::{join_path, join_path_of};
use vstd::prelude::*;

verus! {

/// How far an installation has come.
#[derive(Debug, Clone, Copy, PartialEq, Eq, Structural)]
pub enum Phase {
    /// The tool that fetches from the network is to be made sure of.
    Fetcher,
    /// The latest release is to be fetched.
    Release,
    /// The chosen asset is to be downloaded.
    Download,
    /// The downloaded archive is to be unpacked.
    Extract,
    /// The unpacked files are to be listed.
    List,
    /// The links to the executables are to be published.
    Publish,
    /// The ledger is to be loaded.
    Load,
    /// The ledger is to be written back.
    Save,
    /// The installation has ended.
    Ended,
}

/// What the caller is to do next.
#[derive(Debug)]
pub enum Action {
    /// Make sure that the fetching tool is there; report `Ready` or `Failed`.
    EnsureFetcher,
    /// Fetch the description of the latest release of the repository `repo`
    /// from `url`; report `Release` or `Failed`.
    FetchRelease { repo: String, url: String },
    /// Download `url` to the file `to`; report `Ready` or `Failed`.
    Download { url: String, to: String },
    /// Unpack the archive at `archive` into the directory `into`; report
    /// `Ready` or `Failed`.
    Extract { archive: String, into: String },
    /// List the entries of the directories `dir` and `bin`, no deeper;
    /// report `Files` or `Failed`.
    ListFiles { dir: String, bin: String },
    /// Publish the installation's links, each in place of a link of the same
    /// name; report `Ready` or `Failed`.
    Publish,
    /// Load the ledger; report `Ledger` or `Failed`.
    LoadLedger,
    /// Write the installation's ledger back, whole; report `Ready` or
    /// `Failed`.
    SaveLedger,
    /// Nothing: the installation has ended.
    Done,
}

/// What an `Action` denotes.
pub enum ActionView {
    EnsureFetcher,
    FetchRelease { repo: Seq<char>, url: Seq<char> },
    Download { url: Seq<char>, to: Seq<char> },
    Extract { archive: Seq<char>, into: Seq<char> },
    ListFiles { dir: Seq<char>, bin: Seq<char> },
    Publish,
    LoadLedger,
    SaveLedger,
    Done,
}

impl View for Action {
    type V = ActionView;

    open spec fn view(&self) -> ActionView {
        match self {
            Action::EnsureFetcher => ActionView::EnsureFetcher,
            Action::FetchRelease { repo, url } => ActionView::FetchRelease {
                repo: repo@,
                url: url@,
            },
            Action::Download { url, to } => ActionView::Download { url: url@, to: to@ },
            Action::Extract { archive, into } => ActionView::Extract {
                archive: archive@,
                into: into@,
            },
            Action::ListFiles { dir, bin } => ActionView::ListFiles { dir: dir@, bin: bin@ },
            Action::Publish => ActionView::Publish,
            Action::LoadLedger => ActionView::LoadLedger,
            Action::SaveLedger => ActionView::SaveLedger,
            Action::Done => ActionView::Done,
        }
    }
}

/// What the caller reports back.
#[derive(Debug)]
pub enum Event {
    /// The action succeeded.
    Ready,
    /// The action failed.
    Failed(MicasaError),
    /// The latest release.
    Release(GitHubRelease),
    /// The files that were listed.
    Files(Vec<FileEntry>),
    /// The ledger as it was loaded.
    Ledger(InstallState),
}

/// What an `Event` denotes.
pub enum EventView {
    Ready,
    Failed(ErrorView),
    Release(ReleaseView),
    Files(Seq<FileEntryView>),
    Ledger(Map<Seq<char>, InstalledPackageView>),
}

impl View for Event {
    type V = EventView;

    open spec fn view(&self) -> EventView {
        match self {
            Event::Ready => EventView::Ready,
            Event::Failed(e) => EventView::Failed(e@),
            Event::Release(release) => EventView::Release(release@),
            Event::Files(files) => EventView::Files(file_views(files@)),
            Event::Ledger(state) => EventView::Ledger(state@),
        }
    }
}

/// The name of each asset, in order.
pub open spec fn names_of(assets: Seq<AssetView>) -> Seq<Seq<char>> {
    Seq::new(assets.len(), |i: int| assets[i].name)
}

/// The path of each link, in order.
pub open spec fn link_paths(links: Seq<LinkView>) -> Seq<Seq<char>> {
    Seq::new(links.len(), |i: int| links[i].link)
}

/// The state of an installation.
pub struct InstallationView {
    /// The connector's directories.
    pub connector: GitHubWrapperView,
    /// The package that is installed.
    pub package: Seq<char>,
    /// The host's operating system and architecture.
    pub os: Seq<char>,
    pub arch: Seq<char>,
    pub phase: Phase,
    /// The version of the release; known once the release is.
    pub version: Seq<char>,
    /// The asset that was chosen.
    pub asset: Option<AssetView>,
    /// The links to publish; known once the files are listed.
    pub links: Seq<LinkView>,
    /// The ledger with the new record in it; known once it was loaded.
    pub ledger: Option<Map<Seq<char>, InstalledPackageView>>,
    /// The failure that ended the installation.
    pub failure: Option<ErrorView>,
}

impl InstallationView {
    /// Each phase has what it needs from the phases before it.
    pub open spec fn wf(self) -> bool {
        &&& self.phase != Phase::Fetcher && self.phase != Phase::Ended ==> registered(
            self.package,
        ) is Some
        &&& self.phase != Phase::Fetcher && self.phase != Phase::Release && self.phase
            != Phase::Ended ==> self.asset is Some
        &&& self.phase == Phase::Save ==> self.ledger is Some
        &&& self.phase != Phase::Ended ==> self.failure is None
        &&& self.phase != Phase::Save && self.phase != Phase::Ended ==> self.ledger is None
    }

    /// The state in which the installation of `package` begins.
    pub open spec fn start(
        connector: GitHubWrapperView,
        package: Seq<char>,
        os: Seq<char>,
        arch: Seq<char>,
    ) -> InstallationView {
        InstallationView {
            connector,
            package,
            os,
            arch,
            phase: Phase::Fetcher,
            version: Seq::empty(),
            asset: None,
            links: Seq::empty(),
            ledger: None,
            failure: None,
        }
    }

    /// Where the asset is downloaded to: a file in the cache, under the
    /// asset's name.
    pub open spec fn archive(self) -> Seq<char> {
        join_path(join_path(self.connector.packages_dir, ".cache"@), self.asset->0.name)
    }

    /// The directory that the package is installed into: one for each
    /// version of each package.
    pub open spec fn install_dir(self) -> Seq<char> {
        join_path(join_path(self.connector.packages_dir, self.package), self.version)
    }

    /// What the caller is to do in this state.
    pub open spec fn action(self) -> ActionView {
        match self.phase {
            Phase::Fetcher => ActionView::EnsureFetcher,
            Phase::Release => ActionView::FetchRelease {
                repo: registered(self.package)->0.repo,
                url: "https://api.github.com/repos/"@ + registered(self.package)->0.repo
                    + "/releases/latest"@,
            },
            Phase::Download => ActionView::Download {
                url: self.asset->0.browser_download_url,
                to: self.archive(),
            },
            Phase::Extract => ActionView::Extract {
                archive: self.archive(),
                into: self.install_dir(),
            },
            Phase::List => ActionView::ListFiles {
                dir: self.install_dir(),
                bin: join_path(self.install_dir(), "bin"@),
            },
            Phase::Publish => ActionView::Publish,
            Phase::Load => ActionView::LoadLedger,
            Phase::Save => ActionView::SaveLedger,
            Phase::Ended => ActionView::Done,
        }
    }

    /// How the installation ended; `None` while it goes on.
    pub open spec fn result(self) -> Option<Result<(), ErrorView>> {
        if self.phase != Phase::Ended {
            None
        } else {
            match self.failure {
                Some(e) => Some(Err(e)),
                None => Some(Ok(())),
            }
        }
    }

    /// The installation ends with `failure`, or well. A ledger that was not
    /// saved is dropped.
    pub open spec fn end(self, failure: Option<ErrorView>) -> InstallationView {
        InstallationView {
            phase: Phase::Ended,
            failure,
            ledger: if failure is None {
                self.ledger
            } else {
                None
            },
            ..self
        }
    }

    /// The state after the action of this phase has succeeded, for the
    /// phases whose action yields nothing.
    pub open spec fn after_ready(self) -> InstallationView {
        match self.phase {
            Phase::Fetcher => if registered(self.package) is Some {
                InstallationView { phase: Phase::Release, ..self }
            } else {
                self.end(Some(ErrorView::PackageNotFound(self.package)))
            },
            Phase::Download => InstallationView { phase: Phase::Extract, ..self },
            Phase::Extract => InstallationView { phase: Phase::List, ..self },
            Phase::Publish => InstallationView { phase: Phase::Load, ..self },
            Phase::Save => self.end(None),
            _ => self,
        }
    }

    /// The state after the release has come: the asset that suits the host
    /// best is chosen; it is a failure if none suits.
    pub open spec fn after_release(self, release: ReleaseView) -> InstallationView {
        match best_index(scores(self.os, self.arch, names_of(release.assets))) {
            Some(at) => InstallationView {
                phase: Phase::Download,
                version: version_of(release.tag_name),
                asset: Some(release.assets[at]),
                ..self
            },
            None => self.end(Some(ErrorView::NoSuitableAsset(self.package))),
        }
    }

    /// The state after the files were listed: the executables among them
    /// get links; it is a failure if there is none.
    pub open spec fn after_files(self, files: Seq<FileEntryView>) -> InstallationView {
        let found = executables(files, registered(self.package)->0.executables);
        if found.len() == 0 {
            self.end(Some(ErrorView::NoExecutablesFound))
        } else {
            InstallationView {
                phase: Phase::Publish,
                links: links(self.connector.bin_dir, found),
                ..self
            }
        }
    }

    /// The state after the ledger was loaded: the package is recorded in
    /// it, in place of an earlier record.
    pub open spec fn after_ledger(self, ledger: Map<Seq<char>, InstalledPackageView>) -> InstallationView {
        InstallationView {
            phase: Phase::Save,
            ledger: Some(
                ledger.insert(
                    self.package,
                    installed_record(self.version, self.install_dir(), link_paths(self.links)),
                ),
            ),
            ..self
        }
    }

    /// The state after `event`. A failure ends the installation; an event
    /// that does not answer the pending action changes nothing.
    pub open spec fn step(self, event: EventView) -> InstallationView {
        if self.phase == Phase::Ended {
            self
        } else {
            match event {
                EventView::Failed(e) => self.end(Some(e)),
                EventView::Ready => self.after_ready(),
                EventView::Release(release) => if self.phase == Phase::Release {
                    self.after_release(release)
                } else {
                    self
                },
                EventView::Files(files) => if self.phase == Phase::List {
                    self.after_files(files)
                } else {
                    self
                },
                EventView::Ledger(ledger) => if self.phase == Phase::Load {
                    self.after_ledger(ledger)
                } else {
                    self
                },
            }
        }
    }
}

/// The installation of one package by the GitHub connector.
pub struct Installation<'a> {
    connector: &'a GitHubWrapper,
    package: String,
    os: String,
    arch: String,
    phase: Phase,
    version: String,
    asset: Option<GitHubAsset>,
    links: Vec<Link>,
    ledger: Option<InstallState>,
    failure: Option<MicasaError>,
}

impl<'a> View for Installation<'a> {
    type V = InstallationView;

    closed spec fn view(&self) -> InstallationView {
        InstallationView {
            connector: self.connector@,
            package: self.package@,
            os: self.os@,
            arch: self.arch@,
            phase: self.phase,
            version: self.version@,
            asset: match self.asset {
                Some(a) => Some(a@),
                None => None,
            },
            links: link_views(self.links@),
            ledger: match self.ledger {
                Some(l) => Some(l@),
                None => None,
            },
            failure: match self.failure {
                Some(e) => Some(e@),
                None => None,
            },
        }
    }
}

impl<'a> Installation<'a> {
    #[verifier::type_invariant]
    spec fn well_formed(self) -> bool {
        self@.wf()
    }

    /// Begins the installation of `package_name` by `connector`, on a host
    /// with the operating system `os` and the architecture `arch`.
    pub fn start(connector: &'a GitHubWrapper, package_name: &str, os: &str, arch: &str) -> (out:
        Self)
        ensures
            out@ == InstallationView::start(connector@, package_name@, os@, arch@),
    {
        let out = Installation {
            connector,
            package: package_name.to_owned(),
            os: os.to_owned(),
            arch: arch.to_owned(),
            phase: Phase::Fetcher,
            version: String::new(),
            asset: None,
            links: Vec::new(),
            ledger: None,
            failure: None,
        };
        assert(link_views(out.links@) =~= Seq::<LinkView>::empty());
        out
    }

    /// What the caller is to do next.
    pub fn action(&self) -> (out: Action)
        ensures
            out@ == self@.action(),
    {
        proof {
            use_type_invariant(self);
        }
        match self.phase {
            Phase::Fetcher => Action::EnsureFetcher,
            Phase::Release => match self.connector.lookup(self.package.as_str()) {
                Some(source) => Action::FetchRelease {
                    repo: source.repo.clone(),
                    url: GitHubWrapper::release_url(source.repo.as_str()),
                },
                None => Action::Done,
            },
            Phase::Download => match &self.asset {
                Some(asset) => Action::Download {
                    url: asset.browser_download_url.clone(),
                    to: self.connector.archive_path(asset.name.as_str()),
                },
                None => Action::Done,
            },
            Phase::Extract => match &self.asset {
                Some(asset) => Action::Extract {
                    archive: self.connector.archive_path(asset.name.as_str()),
                    into: self.connector.install_dir(self.package.as_str(), self.version.as_str()),
                },
                None => Action::Done,
            },
            Phase::List => {
                let dir = self.connector.install_dir(self.package.as_str(), self.version.as_str());
                let bin = join_path_of(dir.as_str(), "bin");
                Action::ListFiles { dir, bin }
            },
            Phase::Publish => Action::Publish,
            Phase::Load => Action::LoadLedger,
            Phase::Save => Action::SaveLedger,
            Phase::Ended => Action::Done,
        }
    }

    /// The links to publish.
    pub fn links(&self) -> (out: &[Link])
        ensures
            link_views(out@) == self@.links,
    {
        self.links.as_slice()
    }

    /// The ledger to write back, once it was loaded and changed.
    pub fn ledger(&self) -> (out: Option<&InstallState>)
        ensures
            match out {
                Some(state) => self@.ledger == Some(state@),
                None => self@.ledger is None,
            },
    {
        self.ledger.as_ref()
    }

    /// How the installation ended; `None` while it goes on.
    pub fn result(self) -> (out: Option<Result<(), MicasaError>>)
        ensures
            match out {
                Some(Ok(_)) => self@.result() == Some(Ok::<(), ErrorView>(())),
                Some(Err(e)) => self@.result() == Some(Err::<(), ErrorView>(e@)),
                None => self@.result() is None,
            },
    {
        if self.phase != Phase::Ended {
            return None;
        }
        match self.failure {
            Some(e) => Some(Err(e)),
            None => Some(Ok(())),
        }
    }

    fn end(self, failure: Option<MicasaError>) -> (out: Self)
        ensures
            out@ == self@.end(
                match failure {
                    Some(e) => Some(e@),
                    None => None,
                },
            ),
    {
        let keep = failure.is_none();
        let Installation {
            connector,
            package,
            os,
            arch,
            phase: _,
            version,
            asset,
            links,
            ledger,
            failure: _,
        } = self;
        Installation {
            connector,
            package,
            os,
            arch,
            phase: Phase::Ended,
            version,
            asset,
            links,
            ledger: if keep {
                ledger
            } else {
                None
            },
            failure,
        }
    }

    fn moved(self, phase: Phase) -> (out: Self)
        requires
            (InstallationView { phase, ..self@ }).wf(),
        ensures
            out@ == (InstallationView { phase, ..self@ }),
    {
        let Installation {
            connector,
            package,
            os,
            arch,
            phase: _,
            version,
            asset,
            links,
            ledger,
            failure,
        } = self;
        Installation { connector, package, os, arch, phase, version, asset, links, ledger, failure }
    }

    fn after_ready(self) -> (out: Self)
        requires
            self.phase != Phase::Ended,
        ensures
            out@ == self@.after_ready(),
    {
        proof {
            use_type_invariant(&self);
        }
        match self.phase {
            Phase::Fetcher => {
                if self.connector.lookup(self.package.as_str()).is_some() {
                    self.moved(Phase::Release)
                } else {
                    let failure = MicasaError::PackageNotFound(self.package.clone());
                    self.end(Some(failure))
                }
            },
            Phase::Download => self.moved(Phase::Extract),
            Phase::Extract => self.moved(Phase::List),
            Phase::Publish => self.moved(Phase::Load),
            Phase::Save => self.end(None),
            _ => self,
        }
    }

    fn after_release(self, release: GitHubRelease) -> (out: Self)
        requires
            self.phase == Phase::Release,
        ensures
            out@ == self@.after_release(release@),
    {
        proof {
            use_type_invariant(&self);
        }
        let GitHubRelease { tag_name, assets } = release;
        let mut assets = assets;
        let ghost all = scores(self.os@, self.arch@, asset_names(assets@));
        assert(asset_names(assets@) =~= names_of(release@.assets));
        match self.connector.best_asset_index(
            self.os.as_str(),
            self.arch.as_str(),
            assets.as_slice(),
        ) {
            Some(at) => {
                proof {
                    lemma_best_index_is(all, at as int);
                }
                let version = self.connector.parse_version(tag_name.as_str());
                let asset = assets.swap_remove(at);
                let Installation {
                    connector,
                    package,
                    os,
                    arch,
                    phase: _,
                    version: _,
                    asset: _,
                    links,
                    ledger,
                    failure,
                } = self;
                Installation {
                    connector,
                    package,
                    os,
                    arch,
                    phase: Phase::Download,
                    version,
                    asset: Some(asset),
                    links,
                    ledger,
                    failure,
                }
            },
            None => {
                proof {
                    lemma_best_index_none(all);
                }
                let failure = MicasaError::NoSuitableAsset(self.package.clone());
                self.end(Some(failure))
            },
        }
    }

    fn after_files(self, files: Vec<FileEntry>) -> (out: Self)
        requires
            self.phase == Phase::List,
        ensures
            out@ == self@.after_files(file_views(files@)),
    {
        proof {
            use_type_invariant(&self);
        }
        let found = match self.connector.lookup(self.package.as_str()) {
            Some(source) => self.connector.find_executables(&files, &source.executables),
            None => Err(MicasaError::PackageNotFound(self.package.clone())),
        };
        match found {
            Err(e) => self.end(Some(e)),
            Ok(found) => {
                let new_links = self.connector.create_symlinks(&found);
                let Installation {
                    connector,
                    package,
                    os,
                    arch,
                    phase: _,
                    version,
                    asset,
                    links: _,
                    ledger,
                    failure,
                } = self;
                Installation {
                    connector,
                    package,
                    os,
                    arch,
                    phase: Phase::Publish,
                    version,
                    asset,
                    links: new_links,
                    ledger,
                    failure,
                }
            },
        }
    }

    fn after_ledger(self, ledger: InstallState) -> (out: Self)
        requires
            self.phase == Phase::Load,
        ensures
            out@ == self@.after_ledger(ledger@),
    {
        proof {
            use_type_invariant(&self);
        }
        let mut state = ledger;
        let mut paths: Vec<String> = Vec::new();
        let mut i: usize = 0;
        while i < self.links.len()
            invariant
                i <= self.links.len(),
                paths.len() == i,
                forall|j: int| 0 <= j < i ==> (#[trigger] paths@[j])@ == self.links@[j].link@,
            decreases self.links.len() - i,
        {
            paths.push(self.links[i].link.clone());
            i += 1;
        }
        assert(paths.deep_view() =~= link_paths(link_views(self.links@)));
        let install_dir = self.connector.install_dir(self.package.as_str(), self.version.as_str());
        self.connector.install(
            &mut state,
            self.package.as_str(),
            self.version.clone(),
            install_dir,
            paths,
        );
        let Installation {
            connector,
            package,
            os,
            arch,
            phase: _,
            version,
            asset,
            links,
            ledger: _,
            failure,
        } = self;
        Installation {
            connector,
            package,
            os,
            arch,
            phase: Phase::Save,
            version,
            asset,
            links,
            ledger: Some(state),
            failure,
        }
    }

    /// Takes the answer to the pending action and moves on.
    pub fn step(self, event: Event) -> (out: Self)
        ensures
            out@ == self@.step(event@),
            out@.wf(),
    {
        proof {
            use_type_invariant(&self);
        }
        if self.phase == Phase::Ended {
            return self;
        }
        let out = match event {
            Event::Failed(e) => self.end(Some(e)),
            Event::Ready => self.after_ready(),
            Event::Release(release) => if self.phase == Phase::Release {
                self.after_release(release)
            } else {
                self
            },
            Event::Files(files) => if self.phase == Phase::List {
                self.after_files(files)
            } else {
                self
            },
            Event::Ledger(ledger) => if self.phase == Phase::Load {
                self.after_ledger(ledger)
            } else {
                self
            },
        };
        proof {
            use_type_invariant(&out);
        }
        out
    }
}

/// A step keeps an installation well formed.
pub proof fn lemma_step_wf(state: InstallationView, event: EventView)
    requires
        state.wf(),
    ensures
        state.step(event).wf(),
{
}

/// A failure of any step ends the installation with that failure, and
/// leaves no ledger to write.
pub proof fn law_failure_ends(state: InstallationView, failure: ErrorView)
    requires
        state.phase != Phase::Ended,
    ensures
        state.step(EventView::Failed(failure)).result() == Some(Err::<(), ErrorView>(failure)),
        state.step(EventView::Failed(failure)).ledger is None,
{
}

/// The ledger is written last: an installation ends well only by the
/// success of writing the ledger back, and the ledger is loaded only after
/// the links were published.
pub proof fn law_ledger_is_written_last(state: InstallationView, event: EventView)
    requires
        state.wf(),
        state.phase != Phase::Ended,
    ensures
        state.step(event).result() == Some(Ok::<(), ErrorView>(())) ==> state.phase == Phase::Save
            && event is Ready,
        state.step(event).phase == Phase::Save ==> state.phase == Phase::Save || (state.phase
            == Phase::Load && event is Ledger),
        state.step(event).phase == Phase::Load ==> state.phase == Phase::Load || (state.phase
            == Phase::Publish && event is Ready),
{
}

/// What is written to the ledger is what was loaded, with the record of
/// this installation in place of an earlier record of the package: the
/// version of the release, the install directory, and the links.
pub proof fn law_ledger_gains_the_record(
    state: InstallationView,
    ledger: Map<Seq<char>, InstalledPackageView>,
)
    requires
        state.phase == Phase::Load,
    ensures
        ({
            let saved = state.step(EventView::Ledger(ledger)).ledger;
            &&& saved is Some
            &&& saved->0.contains_key(state.package)
            &&& saved->0[state.package].version == state.version
            &&& saved->0[state.package].source == "github"@
            &&& saved->0[state.package].install_path == state.install_dir()
            &&& saved->0[state.package].symlinks == link_paths(state.links)
            &&& forall|other: Seq<char>|
                other != state.package ==> (saved->0.contains_key(other) <==> ledger.contains_key(
                    other,
                )) && (ledger.contains_key(other) ==> saved->0[other] == ledger[other])
        }),
{
}

/// Whether `event` answers the action that is pending in `state`.
pub open spec fn answers(state: InstallationView, event: EventView) -> bool {
    match state.phase {
        Phase::Ended => false,
        Phase::Release => event is Release || event is Failed,
        Phase::List => event is Files || event is Failed,
        Phase::Load => event is Ledger || event is Failed,
        _ => event is Ready || event is Failed,
    }
}

/// How many steps an installation has before it, at most.
pub open spec fn remaining(state: InstallationView) -> int {
    match state.phase {
        Phase::Fetcher => 8,
        Phase::Release => 7,
        Phase::Download => 6,
        Phase::Extract => 5,
        Phase::List => 4,
        Phase::Publish => 3,
        Phase::Load => 2,
        Phase::Save => 1,
        Phase::Ended => 0,
    }
}

/// An installation comes to an end: every answer takes it to a later phase.
pub proof fn law_installation_ends(state: InstallationView, event: EventView)
    requires
        state.wf(),
        answers(state, event),
    ensures
        remaining(state.step(event)) < remaining(state),
{
}

} // verus!
