//! The connector of last resort: it installs release binaries from GitHub
//! for the packages of a fixed registry. This module holds what the connector
//! decides: which asset of a release suits the host, where its files go,
//! which of them are the executables, and what the ledger records. Fetching,
//! unpacking and linking act on the host and are the caller's.

use crate::error::{ErrorView, MicasaError};
use crate::package_manager::archive::{components, components_of};
use crate::package_manager::ledger::{InstallState, InstalledPackage, InstalledPackageView};
use crate::package_manager::{PackageInfo, PackageInfoView};
use crate::text::{
    chars_of, concat, contains, contains_str, ends_with, join_path, join_path_of, str_eq,
};
use vstd::prelude::*;

verus! {

/// A file attached to a release.
#[derive(Debug, Clone)]
pub struct GitHubAsset {
    pub name: String,
    pub browser_download_url: String,
}

/// What a `GitHubAsset` denotes.
pub struct AssetView {
    pub name: Seq<char>,
    pub browser_download_url: Seq<char>,
}

impl View for GitHubAsset {
    type V = AssetView;

    open spec fn view(&self) -> AssetView {
        AssetView { name: self.name@, browser_download_url: self.browser_download_url@ }
    }
}

/// A release: its tag and its assets, in the order in which the host lists
/// them.
#[derive(Debug, Clone)]
pub struct GitHubRelease {
    pub tag_name: String,
    pub assets: Vec<GitHubAsset>,
}

/// What a `GitHubRelease` denotes.
pub struct ReleaseView {
    pub tag_name: Seq<char>,
    pub assets: Seq<AssetView>,
}

impl View for GitHubRelease {
    type V = ReleaseView;

    open spec fn view(&self) -> ReleaseView {
        ReleaseView {
            tag_name: self.tag_name@,
            assets: Seq::new(self.assets@.len(), |i: int| self.assets@[i]@),
        }
    }
}

/// Where a package comes from.
#[derive(Debug, Clone)]
pub struct PackageSource {
    /// The repository, as `owner/name`.
    pub repo: String,
    /// The names of the executables that a release holds.
    pub executables: Vec<String>,
}

/// What a `PackageSource` denotes.
pub struct PackageSourceView {
    pub repo: Seq<char>,
    pub executables: Seq<Seq<char>>,
}

impl View for PackageSource {
    type V = PackageSourceView;

    open spec fn view(&self) -> PackageSourceView {
        PackageSourceView { repo: self.repo@, executables: self.executables.deep_view() }
    }
}

/// A package that the connector knows.
#[derive(Debug, Clone)]
pub struct Registered {
    pub name: String,
    pub source: PackageSource,
}

/// What a `Registered` denotes.
pub struct RegisteredView {
    pub name: Seq<char>,
    pub source: PackageSourceView,
}

impl View for Registered {
    type V = RegisteredView;

    open spec fn view(&self) -> RegisteredView {
        RegisteredView { name: self.name@, source: self.source@ }
    }
}

/// What each element of `registry` denotes.
pub open spec fn registry_views(registry: Seq<Registered>) -> Seq<RegisteredView> {
    Seq::new(registry.len(), |i: int| registry[i]@)
}

/// A registry line for a package with one executable.
pub open spec fn line(name: Seq<char>, repo: Seq<char>, executable: Seq<char>) -> RegisteredView {
    RegisteredView { name, source: PackageSourceView { repo, executables: seq![executable] } }
}

/// The packages that the connector knows.
pub open spec fn registry() -> Seq<RegisteredView> {
    seq![
        line("fd"@, "sharkdp/fd"@, "fd"@),
        line("bat"@, "sharkdp/bat"@, "bat"@),
        line("ripgrep"@, "BurntSushi/ripgrep"@, "rg"@),
        line("eza"@, "eza-community/eza"@, "eza"@),
        line("fzf"@, "junegunn/fzf"@, "fzf"@),
        line("lazygit"@, "jesseduffield/lazygit"@, "lazygit"@),
        line("chezmoi"@, "twpayne/chezmoi"@, "chezmoi"@),
        line("neovim"@, "neovim/neovim"@, "nvim"@),
        RegisteredView {
            name: "uv"@,
            source: PackageSourceView { repo: "astral-sh/uv"@, executables: seq!["uv"@, "uvx"@] },
        },
    ]
}

/// The index of the first line of `registry` for `name`; the number of
/// lines if there is none.
pub open spec fn line_of(registry: Seq<RegisteredView>, name: Seq<char>) -> int
    decreases registry.len(),
{
    if registry.len() == 0 || registry[0].name == name {
        0
    } else {
        1 + line_of(registry.drop_first(), name)
    }
}

/// Where `name` comes from, if the connector knows the package.
pub open spec fn registered(name: Seq<char>) -> Option<PackageSourceView> {
    let at = line_of(registry(), name);
    if 0 <= at < registry().len() {
        Some(registry()[at].source)
    } else {
        None
    }
}

pub proof fn lemma_line_of_is(registry: Seq<RegisteredView>, name: Seq<char>, at: int)
    requires
        0 <= at <= registry.len(),
        forall|j: int| 0 <= j < at ==> (#[trigger] registry[j]).name != name,
        at < registry.len() ==> registry[at].name == name,
    ensures
        line_of(registry, name) == at,
    decreases registry.len(),
{
    if registry.len() == 0 || registry[0].name == name {
    } else {
        let rest = registry.drop_first();
        assert forall|j: int| 0 <= j < at - 1 implies (#[trigger] rest[j]).name != name by {
            assert(rest[j] == registry[j + 1]);
        }
        lemma_line_of_is(rest, name, at - 1);
    }
}

/// The lower-case form of `text`, as the standard library's
/// `str::to_lowercase` gives it.
pub uninterp spec fn lowercase(text: Seq<char>) -> Seq<char>;

/// Calls `str::to_lowercase`. Trusted: the result is the one that
/// `lowercase` names.
#[verifier::external_body]
fn to_lowercase(text: &str) -> (out: String)
    ensures
        out@ == lowercase(text@),
{
    text.to_lowercase()
}

/// The version that a release tag stands for: the tag without a leading `v`.
pub open spec fn version_of(tag: Seq<char>) -> Seq<char> {
    if tag.len() > 0 && tag[0] == 'v' {
        tag.skip(1)
    } else {
        tag
    }
}

/// Whether an asset, named `lowered` in lower case, is built for the
/// operating system `os`.
pub open spec fn matches_os(os: Seq<char>, lowered: Seq<char>) -> bool {
    if os == "linux"@ {
        contains(lowered, "linux"@)
    } else if os == "macos"@ {
        contains(lowered, "darwin"@) || contains(lowered, "macos"@) || contains(lowered, "apple"@)
    } else {
        false
    }
}

/// What the C library that an asset is linked against contributes to its
/// score on `os`: on Linux a build against musl runs on more hosts than one
/// against glibc.
pub open spec fn libc_score(os: Seq<char>, lowered: Seq<char>) -> int {
    if os == "linux"@ {
        if contains(lowered, "musl"@) {
            5
        } else if contains(lowered, "gnu"@) {
            3
        } else {
            0
        }
    } else {
        0
    }
}

/// What the operating system contributes to an asset's score: more than
/// everything else together can.
pub open spec fn os_score(os: Seq<char>, lowered: Seq<char>) -> int {
    (if matches_os(os, lowered) {
        20int
    } else {
        0int
    }) + libc_score(os, lowered)
}

/// Whether an asset, named `lowered` in lower case, is built for the
/// processor architecture `arch`.
pub open spec fn matches_arch(arch: Seq<char>, lowered: Seq<char>) -> bool {
    if arch == "x86_64"@ {
        contains(lowered, "x86_64"@) || contains(lowered, "amd64"@)
    } else if arch == "aarch64"@ {
        contains(lowered, "aarch64"@) || contains(lowered, "arm64"@)
    } else {
        false
    }
}

/// What the processor architecture contributes to an asset's score: less
/// than the operating system, more than C library and format together.
pub open spec fn arch_score(arch: Seq<char>, lowered: Seq<char>) -> int {
    if matches_arch(arch, lowered) {
        10
    } else {
        0
    }
}

/// What the archive format contributes to an asset's score.
pub open spec fn format_score(lowered: Seq<char>) -> int {
    if ".tar.gz"@.is_suffix_of(lowered) || ".tgz"@.is_suffix_of(lowered) {
        2
    } else if ".zip"@.is_suffix_of(lowered) {
        1
    } else {
        0
    }
}

/// How well an asset suits a host, given the asset's name in lower case:
/// the better the higher. The operating system weighs most, then the
/// architecture, then the C library and the archive format, where a gzipped
/// tarball is preferred to a zip file; a debug build is marked down.
pub open spec fn score(os: Seq<char>, arch: Seq<char>, lowered: Seq<char>) -> int {
    os_score(os, lowered) + arch_score(arch, lowered) + format_score(lowered) - (if contains(
        lowered,
        "debug"@,
    ) {
        10int
    } else {
        0int
    })
}

/// The operating system weighs most: of two assets that are both debug
/// builds, or both not, the one built for the host's operating system scores
/// higher than the other that is not, whatever else holds of them.
pub proof fn law_os_weighs_most(os: Seq<char>, arch: Seq<char>, built: Seq<char>, other: Seq<char>)
    requires
        matches_os(os, built),
        !matches_os(os, other),
        contains(built, "debug"@) == contains(other, "debug"@),
    ensures
        score(os, arch, built) > score(os, arch, other),
{
}

/// The architecture weighs next: of two assets that agree on the operating
/// system and on being a debug build, the one built for the host's
/// architecture scores higher than the other that is not.
pub proof fn law_architecture_weighs_next(
    os: Seq<char>,
    arch: Seq<char>,
    built: Seq<char>,
    other: Seq<char>,
)
    requires
        matches_os(os, built) == matches_os(os, other),
        matches_arch(arch, built),
        !matches_arch(arch, other),
        contains(built, "debug"@) == contains(other, "debug"@),
    ensures
        score(os, arch, built) > score(os, arch, other),
{
}

/// The score of each asset of `names`, in order.
pub open spec fn scores(os: Seq<char>, arch: Seq<char>, names: Seq<Seq<char>>) -> Seq<int> {
    Seq::new(names.len(), |i: int| score(os, arch, lowercase(names[i])))
}

/// The name of each asset, in order.
pub open spec fn asset_names(assets: Seq<GitHubAsset>) -> Seq<Seq<char>> {
    Seq::new(assets.len(), |i: int| assets[i].name@)
}

/// Whether the asset at `at` is the one to take: its score is positive and
/// the highest, and no asset before it scores as high.
pub open spec fn is_best(scores: Seq<int>, at: int) -> bool {
    &&& 0 <= at < scores.len()
    &&& scores[at] > 0
    &&& forall|j: int| 0 <= j < scores.len() ==> scores[j] <= scores[at]
    &&& forall|j: int| 0 <= j < at ==> scores[j] < scores[at]
}

/// Whether no asset suits the host.
pub open spec fn none_suits(scores: Seq<int>) -> bool {
    forall|j: int| 0 <= j < scores.len() ==> scores[j] <= 0
}

/// At most one asset is the one to take.
pub proof fn lemma_best_is_unique(scores: Seq<int>, a: int, b: int)
    requires
        is_best(scores, a),
        is_best(scores, b),
    ensures
        a == b,
{
}

/// The place of the asset to take, if any asset suits the host.
pub open spec fn best_index(scores: Seq<int>) -> Option<int> {
    if exists|at: int| is_best(scores, at) {
        Some(choose|at: int| is_best(scores, at))
    } else {
        None
    }
}

/// `best_index` is the one place that `is_best` singles out.
pub proof fn lemma_best_index_is(scores: Seq<int>, at: int)
    requires
        is_best(scores, at),
    ensures
        best_index(scores) == Some(at),
{
    lemma_best_is_unique(scores, at, choose|at: int| is_best(scores, at));
}

/// Where no asset suits, there is no place to take.
pub proof fn lemma_best_index_none(scores: Seq<int>)
    requires
        none_suits(scores),
    ensures
        best_index(scores) is None,
{
}

/// A file of an unpacked release.
#[derive(Debug, Clone)]
pub struct FileEntry {
    /// Where the file lies.
    pub path: String,
    /// Whether it is a regular file.
    pub is_file: bool,
    /// Its permission bits.
    pub mode: u32,
}

/// What a `FileEntry` denotes.
pub struct FileEntryView {
    pub path: Seq<char>,
    pub is_file: bool,
    pub mode: u32,
}

impl View for FileEntry {
    type V = FileEntryView;

    open spec fn view(&self) -> FileEntryView {
        FileEntryView { path: self.path@, is_file: self.is_file, mode: self.mode }
    }
}

/// What each element of `files` denotes.
pub open spec fn file_views(files: Seq<FileEntry>) -> Seq<FileEntryView> {
    Seq::new(files.len(), |i: int| files[i]@)
}

/// The name of the file at `path`: its last component, unless the path ends
/// at the root, at `.` or at `..`.
pub open spec fn file_name(path: Seq<char>) -> Option<Seq<char>> {
    let parts = components(path);
    if parts.len() > 0 && parts.last() != seq!['/'] && parts.last() != seq!['.'] && parts.last()
        != seq!['.', '.'] {
        Some(parts.last())
    } else {
        None
    }
}

/// Whether `file` is one of the executables named `names`: a regular file
/// that somebody may execute, under one of these names.
pub open spec fn is_executable(file: FileEntryView, names: Seq<Seq<char>>) -> bool {
    &&& file.is_file
    &&& file.mode & 0o111 != 0
    &&& file_name(file.path) is Some
    &&& names.contains(file_name(file.path)->0)
}

/// The paths of the executables among `files`, in order.
pub open spec fn executables(files: Seq<FileEntryView>, names: Seq<Seq<char>>) -> Seq<Seq<char>>
    decreases files.len(),
{
    if files.len() == 0 {
        Seq::empty()
    } else if is_executable(files.last(), names) {
        executables(files.drop_last(), names).push(files.last().path)
    } else {
        executables(files.drop_last(), names)
    }
}

/// A link to publish: `link` is to point at `target`.
#[derive(Debug, Clone)]
pub struct Link {
    pub link: String,
    pub target: String,
}

/// What a `Link` denotes.
pub struct LinkView {
    pub link: Seq<char>,
    pub target: Seq<char>,
}

impl View for Link {
    type V = LinkView;

    open spec fn view(&self) -> LinkView {
        LinkView { link: self.link@, target: self.target@ }
    }
}

/// What each element of `links` denotes.
pub open spec fn link_views(links: Seq<Link>) -> Seq<LinkView> {
    Seq::new(links.len(), |i: int| links[i]@)
}

/// The links for `targets` in the directory `bin_dir`: each under the
/// target's file name. A target without a file name gets none.
pub open spec fn links(bin_dir: Seq<char>, targets: Seq<Seq<char>>) -> Seq<LinkView>
    decreases targets.len(),
{
    if targets.len() == 0 {
        Seq::empty()
    } else {
        match file_name(targets.last()) {
            Some(name) => links(bin_dir, targets.drop_last()).push(
                LinkView { link: join_path(bin_dir, name), target: targets.last() },
            ),
            None => links(bin_dir, targets.drop_last()),
        }
    }
}

/// What the connector reports of a package, given the ledger and the tag of
/// the latest release. A package outside the registry is not found; one that
/// is not installed is reported all the same, without an installed version.
pub open spec fn described(
    name: Seq<char>,
    ledger: Map<Seq<char>, InstalledPackageView>,
    tag: Seq<char>,
) -> Result<PackageInfoView, ErrorView> {
    match registered(name) {
        None => Err(ErrorView::PackageNotFound(name)),
        Some(source) => Ok(
            PackageInfoView {
                name,
                installed_version: if ledger.contains_key(name) {
                    Some(ledger[name].version)
                } else {
                    None
                },
                available_version: Some(version_of(tag)),
                description: Some("GitHub: "@ + source.repo),
                source: "github"@,
            },
        ),
    }
}

/// After an uninstall the connector reports no installed version, and still
/// the latest available one.
pub proof fn law_uninstalled_is_reported_absent(
    name: Seq<char>,
    ledger: Map<Seq<char>, InstalledPackageView>,
    tag: Seq<char>,
)
    requires
        registered(name) is Some,
    ensures
        described(name, ledger.remove(name), tag) is Ok,
        described(name, ledger.remove(name), tag)->Ok_0.installed_version is None,
        described(name, ledger.remove(name), tag)->Ok_0.available_version == Some(version_of(tag)),
{
}

/// One step of an uninstall.
#[derive(Debug, Clone)]
pub enum UninstallStep {
    /// Remove the link at this path, if it exists.
    RemoveLink(String),
    /// Remove the directory at this path and all below it, if it exists.
    RemoveTree(String),
    /// Take the package's record out of the ledger.
    Forget(String),
    /// Write the ledger back.
    Persist,
}

/// What an `UninstallStep` denotes.
pub enum UninstallStepView {
    RemoveLink(Seq<char>),
    RemoveTree(Seq<char>),
    Forget(Seq<char>),
    Persist,
}

impl View for UninstallStep {
    type V = UninstallStepView;

    open spec fn view(&self) -> UninstallStepView {
        match self {
            UninstallStep::RemoveLink(path) => UninstallStepView::RemoveLink(path@),
            UninstallStep::RemoveTree(path) => UninstallStepView::RemoveTree(path@),
            UninstallStep::Forget(name) => UninstallStepView::Forget(name@),
            UninstallStep::Persist => UninstallStepView::Persist,
        }
    }
}

/// What each element of `steps` denotes.
pub open spec fn step_views(steps: Seq<UninstallStep>) -> Seq<UninstallStepView> {
    Seq::new(steps.len(), |i: int| steps[i]@)
}

/// The steps that uninstall `name`, in order: first the links, then the
/// install directory, and only then the ledger, so that an uninstall that is
/// cut short leaves a record from which it can be done again.
pub open spec fn uninstall_steps(name: Seq<char>, package: InstalledPackageView) -> Seq<
    UninstallStepView,
> {
    Seq::new(package.symlinks.len(), |i: int| UninstallStepView::RemoveLink(package.symlinks[i]))
        + seq![
        UninstallStepView::RemoveTree(package.install_path),
        UninstallStepView::Forget(name),
        UninstallStepView::Persist,
    ]
}

/// The record that an install leaves in the ledger.
pub open spec fn installed_record(
    version: Seq<char>,
    install_path: Seq<char>,
    symlinks: Seq<Seq<char>>,
) -> InstalledPackageView {
    InstalledPackageView { version, source: "github"@, install_path, symlinks }
}

/// The GitHub connector of one user.
#[derive(Debug)]
pub struct GitHubWrapper {
    registry: Vec<Registered>,
    state_file: String,
    packages_dir: String,
    bin_dir: String,
}

/// What a `GitHubWrapper` denotes.
pub struct GitHubWrapperView {
    /// The file that holds the ledger.
    pub state_file: Seq<char>,
    /// The directory below which packages are installed.
    pub packages_dir: Seq<char>,
    /// The directory in which links to executables are published.
    pub bin_dir: Seq<char>,
}

impl View for GitHubWrapper {
    type V = GitHubWrapperView;

    closed spec fn view(&self) -> GitHubWrapperView {
        GitHubWrapperView {
            state_file: self.state_file@,
            packages_dir: self.packages_dir@,
            bin_dir: self.bin_dir@,
        }
    }
}

fn known(name: &str, repo: &str, executable: &str) -> (out: Registered)
    ensures
        out@ == line(name@, repo@, executable@),
{
    let mut executables: Vec<String> = Vec::new();
    executables.push(executable.to_owned());
    let out = Registered {
        name: name.to_owned(),
        source: PackageSource { repo: repo.to_owned(), executables },
    };
    assert(out.source.executables.deep_view() =~= seq![executable@]);
    out
}

impl GitHubWrapper {
    #[verifier::type_invariant]
    spec fn holds_the_registry(self) -> bool {
        registry_views(self.registry@) == registry()
    }

    /// The connector of the user whose home directory is `home`.
    pub fn new(home: &str) -> (out: Self)
        ensures
            out@.packages_dir == join_path(join_path(home@, ".local"@), "packages"@),
            out@.bin_dir == join_path(join_path(home@, ".local"@), "bin"@),
            out@.state_file == join_path(
                join_path(join_path(join_path(home@, ".local"@), "share"@), "micasa"@),
                "github-installed.json"@,
            ),
    {
        let local = join_path_of(home, ".local");
        let packages_dir = join_path_of(local.as_str(), "packages");
        let bin_dir = join_path_of(local.as_str(), "bin");
        let share = join_path_of(local.as_str(), "share");
        let micasa = join_path_of(share.as_str(), "micasa");
        let state_file = join_path_of(micasa.as_str(), "github-installed.json");
        let mut registry: Vec<Registered> = Vec::new();
        registry.push(known("fd", "sharkdp/fd", "fd"));
        registry.push(known("bat", "sharkdp/bat", "bat"));
        registry.push(known("ripgrep", "BurntSushi/ripgrep", "rg"));
        registry.push(known("eza", "eza-community/eza", "eza"));
        registry.push(known("fzf", "junegunn/fzf", "fzf"));
        registry.push(known("lazygit", "jesseduffield/lazygit", "lazygit"));
        registry.push(known("chezmoi", "twpayne/chezmoi", "chezmoi"));
        registry.push(known("neovim", "neovim/neovim", "nvim"));
        let mut uv_executables: Vec<String> = Vec::new();
        uv_executables.push("uv".to_owned());
        uv_executables.push("uvx".to_owned());
        assert(uv_executables.deep_view() =~= seq!["uv"@, "uvx"@]);
        registry.push(
            Registered {
                name: "uv".to_owned(),
                source: PackageSource { repo: "astral-sh/uv".to_owned(), executables: uv_executables },
            },
        );
        assert(registry_views(registry@) =~= self::registry());
        GitHubWrapper { registry, state_file, packages_dir, bin_dir }
    }

    /// The connector's identifier.
    pub fn name(&self) -> (out: &'static str)
        ensures
            out@ == "github"@,
    {
        "github"
    }

    /// The connector is always available: it is the fallback.
    pub fn is_available(&self) -> (b: bool)
        ensures
            b,
    {
        true
    }

    /// The file that holds the ledger.
    pub fn state_file(&self) -> (out: &str)
        ensures
            out@ == self@.state_file,
    {
        self.state_file.as_str()
    }

    /// The directory below which packages are installed.
    pub fn packages_dir(&self) -> (out: &str)
        ensures
            out@ == self@.packages_dir,
    {
        self.packages_dir.as_str()
    }

    /// The directory in which links to executables are published.
    pub fn bin_dir(&self) -> (out: &str)
        ensures
            out@ == self@.bin_dir,
    {
        self.bin_dir.as_str()
    }

    /// Where `name` comes from, if the connector knows the package.
    pub fn lookup(&self, name: &str) -> (out: Option<&PackageSource>)
        ensures
            match out {
                Some(source) => registered(name@) == Some(source@),
                None => registered(name@) is None,
            },
    {
        proof {
            use_type_invariant(self);
        }
        let ghost table = registry_views(self.registry@);
        let mut i: usize = 0;
        while i < self.registry.len()
            invariant
                i <= self.registry.len(),
                table == registry_views(self.registry@),
                table == registry(),
                forall|j: int| 0 <= j < i ==> (#[trigger] table[j]).name != name@,
            decreases self.registry.len() - i,
        {
            assert(table[i as int] == self.registry@[i as int]@);
            if str_eq(self.registry[i].name.as_str(), name) {
                proof {
                    lemma_line_of_is(table, name@, i as int);
                }
                return Some(&self.registry[i].source);
            }
            i += 1;
        }
        proof {
            lemma_line_of_is(table, name@, i as int);
        }
        None
    }

    /// Where the latest release of `repo` is described.
    pub fn release_url(repo: &str) -> (out: String)
        ensures
            out@ == "https://api.github.com/repos/"@ + repo@ + "/releases/latest"@,
    {
        let head = concat("https://api.github.com/repos/", repo);
        concat(head.as_str(), "/releases/latest")
    }

    /// The version that the release tag `tag_name` stands for.
    pub fn parse_version(&self, tag_name: &str) -> (out: String)
        ensures
            out@ == version_of(tag_name@),
    {
        let x = chars_of(tag_name);
        if x.len() > 0 && x[0] == 'v' {
            tag_name.substring_char(1, x.len()).to_owned()
        } else {
            tag_name.to_owned()
        }
    }

    /// How well the asset named `asset_name` suits a host with the operating
    /// system `os` and the architecture `arch`.
    pub fn score_asset(&self, os: &str, arch: &str, asset_name: &str) -> (out: i32)
        ensures
            out == score(os@, arch@, lowercase(asset_name@)),
    {
        let lowered = to_lowercase(asset_name);
        score_lowered(os, arch, lowered.as_str())
    }

    /// The asset of `assets` to install on a host with the operating system
    /// `os` and the architecture `arch`: the first of those with the highest
    /// score, if that score is positive.
    pub fn find_best_asset<'a>(&self, os: &str, arch: &str, assets: &'a [GitHubAsset]) -> (out:
        Option<&'a GitHubAsset>)
        ensures
            match out {
                Some(asset) => exists|at: int|
                    is_best(scores(os@, arch@, asset_names(assets@)), at) && *asset == assets@[at],
                None => none_suits(scores(os@, arch@, asset_names(assets@))),
            },
    {
        match self.best_asset_index(os, arch, assets) {
            Some(at) => Some(&assets[at]),
            None => None,
        }
    }

    /// The place in `assets` of the asset to install.
    pub fn best_asset_index(&self, os: &str, arch: &str, assets: &[GitHubAsset]) -> (out: Option<
        usize,
    >)
        ensures
            match out {
                Some(at) => is_best(scores(os@, arch@, asset_names(assets@)), at as int),
                None => none_suits(scores(os@, arch@, asset_names(assets@))),
            },
    {
        let ghost all = scores(os@, arch@, asset_names(assets@));
        let mut best: Option<usize> = None;
        let mut high: i32 = 0;
        let mut i: usize = 0;
        while i < assets.len()
            invariant
                i <= assets.len(),
                all == scores(os@, arch@, asset_names(assets@)),
                all.len() == assets.len(),
                forall|j: int| 0 <= j < i ==> all[j] <= high,
                match best {
                    Some(at) => at < i && high > 0 && all[at as int] == high && forall|j: int|
                        0 <= j < at ==> all[j] < high,
                    None => high == 0,
                },
            decreases assets.len() - i,
        {
            let s = self.score_asset(os, arch, assets[i].name.as_str());
            assert(all[i as int] == s);
            if s > high {
                high = s;
                best = Some(i);
            }
            i += 1;
        }
        best
    }

    /// The directory in which downloads are kept.
    pub fn cache_dir(&self) -> (out: String)
        ensures
            out@ == join_path(self@.packages_dir, ".cache"@),
    {
        join_path_of(self.packages_dir.as_str(), ".cache")
    }

    /// Where the asset named `asset_name` is downloaded to.
    pub fn archive_path(&self, asset_name: &str) -> (out: String)
        ensures
            out@ == join_path(join_path(self@.packages_dir, ".cache"@), asset_name@),
    {
        join_path_of(self.cache_dir().as_str(), asset_name)
    }

    /// The directory that holds `version` of `package_name`.
    pub fn install_dir(&self, package_name: &str, version: &str) -> (out: String)
        ensures
            out@ == join_path(join_path(self@.packages_dir, package_name@), version@),
    {
        let package_dir = join_path_of(self.packages_dir.as_str(), package_name);
        join_path_of(package_dir.as_str(), version)
    }

    /// The executables among `files`, which are the entries of the install
    /// directory and of its `bin` directory: the regular files with an
    /// execute permission whose name is one of `expected_names`. It is a
    /// failure to find none.
    pub fn find_executables(&self, files: &Vec<FileEntry>, expected_names: &Vec<String>) -> (r:
        Result<Vec<String>, MicasaError>)
        ensures
            match r {
                Ok(found) => found.len() > 0 && found.deep_view() == executables(
                    file_views(files@),
                    expected_names.deep_view(),
                ),
                Err(e) => executables(file_views(files@), expected_names.deep_view()).len() == 0
                    && e@ == ErrorView::NoExecutablesFound,
            },
    {
        let ghost all = file_views(files@);
        let ghost names = expected_names.deep_view();
        let mut found: Vec<String> = Vec::new();
        let mut i: usize = 0;
        assert(all.take(0) =~= Seq::<FileEntryView>::empty());
        assert(found.deep_view() =~= Seq::<Seq<char>>::empty());
        while i < files.len()
            invariant
                i <= files.len(),
                all == file_views(files@),
                names == expected_names.deep_view(),
                found.deep_view() == executables(all.take(i as int), names),
            decreases files.len() - i,
        {
            assert(all.take(i + 1).drop_last() =~= all.take(i as int));
            assert(all.take(i + 1).last() == files@[i as int]@);
            if is_executable_file(&files[i], expected_names) {
                let ghost before = found.deep_view();
                found.push(files[i].path.clone());
                assert(found.deep_view() =~= before.push(files@[i as int].path@));
            }
            i += 1;
        }
        assert(all.take(i as int) =~= all);
        if found.len() == 0 {
            Err(MicasaError::NoExecutablesFound)
        } else {
            Ok(found)
        }
    }

    /// The links to publish for `executables`: one for each, in the
    /// directory for links, under the executable's file name.
    pub fn create_symlinks(&self, executables: &Vec<String>) -> (out: Vec<Link>)
        ensures
            link_views(out@) == links(self@.bin_dir, executables.deep_view()),
    {
        let ghost targets = executables.deep_view();
        let mut out: Vec<Link> = Vec::new();
        let mut i: usize = 0;
        assert(targets.take(0) =~= Seq::<Seq<char>>::empty());
        assert(link_views(out@) =~= Seq::<LinkView>::empty());
        while i < executables.len()
            invariant
                i <= executables.len(),
                targets == executables.deep_view(),
                link_views(out@) == links(self@.bin_dir, targets.take(i as int)),
            decreases executables.len() - i,
        {
            assert(targets.take(i + 1).drop_last() =~= targets.take(i as int));
            assert(targets.take(i + 1).last() == executables@[i as int]@);
            match file_name_of(executables[i].as_str()) {
                Some(name) => {
                    let ghost before = link_views(out@);
                    let link = Link {
                        link: join_path_of(self.bin_dir.as_str(), name.as_str()),
                        target: executables[i].clone(),
                    };
                    let ghost added = link@;
                    out.push(link);
                    assert(link_views(out@) =~= before.push(added));
                },
                None => {},
            }
            i += 1;
        }
        assert(targets.take(i as int) =~= targets);
        out
    }

    /// What the connector reports of `package_name`, given the ledger and
    /// the latest release.
    pub fn get_info(&self, package_name: &str, state: &InstallState, release: &GitHubRelease) -> (r:
        Result<PackageInfo, MicasaError>)
        ensures
            match r {
                Ok(info) => described(package_name@, state@, release.tag_name@) == Ok::<
                    PackageInfoView,
                    ErrorView,
                >(info@),
                Err(e) => described(package_name@, state@, release.tag_name@) == Err::<
                    PackageInfoView,
                    ErrorView,
                >(e@),
            },
    {
        match self.lookup(package_name) {
            None => Err(MicasaError::PackageNotFound(package_name.to_owned())),
            Some(source) => {
                let installed_version = match state.get(package_name) {
                    Some(package) => Some(package.version.clone()),
                    None => None,
                };
                Ok(
                    PackageInfo {
                        name: package_name.to_owned(),
                        installed_version,
                        available_version: Some(self.parse_version(release.tag_name.as_str())),
                        description: Some(concat("GitHub: ", source.repo.as_str())),
                        source: "github".to_owned(),
                    },
                )
            },
        }
    }

    /// Records in `state` that `version` of `package_name` was installed into
    /// `install_path`, with the links `symlinks`; an earlier record of the
    /// package is replaced.
    pub fn install(
        &self,
        state: &mut InstallState,
        package_name: &str,
        version: String,
        install_path: String,
        symlinks: Vec<String>,
    )
        ensures
            final(state)@ == old(state)@.insert(
                package_name@,
                installed_record(version@, install_path@, symlinks.deep_view()),
            ),
    {
        let package = InstalledPackage {
            version,
            source: "github".to_owned(),
            install_path,
            symlinks,
        };
        state.insert(package_name.to_owned(), package);
    }

    /// The steps that uninstall `package_name`, in order. A package without
    /// a record in `state` is not found.
    pub fn uninstall(&self, state: &InstallState, package_name: &str) -> (r: Result<
        Vec<UninstallStep>,
        MicasaError,
    >)
        ensures
            match r {
                Ok(steps) => state@.contains_key(package_name@) && step_views(steps@)
                    == uninstall_steps(package_name@, state@[package_name@]),
                Err(e) => !state@.contains_key(package_name@) && e@ == ErrorView::PackageNotFound(
                    package_name@,
                ),
            },
    {
        match state.get(package_name) {
            None => Err(MicasaError::PackageNotFound(package_name.to_owned())),
            Some(package) => {
                let mut steps: Vec<UninstallStep> = Vec::new();
                let mut i: usize = 0;
                while i < package.symlinks.len()
                    invariant
                        i <= package.symlinks.len(),
                        steps.len() == i,
                        forall|j: int|
                            0 <= j < i ==> (#[trigger] steps@[j])@ == UninstallStepView::RemoveLink(
                                package.symlinks@[j]@,
                            ),
                    decreases package.symlinks.len() - i,
                {
                    steps.push(UninstallStep::RemoveLink(package.symlinks[i].clone()));
                    i += 1;
                }
                steps.push(UninstallStep::RemoveTree(package.install_path.clone()));
                steps.push(UninstallStep::Forget(package_name.to_owned()));
                steps.push(UninstallStep::Persist);
                assert(step_views(steps@) =~= uninstall_steps(package_name@, package@));
                Ok(steps)
            },
        }
    }
}

/// How well an asset suits a host, given the asset's name in lower case.
pub fn score_lowered(os: &str, arch: &str, lowered: &str) -> (out: i32)
    ensures
        out == score(os@, arch@, lowered@),
{
    let mut total: i32 = 0;
    if str_eq(os, "linux") {
        if contains_str(lowered, "linux") {
            total += 20;
        }
        if contains_str(lowered, "musl") {
            total += 5;
        } else if contains_str(lowered, "gnu") {
            total += 3;
        }
    } else if str_eq(os, "macos") {
        if contains_str(lowered, "darwin") || contains_str(lowered, "macos") || contains_str(
            lowered,
            "apple",
        ) {
            total += 20;
        }
    }
    if str_eq(arch, "x86_64") {
        if contains_str(lowered, "x86_64") || contains_str(lowered, "amd64") {
            total += 10;
        }
    } else if str_eq(arch, "aarch64") {
        if contains_str(lowered, "aarch64") || contains_str(lowered, "arm64") {
            total += 10;
        }
    }
    if ends_with(lowered, ".tar.gz") || ends_with(lowered, ".tgz") {
        total += 2;
    } else if ends_with(lowered, ".zip") {
        total += 1;
    }
    if contains_str(lowered, "debug") {
        total -= 10;
    }
    total
}

/// The name of the file at `path`.
pub fn file_name_of(path: &str) -> (out: Option<String>)
    ensures
        out.deep_view() == file_name(path@),
{
    proof {
        reveal_strlit("/");
        reveal_strlit(".");
        reveal_strlit("..");
    }
    assert("/"@ =~= seq!['/']);
    assert("."@ =~= seq!['.']);
    assert(".."@ =~= seq!['.', '.']);
    let mut parts = components_of(path);
    assert(parts.len() > 0 ==> parts.deep_view().last() == parts@[parts.len() - 1]@);
    match parts.pop() {
        Some(last) => {
            if str_eq(last.as_str(), "/") || str_eq(last.as_str(), ".") || str_eq(
                last.as_str(),
                "..",
            ) {
                None
            } else {
                Some(last)
            }
        },
        None => None,
    }
}

fn is_executable_file(file: &FileEntry, names: &Vec<String>) -> (b: bool)
    ensures
        b == is_executable(file@, names.deep_view()),
{
    if !file.is_file || file.mode & 0o111 == 0 {
        return false;
    }
    match file_name_of(file.path.as_str()) {
        None => false,
        Some(name) => {
            let ghost all = names.deep_view();
            let mut i: usize = 0;
            while i < names.len()
                invariant
                    i <= names.len(),
                    all == names.deep_view(),
                    file.is_file,
                    file.mode & 0o111 != 0,
                    file_name(file.path@) == Some(name@),
                    forall|j: int| 0 <= j < i ==> all[j] != name@,
                decreases names.len() - i,
            {
                assert(all[i as int] == names@[i as int]@);
                if str_eq(names[i].as_str(), name.as_str()) {
                    assert(all.contains(name@));
                    return true;
                }
                i += 1;
            }
            false
        },
    }
}

/// Every executable that is found is one of the files that were listed: a
/// regular file with an execute permission under one of the expected names.
pub proof fn law_executables_are_listed(files: Seq<FileEntryView>, names: Seq<Seq<char>>, at: int)
    requires
        0 <= at < executables(files, names).len(),
    ensures
        exists|i: int|
            0 <= i < files.len() && is_executable(#[trigger] files[i], names) && files[i].path
                == executables(files, names)[at],
    decreases files.len(),
{
    let init = files.drop_last();
    if is_executable(files.last(), names) && at == executables(init, names).len() {
        assert(files[files.len() - 1] == files.last());
    } else {
        law_executables_are_listed(init, names, at);
        let i = choose|i: int|
            0 <= i < init.len() && is_executable(#[trigger] init[i], names) && init[i].path
                == executables(init, names)[at];
        assert(files[i] == init[i]);
    }
}

/// Every link that is published points at one of the executables, and lies
/// in the directory for links under the executable's own file name.
pub proof fn law_links_point_at_executables(bin_dir: Seq<char>, targets: Seq<Seq<char>>, at: int)
    requires
        0 <= at < links(bin_dir, targets).len(),
    ensures
        exists|i: int|
            0 <= i < targets.len() && links(bin_dir, targets)[at].target == #[trigger] targets[i]
                && file_name(targets[i]) is Some && links(bin_dir, targets)[at].link == join_path(
                bin_dir,
                file_name(targets[i])->0,
            ),
    decreases targets.len(),
{
    let init = targets.drop_last();
    if file_name(targets.last()) is Some && at == links(bin_dir, init).len() {
        assert(targets[targets.len() - 1] == targets.last());
    } else {
        law_links_point_at_executables(bin_dir, init, at);
        let i = choose|i: int|
            0 <= i < init.len() && links(bin_dir, init)[at].target == #[trigger] init[i]
                && file_name(init[i]) is Some && links(bin_dir, init)[at].link == join_path(
                bin_dir,
                file_name(init[i])->0,
            );
        assert(targets[i] == init[i]);
    }
}

/// The ledger is touched last: in an uninstall, the record is forgotten
/// after every link and the install directory have been removed, and the
/// ledger is written back at the very end.
pub proof fn law_ledger_is_touched_last(name: Seq<char>, package: InstalledPackageView)
    ensures
        ({
            let steps = uninstall_steps(name, package);
            let n = package.symlinks.len() as int;
            &&& steps.len() == n + 3
            &&& forall|i: int| 0 <= i < n ==> #[trigger] steps[i] == UninstallStepView::RemoveLink(
                package.symlinks[i],
            )
            &&& steps[n] == UninstallStepView::RemoveTree(package.install_path)
            &&& steps[n + 1] == UninstallStepView::Forget(name)
            &&& steps[n + 2] == UninstallStepView::Persist
        }),
{
}

} // verus!
