//! Connectors: the package sources that the resolver can turn to.

use crate::error::MicasaError;
use vstd::prelude::*;

pub mod apt;
pub mod archive;
pub mod brew;
pub mod candidates;
pub mod dnf;
pub mod elevation;
pub mod github;
pub mod installation;
pub mod ledger;
pub mod npm;
pub mod setup;

verus! {

/// What a connector knows of a package.
#[derive(Debug, Clone)]
pub struct PackageInfo {
    /// The package, under the name the caller asked for.
    pub name: String,
    /// The version that is installed, if any.
    pub installed_version: Option<String>,
    /// The version that the connector could install, if it names one.
    pub available_version: Option<String>,
    /// A short description.
    pub description: Option<String>,
    /// The name of the connector that answered.
    pub source: String,
}

/// What a `PackageInfo` denotes.
pub struct PackageInfoView {
    pub name: Seq<char>,
    pub installed_version: Option<Seq<char>>,
    pub available_version: Option<Seq<char>>,
    pub description: Option<Seq<char>>,
    pub source: Seq<char>,
}

impl View for PackageInfo {
    type V = PackageInfoView;

    open spec fn view(&self) -> PackageInfoView {
        PackageInfoView {
            name: self.name@,
            installed_version: self.installed_version.deep_view(),
            available_version: self.available_version.deep_view(),
            description: self.description.deep_view(),
            source: self.source@,
        }
    }
}

/// What every connector can do, whether it drives a native package manager
/// or fetches release binaries. The operations act on the host, so the
/// library states them and leaves the acting to its user; the library's own
/// connector types hold what each connector decides and parses.
pub trait PackageManager {
    /// A stable identifier: it appears in messages and as `PackageInfo::source`.
    fn name(&self) -> &str;

    /// Whether the connector can act on this host at all. A missing tool is
    /// an ordinary `false`.
    fn is_available(&self) -> bool;

    /// Installs the package. Succeeds without acting where the package is
    /// already installed.
    fn install(&self, package_name: &str) -> Result<(), MicasaError>;

    /// Removes what the connector installed. Fails where nothing is installed.
    fn uninstall(&self, package_name: &str) -> Result<(), MicasaError>;

    /// Reports on the package. Fails where the connector does not know it.
    fn get_info(&self, package_name: &str) -> Result<PackageInfo, MicasaError>;
}

/// The command lines by which a missing tool may be installed, one for each
/// native package manager, in the order in which they are tried. Each is
/// run with elevated privileges; the first that succeeds and leaves the tool
/// in place ends the search.
pub open spec fn tool_installers(
    apt_packages: Seq<Seq<char>>,
    dnf_package: Seq<char>,
    brew_package: Seq<char>,
) -> Seq<Seq<Seq<char>>> {
    seq![
        seq!["sudo"@, "apt-get"@, "install"@, "-y"@] + apt_packages,
        seq!["sudo"@, "dnf"@, "install"@, "-y"@, dnf_package],
        seq!["sudo"@, "yum"@, "install"@, "-y"@, dnf_package],
        seq!["sudo"@, "brew"@, "install"@, brew_package],
    ]
}

fn line_of(items: &[&str]) -> (out: Vec<String>)
    ensures
        out.deep_view() == Seq::new(items@.len(), |i: int| items@[i]@),
{
    let mut out: Vec<String> = Vec::new();
    let mut i: usize = 0;
    while i < items.len()
        invariant
            i <= items.len(),
            out.len() == i,
            forall|j: int| 0 <= j < i ==> (#[trigger] out@[j])@ == items@[j]@,
        decreases items.len() - i,
    {
        out.push(items[i].to_owned());
        i += 1;
    }
    assert(out.deep_view() =~= Seq::new(items@.len(), |i: int| items@[i]@));
    out
}

/// The command lines by which a missing tool may be installed; the tool's
/// package is named `apt_packages` by apt, `dnf_package` by dnf and yum, and
/// `brew_package` by Homebrew.
pub fn tool_install_commands(apt_packages: &[&str], dnf_package: &str, brew_package: &str) -> (out:
    Vec<Vec<String>>)
    ensures
        out.deep_view() == tool_installers(
            Seq::new(apt_packages@.len(), |i: int| apt_packages@[i]@),
            dnf_package@,
            brew_package@,
        ),
{
    let mut apt = line_of(&["sudo", "apt-get", "install", "-y"]);
    let mut more = line_of(apt_packages);
    let ghost head = apt.deep_view();
    let ghost tail = more.deep_view();
    apt.append(&mut more);
    assert(apt.deep_view() =~= head + tail);
    assert(head =~= seq!["sudo"@, "apt-get"@, "install"@, "-y"@]);
    let dnf = line_of(&["sudo", "dnf", "install", "-y", dnf_package]);
    assert(dnf.deep_view() =~= seq!["sudo"@, "dnf"@, "install"@, "-y"@, dnf_package@]);
    let yum = line_of(&["sudo", "yum", "install", "-y", dnf_package]);
    assert(yum.deep_view() =~= seq!["sudo"@, "yum"@, "install"@, "-y"@, dnf_package@]);
    let brew = line_of(&["sudo", "brew", "install", brew_package]);
    assert(brew.deep_view() =~= seq!["sudo"@, "brew"@, "install"@, brew_package@]);
    let mut out: Vec<Vec<String>> = Vec::new();
    out.push(apt);
    out.push(dnf);
    out.push(yum);
    out.push(brew);
    assert(out.deep_view() =~= tool_installers(
        Seq::new(apt_packages@.len(), |i: int| apt_packages@[i]@),
        dnf_package@,
        brew_package@,
    ));
    out
}

} // verus!
