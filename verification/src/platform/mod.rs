//! Which connectors a platform has, and in which order they are tried.

use crate::text::{
    lines, lines_of, str_eq, strip_prefix, trim, trim_matches, trim_matches_of, trim_of, views_of,
};
use vstd::prelude::*;

verus! {

/// An operating system.
#[derive(Debug, Clone, Copy, PartialEq, Eq, Structural)]
pub enum OsType {
    MacOS,
    Linux,
    Windows,
}

/// A connector.
#[derive(Debug, Clone, Copy, PartialEq, Eq, Structural)]
pub enum ManagerKind {
    Apt,
    Dnf,
    Brew,
    GitHub,
    Npm,
}

/// The operating system that the host names `os_name`.
pub open spec fn os_named(os_name: Seq<char>) -> Option<OsType> {
    if os_name == "macos"@ {
        Some(OsType::MacOS)
    } else if os_name == "linux"@ {
        Some(OsType::Linux)
    } else if os_name == "windows"@ {
        Some(OsType::Windows)
    } else {
        None
    }
}

/// Whether `os_name` names an operating system that is supported.
pub fn is_supported_os(os_name: &str) -> (b: bool)
    ensures
        b == os_named(os_name@) is Some,
{
    str_eq(os_name, "macos") || str_eq(os_name, "linux") || str_eq(os_name, "windows")
}

/// The operating system that the host names `os_name`, which is one of the
/// supported ones.
pub fn detect_os(os_name: &str) -> (out: OsType)
    requires
        os_named(os_name@) is Some,
    ensures
        os_named(os_name@) == Some(out),
{
    if str_eq(os_name, "macos") {
        OsType::MacOS
    } else if str_eq(os_name, "linux") {
        OsType::Linux
    } else {
        OsType::Windows
    }
}

/// The identifier that an `ID=` line gives: what follows the `=`, without
/// the whitespace and then the quotes around it.
pub open spec fn identifier(line: Seq<char>) -> Seq<char> {
    trim_matches(trim_matches(trim(line.skip(3)), '"'), '\'')
}

/// The distribution that the lines of an `os-release` file name: the
/// identifier of the first line that begins with `ID=`.
pub open spec fn distro_in(lines: Seq<Seq<char>>) -> Option<Seq<char>>
    decreases lines.len(),
{
    if lines.len() == 0 {
        None
    } else if "ID="@.is_prefix_of(lines[0]) {
        Some(identifier(lines[0]))
    } else {
        distro_in(lines.drop_first())
    }
}

/// The Linux distribution that the text of an `os-release` file names, such
/// as `ubuntu`, `fedora` or `amzn`.
pub fn detect_linux_distro(os_release: &str) -> (out: Option<String>)
    ensures
        out.deep_view() == distro_in(lines(os_release@)),
{
    let all = lines_of(os_release);
    let mut i: usize = 0;
    proof {
        reveal_strlit("ID=");
    }
    assert(views_of(all@).skip(0) =~= views_of(all@));
    while i < all.len()
        invariant
            i <= all.len(),
            "ID="@.len() == 3,
            views_of(all@) == lines(os_release@),
            distro_in(views_of(all@).skip(i as int)) == distro_in(views_of(all@)),
        decreases all.len() - i,
    {
        let ghost rest = views_of(all@).skip(i as int);
        assert(rest[0] == all@[i as int]@);
        assert(rest.drop_first() =~= views_of(all@).skip(i + 1));
        match strip_prefix(all[i], "ID=") {
            Some(value) => {
                let id = trim_matches_of(trim_matches_of(trim_of(value), '"'), '\'');
                return Some(id.to_owned());
            },
            None => {},
        }
        i += 1;
    }
    assert(views_of(all@).skip(i as int) =~= Seq::<Seq<char>>::empty());
    None
}

/// Whether dnf is the package manager of the distribution `distro`.
pub open spec fn uses_dnf(distro: Seq<char>) -> bool {
    distro == "amzn"@ || distro == "fedora"@ || distro == "rhel"@ || distro == "centos"@ || distro
        == "rocky"@ || distro == "almalinux"@
}

/// Whether apt is the package manager of the distribution `distro`.
pub open spec fn uses_apt(distro: Seq<char>) -> bool {
    distro == "debian"@ || distro == "ubuntu"@
}

/// The connectors of a platform, the preferred one first. The native
/// package manager comes before the fallbacks; on a Linux distribution that
/// is not known, both apt and dnf are listed, and which of them is there is
/// found out when they are asked.
pub open spec fn managers_for(os: OsType, distro: Option<Seq<char>>) -> Seq<ManagerKind> {
    match os {
        OsType::MacOS => seq![ManagerKind::Brew, ManagerKind::GitHub, ManagerKind::Npm],
        OsType::Linux => (if distro is Some && uses_dnf(distro->0) {
            seq![ManagerKind::Dnf]
        } else if distro is Some && uses_apt(distro->0) {
            seq![ManagerKind::Apt]
        } else {
            seq![ManagerKind::Apt, ManagerKind::Dnf]
        }) + seq![ManagerKind::GitHub, ManagerKind::Npm],
        OsType::Windows => seq![ManagerKind::GitHub, ManagerKind::Npm],
    }
}

/// The connectors of the platform with the operating system `os` and, on
/// Linux, the distribution `distro`, the preferred one first.
pub fn get_available_managers(os: OsType, distro: Option<&str>) -> (out: Vec<ManagerKind>)
    ensures
        out@ == managers_for(os, crate::text::text_of(distro)),
{
    let mut out: Vec<ManagerKind> = Vec::new();
    match os {
        OsType::MacOS => {
            out.push(ManagerKind::Brew);
        },
        OsType::Linux => {
            let dnf = match distro {
                Some(d) => str_eq(d, "amzn") || str_eq(d, "fedora") || str_eq(d, "rhel") || str_eq(
                    d,
                    "centos",
                ) || str_eq(d, "rocky") || str_eq(d, "almalinux"),
                None => false,
            };
            let apt = match distro {
                Some(d) => str_eq(d, "debian") || str_eq(d, "ubuntu"),
                None => false,
            };
            if dnf {
                out.push(ManagerKind::Dnf);
            } else if apt {
                out.push(ManagerKind::Apt);
            } else {
                out.push(ManagerKind::Apt);
                out.push(ManagerKind::Dnf);
            }
        },
        OsType::Windows => {},
    }
    out.push(ManagerKind::GitHub);
    out.push(ManagerKind::Npm);
    assert(out@ =~= managers_for(os, crate::text::text_of(distro)));
    out
}

} // verus!
