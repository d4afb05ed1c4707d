//! The connector for dnf (Fedora, RHEL, Amazon Linux): under which names it
//! knows a package, how its commands are worded, what the output of
//! `dnf info` says, and when a failed command is tried again with elevated
//! privileges.

use crate::error::{ErrorView, MicasaError};
use crate::text::{
    chars_of, contains, contains_str, join, join_strings, lines, lines_of, position,
    split_once, starts_with, str_eq, trim, trim_of, trim_start, trim_start_of, views_of,
};
use vstd::prelude::*;
use vstd::string::StringExecFns;

verus! {

/// The part of the listing that a line belongs to.
#[derive(Debug, Clone, Copy, PartialEq, Eq, Structural)]
pub enum Section {
    /// Before any heading.
    Preamble,
    /// Under `Available Packages`.
    Available,
    /// Under `Installed Packages`.
    Installed,
}

/// What has been read of a listing.
pub struct ScanView {
    pub section: Section,
    pub available_version: Option<Seq<char>>,
    pub available_release: Option<Seq<char>>,
    pub installed_version: Option<Seq<char>>,
    pub installed_release: Option<Seq<char>>,
    /// The first description that was completed.
    pub description: Option<Seq<char>>,
    /// The key of the last `key : value` line.
    pub current_key: Seq<char>,
    /// The pieces of the description that is being read.
    pub description_lines: Seq<Seq<char>>,
}

/// What a continuation line adds to a description: the line without the
/// whitespace around it and without the colon that it may begin with.
pub open spec fn continuation(line: Seq<char>) -> Seq<char> {
    let inner = trim_start(line);
    if inner.len() > 0 && inner[0] == ':' {
        trim(inner.skip(1))
    } else {
        trim(line)
    }
}

impl ScanView {
    /// Nothing read yet.
    pub open spec fn start() -> ScanView {
        ScanView {
            section: Section::Preamble,
            available_version: None,
            available_release: None,
            installed_version: None,
            installed_release: None,
            description: None,
            current_key: Seq::empty(),
            description_lines: Seq::empty(),
        }
    }

    /// The description being read is complete: it is kept if it is the first
    /// and not empty.
    pub open spec fn close(self) -> ScanView {
        if self.current_key == "Description"@ && self.description_lines.len() > 0 {
            ScanView {
                description: if self.description is None {
                    Some(join(self.description_lines, " "@))
                } else {
                    self.description
                },
                description_lines: Seq::empty(),
                ..self
            }
        } else {
            self
        }
    }

    /// A `key : value` line is taken in. Version and release count under a
    /// heading only; a description counts anywhere.
    pub open spec fn assign(self, key: Seq<char>, value: Seq<char>) -> ScanView {
        if key == "Version"@ && self.section == Section::Available {
            ScanView { available_version: Some(value), ..self }
        } else if key == "Release"@ && self.section == Section::Available {
            ScanView { available_release: Some(value), ..self }
        } else if key == "Version"@ && self.section == Section::Installed {
            ScanView { installed_version: Some(value), ..self }
        } else if key == "Release"@ && self.section == Section::Installed {
            ScanView { installed_release: Some(value), ..self }
        } else if key == "Description"@ && value.len() > 0 {
            ScanView { description_lines: self.description_lines.push(value), ..self }
        } else {
            self
        }
    }

    /// The next line is taken in. A metadata notice is skipped; a heading
    /// changes the section; an indented line after a description continues
    /// it; any other line with a colon is a key with its value.
    pub open spec fn feed(self, line: Seq<char>) -> ScanView {
        let t = trim(line);
        if "Last metadata"@.is_prefix_of(t) {
            self
        } else if t == "Available Packages"@ {
            ScanView { section: Section::Available, ..self }
        } else if t == "Installed Packages"@ {
            ScanView { section: Section::Installed, ..self }
        } else if self.current_key == "Description"@ && line.len() > 0 && line[0] == ' ' {
            if continuation(line).len() > 0 {
                ScanView {
                    description_lines: self.description_lines.push(continuation(line)),
                    ..self
                }
            } else {
                self
            }
        } else if position(line, ':') < line.len() {
            let key = trim(line.take(position(line, ':')));
            let value = trim(line.skip(position(line, ':') + 1));
            ScanView { current_key: key, ..self.close() }.assign(key, value)
        } else {
            self
        }
    }

    /// All of `lines` are taken in, in order.
    pub open spec fn scan(lines: Seq<Seq<char>>) -> ScanView
        decreases lines.len(),
    {
        if lines.len() == 0 {
            ScanView::start()
        } else {
            ScanView::scan(lines.drop_last()).feed(lines.last())
        }
    }

    /// The description that the listing gives: the first that was completed,
    /// or else the one that its end cut short.
    pub open spec fn described(self) -> Option<Seq<char>> {
        if self.description is None && self.description_lines.len() > 0 {
            Some(join(self.description_lines, " "@))
        } else {
            self.description
        }
    }
}

/// A version with its release, as `version-release`; the version alone
/// where no release is given.
pub open spec fn full_version(version: Option<Seq<char>>, release: Option<Seq<char>>) -> Option<
    Seq<char>,
> {
    match version {
        None => None,
        Some(v) => match release {
            Some(r) => Some(v + "-"@ + r),
            None => Some(v),
        },
    }
}

/// The names under which dnf may know `name`, the one to install first.
pub open spec fn candidates(name: Seq<char>) -> Seq<Seq<char>> {
    if name == "curl"@ {
        seq!["curl"@, "curl-minimal"@]
    } else if name == "fd"@ {
        seq!["fd-find"@]
    } else {
        seq![name]
    }
}

/// Whether a failure of dnf looks like a lack of privileges: the command
/// ran, failed, and said so on its error stream. No more than a guess from
/// the wording.
pub open spec fn wants_elevation(failure: ErrorView) -> bool {
    match failure {
        ErrorView::CommandFailed { status, stderr } => contains(stderr, "permission"@) || contains(
            stderr,
            "not permitted"@,
        ) || contains(stderr, "Cannot open"@) || contains(
            stderr,
            "This command has to be run with superuser privileges"@,
        ),
        _ => false,
    }
}

struct Scan {
    section: Section,
    available_version: Option<String>,
    available_release: Option<String>,
    installed_version: Option<String>,
    installed_release: Option<String>,
    description: Option<String>,
    current_key: String,
    description_lines: Vec<String>,
}

impl View for Scan {
    type V = ScanView;

    closed spec fn view(&self) -> ScanView {
        ScanView {
            section: self.section,
            available_version: self.available_version.deep_view(),
            available_release: self.available_release.deep_view(),
            installed_version: self.installed_version.deep_view(),
            installed_release: self.installed_release.deep_view(),
            description: self.description.deep_view(),
            current_key: self.current_key@,
            description_lines: self.description_lines.deep_view(),
        }
    }
}

fn continuation_of<'a>(line: &'a str) -> (out: &'a str)
    ensures
        out@ == continuation(line@),
{
    let inner = trim_start_of(line);
    let x = chars_of(inner);
    if x.len() > 0 && x[0] == ':' {
        trim_of(inner.substring_char(1, x.len()))
    } else {
        trim_of(line)
    }
}

fn full_version_of(version: Option<String>, release: Option<String>) -> (out: Option<String>)
    ensures
        out.deep_view() == full_version(version.deep_view(), release.deep_view()),
{
    match version {
        None => None,
        Some(v) => match release {
            Some(r) => {
                let mut out = v;
                out.append("-");
                out.append(r.as_str());
                Some(out)
            },
            None => Some(v),
        },
    }
}

impl Scan {
    fn start() -> (out: Scan)
        ensures
            out@ == ScanView::start(),
    {
        let out = Scan {
            section: Section::Preamble,
            available_version: None,
            available_release: None,
            installed_version: None,
            installed_release: None,
            description: None,
            current_key: String::new(),
            description_lines: Vec::new(),
        };
        assert(out.description_lines.deep_view() =~= Seq::<Seq<char>>::empty());
        out
    }

    fn close(self) -> (out: Scan)
        ensures
            out@ == self@.close(),
    {
        if str_eq(self.current_key.as_str(), "Description") && self.description_lines.len() > 0 {
            let mut out = self;
            if out.description.is_none() {
                out.description = Some(join_strings(&out.description_lines, " "));
            }
            out.description_lines = Vec::new();
            assert(out.description_lines.deep_view() =~= Seq::<Seq<char>>::empty());
            out
        } else {
            self
        }
    }

    fn assign(self, key: &str, value: &str) -> (out: Scan)
        ensures
            out@ == self@.assign(key@, value@),
    {
        let mut out = self;
        let is_version = str_eq(key, "Version");
        let is_release = str_eq(key, "Release");
        if is_version && out.section == Section::Available {
            out.available_version = Some(value.to_owned());
        } else if is_release && out.section == Section::Available {
            out.available_release = Some(value.to_owned());
        } else if is_version && out.section == Section::Installed {
            out.installed_version = Some(value.to_owned());
        } else if is_release && out.section == Section::Installed {
            out.installed_release = Some(value.to_owned());
        } else if str_eq(key, "Description") && value.unicode_len() > 0 {
            let ghost before = out.description_lines.deep_view();
            out.description_lines.push(value.to_owned());
            assert(out.description_lines.deep_view() =~= before.push(value@));
        }
        out
    }

    fn feed(self, line: &str) -> (out: Scan)
        ensures
            out@ == self@.feed(line@),
    {
        let t = trim_of(line);
        if starts_with(t, "Last metadata") {
            return self;
        }
        if str_eq(t, "Available Packages") {
            let mut out = self;
            out.section = Section::Available;
            return out;
        }
        if str_eq(t, "Installed Packages") {
            let mut out = self;
            out.section = Section::Installed;
            return out;
        }
        let x = chars_of(line);
        if str_eq(self.current_key.as_str(), "Description") && x.len() > 0 && x[0] == ' ' {
            let piece = continuation_of(line);
            if piece.unicode_len() > 0 {
                let mut out = self;
                let ghost before = out.description_lines.deep_view();
                out.description_lines.push(piece.to_owned());
                assert(out.description_lines.deep_view() =~= before.push(piece@));
                return out;
            }
            return self;
        }
        match split_once(line, ':') {
            Some((key, value)) => {
                let key = trim_of(key);
                let value = trim_of(value);
                let mut out = self.close();
                out.current_key = key.to_owned();
                out.assign(key, value)
            },
            None => self,
        }
    }

    fn described(self) -> (out: Option<String>)
        ensures
            out.deep_view() == self@.described(),
    {
        if self.description.is_none() && self.description_lines.len() > 0 {
            Some(join_strings(&self.description_lines, " "))
        } else {
            self.description
        }
    }
}

/// The dnf connector.
#[derive(Debug, Clone, Copy)]
pub struct DnfWrapper;

impl DnfWrapper {
    pub fn new() -> (out: Self)
        ensures
            out == DnfWrapper,
    {
        DnfWrapper
    }

    /// The connector's identifier.
    pub fn name(&self) -> (out: &'static str)
        ensures
            out@ == "dnf"@,
    {
        "dnf"
    }

    /// The names under which dnf may know `name`, the one to install first.
    pub fn resolve_package_candidates(&self, name: &str) -> (out: Vec<String>)
        ensures
            out.deep_view() == candidates(name@),
    {
        let mut out: Vec<String> = Vec::new();
        if str_eq(name, "curl") {
            out.push("curl".to_owned());
            out.push("curl-minimal".to_owned());
            assert(out.deep_view() =~= seq!["curl"@, "curl-minimal"@]);
        } else if str_eq(name, "fd") {
            out.push("fd-find".to_owned());
            assert(out.deep_view() =~= seq!["fd-find"@]);
        } else {
            out.push(name.to_owned());
            assert(out.deep_view() =~= seq![name@]);
        }
        out
    }

    /// What the output of `dnf info` says of a package: its installed
    /// version, its available version, and its description.
    pub fn parse_info_output(&self, output: &str) -> (out: (
        Option<String>,
        Option<String>,
        Option<String>,
    ))
        ensures
            ({
                let read = ScanView::scan(lines(output@));
                &&& out.0.deep_view() == full_version(read.installed_version, read.installed_release)
                &&& out.1.deep_view() == full_version(read.available_version, read.available_release)
                &&& out.2.deep_view() == read.described()
            }),
    {
        let all = lines_of(output);
        let mut scan = Scan::start();
        let mut i: usize = 0;
        assert(views_of(all@).take(0) =~= Seq::<Seq<char>>::empty());
        while i < all.len()
            invariant
                i <= all.len(),
                scan@ == ScanView::scan(views_of(all@).take(i as int)),
            decreases all.len() - i,
        {
            assert(views_of(all@).take(i + 1).drop_last() =~= views_of(all@).take(i as int));
            assert(views_of(all@).take(i + 1).last() == all@[i as int]@);
            scan = scan.feed(all[i]);
            i += 1;
        }
        assert(views_of(all@).take(i as int) =~= views_of(all@));
        let Scan {
            section: _,
            available_version,
            available_release,
            installed_version,
            installed_release,
            description,
            current_key,
            description_lines,
        } = scan;
        let installed = full_version_of(installed_version, installed_release);
        let available = full_version_of(available_version, available_release);
        let rest = Scan {
            section: Section::Preamble,
            available_version: None,
            available_release: None,
            installed_version: None,
            installed_release: None,
            description,
            current_key,
            description_lines,
        };
        (installed, available, rest.described())
    }

    /// Whether a failed command is to be tried again with elevated
    /// privileges: its failure looks like a lack of them, and the host has a
    /// way to elevate.
    pub fn retries_elevated(&self, failure: &MicasaError, can_elevate: bool) -> (b: bool)
        ensures
            b == (can_elevate && wants_elevation(failure@)),
    {
        if !can_elevate {
            return false;
        }
        match failure {
            MicasaError::CommandFailed { status: _, stderr } => contains_str(
                stderr.as_str(),
                "permission",
            ) || contains_str(stderr.as_str(), "not permitted") || contains_str(
                stderr.as_str(),
                "Cannot open",
            ) || contains_str(
                stderr.as_str(),
                "This command has to be run with superuser privileges",
            ),
            _ => false,
        }
    }

    /// The words of the command that installs (`remove` false) or removes
    /// `target`, with or without elevated privileges.
    pub fn command(&self, remove: bool, target: &str, elevated: bool) -> (out: Vec<String>)
        ensures
            out.deep_view() == (if elevated {
                seq!["sudo"@]
            } else {
                Seq::<Seq<char>>::empty()
            }) + seq![
                "dnf"@,
                if remove {
                    "remove"@
                } else {
                    "install"@
                },
                "-y"@,
                target@,
            ],
    {
        let mut out: Vec<String> = Vec::new();
        if elevated {
            out.push("sudo".to_owned());
        }
        out.push("dnf".to_owned());
        if remove {
            out.push("remove".to_owned());
        } else {
            out.push("install".to_owned());
        }
        out.push("-y".to_owned());
        out.push(target.to_owned());
        assert(out.deep_view() =~= (if elevated {
            seq!["sudo"@]
        } else {
            Seq::<Seq<char>>::empty()
        }) + seq![
            "dnf"@,
            if remove {
                "remove"@
            } else {
                "install"@
            },
            "-y"@,
            target@,
        ]);
        out
    }
}

} // verus!
