//! What the info command shows of a package: one block of lines for each
//! connector that knows it.

use crate::error::ErrorView;
use crate::package_manager::{PackageInfo, PackageInfoView};
use crate::text::{concat, first_chars, repeat, repeated, text_of};
use crate::version::{satisfies, satisfies_requirement};
use vstd::prelude::*;
use vstd::string::StringExecFns;

verus! {

/// The mark that is shown beside `version`: a cross where the version is
/// known not to meet `constraint`, else a check mark.
pub open spec fn mark(version: Seq<char>, constraint: Option<Seq<char>>) -> Seq<char> {
    if constraint is Some && satisfies(version, constraint) == Ok::<bool, ErrorView>(false) {
        "✗"@
    } else {
        "✓"@
    }
}

/// `description`, cut after 97 characters and marked with an ellipsis where
/// it has more than 100.
pub open spec fn shortened(description: Seq<char>) -> Seq<char> {
    if description.len() > 100 {
        description.take(97) + "..."@
    } else {
        description
    }
}

/// The line for the installed version, with its mark.
pub open spec fn installed_line(info: PackageInfoView, constraint: Option<Seq<char>>) -> Seq<
    char,
> {
    match info.installed_version {
        Some(version) => "    Installed: "@ + version + " "@ + mark(version, constraint),
        None => "    Installed: Not installed"@,
    }
}

/// What is shown of `info` for a package of the manifest with `constraint`:
/// the connector, the installed and the available version, each marked as
/// meeting the constraint or not, and the description, shortened.
pub open spec fn manifest_lines(info: PackageInfoView, constraint: Option<Seq<char>>) -> Seq<
    Seq<char>,
> {
    seq!["  From "@ + info.source + ":"@, installed_line(info, constraint)] + (
    match info.available_version {
        Some(version) => seq!["    Available: "@ + version + " "@ + mark(version, constraint)],
        None => Seq::empty(),
    }) + (match info.description {
        Some(description) => seq!["    Description: "@ + shortened(description)],
        None => Seq::empty(),
    })
}

/// What is shown of `info` for a package that was asked for by name.
pub open spec fn package_lines(info: PackageInfoView) -> Seq<Seq<char>> {
    seq![
        "Package: "@ + info.name + " (from "@ + info.source + ")"@,
        repeated("="@, 60),
        match info.installed_version {
            Some(version) => "  Installed: "@ + version,
            None => "  Installed: Not installed"@,
        },
    ] + (match info.available_version {
        Some(version) => seq!["  Available: "@ + version],
        None => Seq::empty(),
    }) + (match info.description {
        Some(description) => seq!["  Description: "@ + description],
        None => Seq::empty(),
    })
}

fn mark_of(version: &str, constraint: Option<&str>) -> (out: &'static str)
    ensures
        out@ == mark(version@, text_of(constraint)),
{
    match constraint {
        None => "✓",
        Some(_) => match satisfies_requirement(version, constraint) {
            Ok(false) => "✗",
            _ => "✓",
        },
    }
}

fn marked(label: &str, version: &str, constraint: Option<&str>) -> (out: String)
    ensures
        out@ == label@ + version@ + " "@ + mark(version@, text_of(constraint)),
{
    let mut out = concat(label, version);
    out.append(" ");
    out.append(mark_of(version, constraint));
    out
}

/// What is shown of `info` for a package of the manifest with the
/// constraint `version_spec`.
pub fn print_package_info(info: &PackageInfo, version_spec: Option<&str>) -> (out: Vec<String>)
    ensures
        out.deep_view() == manifest_lines(info@, text_of(version_spec)),
{
    let mut out: Vec<String> = Vec::new();
    let mut head = concat("  From ", info.source.as_str());
    head.append(":");
    out.push(head);
    match &info.installed_version {
        Some(version) => out.push(marked("    Installed: ", version.as_str(), version_spec)),
        None => out.push("    Installed: Not installed".to_owned()),
    }
    match &info.available_version {
        Some(version) => out.push(marked("    Available: ", version.as_str(), version_spec)),
        None => {},
    }
    match &info.description {
        Some(description) => {
            let short = if description.as_str().unicode_len() > 100 {
                concat(first_chars(description.as_str(), 97), "...")
            } else {
                description.clone()
            };
            out.push(concat("    Description: ", short.as_str()));
        },
        None => {},
    }
    assert(out.deep_view() =~= manifest_lines(info@, text_of(version_spec)));
    out
}

/// What is shown of `info` for a package that was asked for by name.
pub fn package_info_lines(info: &PackageInfo) -> (out: Vec<String>)
    ensures
        out.deep_view() == package_lines(info@),
{
    let mut out: Vec<String> = Vec::new();
    let mut head = concat("Package: ", info.name.as_str());
    head.append(" (from ");
    head.append(info.source.as_str());
    head.append(")");
    out.push(head);
    out.push(repeat("=", 60));
    match &info.installed_version {
        Some(version) => out.push(concat("  Installed: ", version.as_str())),
        None => out.push("  Installed: Not installed".to_owned()),
    }
    match &info.available_version {
        Some(version) => out.push(concat("  Available: ", version.as_str())),
        None => {},
    }
    match &info.description {
        Some(description) => out.push(concat("  Description: ", description.as_str())),
        None => {},
    }
    assert(out.deep_view() =~= package_lines(info@));
    out
}

} // verus!
