//! The connector for Homebrew (macOS): under which names it knows a package,
//! how its commands are worded, and what a formula says of a package.

use crate::package_manager::candidates::{Facts, FactsView};
use vstd::prelude::*;

verus! {

/// What a formula says of a package: it is installed in the first of its
/// installed versions, if there is one, and available in its stable version.
pub open spec fn formula_facts(
    stable: Seq<char>,
    description: Option<Seq<char>>,
    installed: Seq<Seq<char>>,
) -> FactsView {
    FactsView {
        installed_version: if installed.len() > 0 {
            Some(installed[0])
        } else {
            None
        },
        available_version: Some(stable),
        description,
    }
}

/// The Homebrew connector.
#[derive(Debug, Clone, Copy)]
pub struct BrewWrapper;

impl BrewWrapper {
    pub fn new() -> (out: Self)
        ensures
            out == BrewWrapper,
    {
        BrewWrapper
    }

    /// The connector's identifier.
    pub fn name(&self) -> (out: &'static str)
        ensures
            out@ == "brew"@,
    {
        "brew"
    }

    /// The names under which Homebrew may know `name`: that name alone.
    pub fn resolve_package_candidates(&self, name: &str) -> (out: Vec<String>)
        ensures
            out.deep_view() == seq![name@],
    {
        let mut out: Vec<String> = Vec::new();
        out.push(name.to_owned());
        assert(out.deep_view() =~= seq![name@]);
        out
    }

    /// What a formula says of a package, given its stable version, its
    /// description and the versions in which it is installed.
    pub fn facts(&self, stable: String, description: Option<String>, installed: &Vec<String>) -> (out:
        Facts)
        ensures
            out@ == formula_facts(stable@, description.deep_view(), installed.deep_view()),
    {
        let installed_version = if installed.len() > 0 {
            assert(installed.deep_view()[0] == installed@[0]@);
            Some(installed[0].clone())
        } else {
            None
        };
        Facts { installed_version, available_version: Some(stable), description }
    }

    /// The words of the command that asks Homebrew about `candidate`.
    pub fn info_command(&self, candidate: &str) -> (out: Vec<String>)
        ensures
            out.deep_view() == seq!["brew"@, "info"@, candidate@, "--json=v2"@],
    {
        let mut out: Vec<String> = Vec::new();
        out.push("brew".to_owned());
        out.push("info".to_owned());
        out.push(candidate.to_owned());
        out.push("--json=v2".to_owned());
        assert(out.deep_view() =~= seq!["brew"@, "info"@, candidate@, "--json=v2"@]);
        out
    }

    /// The words of the command that installs (`remove` false) or removes
    /// `target`.
    pub fn command(&self, remove: bool, target: &str) -> (out: Vec<String>)
        ensures
            out.deep_view() == seq![
                "brew"@,
                if remove {
                    "uninstall"@
                } else {
                    "install"@
                },
                target@,
            ],
    {
        let mut out: Vec<String> = Vec::new();
        out.push("brew".to_owned());
        if remove {
            out.push("uninstall".to_owned());
        } else {
            out.push("install".to_owned());
        }
        out.push(target.to_owned());
        assert(out.deep_view() =~= seq![
            "brew"@,
            if remove {
                "uninstall"@
            } else {
                "install"@
            },
            target@,
        ]);
        out
    }
}

} // verus!
