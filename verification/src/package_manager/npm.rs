//! The connector for npm: how its commands are worded. Packages are
//! installed globally, which takes elevated privileges.

use vstd::prelude::*;

verus! {

/// The npm connector.
#[derive(Debug, Clone, Copy)]
pub struct NpmWrapper;

impl NpmWrapper {
    pub fn new() -> (out: Self)
        ensures
            out == NpmWrapper,
    {
        NpmWrapper
    }

    /// The connector's identifier.
    pub fn name(&self) -> (out: &'static str)
        ensures
            out@ == "npm"@,
    {
        "npm"
    }

    /// The connector is always available: where npm is missing, it is
    /// installed when first needed.
    pub fn is_available(&self) -> (b: bool)
        ensures
            b,
    {
        true
    }

    /// The words of the command that installs (`remove` false) or removes
    /// `package_name` for all users.
    pub fn command(&self, remove: bool, package_name: &str) -> (out: Vec<String>)
        ensures
            out.deep_view() == seq![
                "sudo"@,
                "npm"@,
                if remove {
                    "uninstall"@
                } else {
                    "install"@
                },
                "-g"@,
                package_name@,
            ],
    {
        let mut out: Vec<String> = Vec::new();
        out.push("sudo".to_owned());
        out.push("npm".to_owned());
        if remove {
            out.push("uninstall".to_owned());
        } else {
            out.push("install".to_owned());
        }
        out.push("-g".to_owned());
        out.push(package_name.to_owned());
        assert(out.deep_view() =~= seq![
            "sudo"@,
            "npm"@,
            if remove {
                "uninstall"@
            } else {
                "install"@
            },
            "-g"@,
            package_name@,
        ]);
        out
    }
}

} // verus!
