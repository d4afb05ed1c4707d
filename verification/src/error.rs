//! The failures that the library reports.

use vstd::prelude::*;
use vstd::string::StringExecFns;

verus! {

/// A failure of a package operation.
#[derive(Debug, Clone)]
pub enum MicasaError {
    /// The named connector cannot act on this host.
    PackageManagerNotAvailable(String),
    /// A command could not be run, or an operation built on commands failed.
    CommandExecutionFailed(String),
    /// A command ran and reported failure: its exit status, as the host
    /// words it, and what it wrote to its error stream.
    CommandFailed { status: String, stderr: String },
    /// The platform offers no connector at all.
    NoPackageManagers,
    /// A structured response could not be decoded.
    JsonParseError(String),
    /// Reading or writing failed; holds the host's message.
    Io(String),
    /// Command output was not valid UTF-8; holds the decoder's message.
    Utf8(String),
    /// No manifest at the given path.
    ManifestNotFound(String),
    /// The manifest's text is malformed.
    ManifestParseError(String),
    /// A version or a version specifier could not be parsed: the text, and why.
    InvalidVersionSpec(String, String),
    /// The package is known, but no connector offers a version that meets
    /// the constraint: the package, and the constraint.
    NoSatisfactoryVersion(String, String),
    /// No connector knows the package.
    PackageNotFound(String),
    /// The latest release of the package has no asset that suits this host.
    NoSuitableAsset(String),
    /// Something could not be fetched from the network; holds the reason.
    NetworkFetchFailed(String),
    /// A release archive could not be unpacked, or holds an entry that
    /// would be written outside the install directory; holds the reason.
    ExtractionFailed(String),
    /// The unpacked release holds none of the executables that were expected.
    NoExecutablesFound,
}

/// What a `MicasaError` denotes.
pub enum ErrorView {
    PackageManagerNotAvailable(Seq<char>),
    CommandExecutionFailed(Seq<char>),
    CommandFailed { status: Seq<char>, stderr: Seq<char> },
    NoPackageManagers,
    JsonParseError(Seq<char>),
    Io(Seq<char>),
    Utf8(Seq<char>),
    ManifestNotFound(Seq<char>),
    ManifestParseError(Seq<char>),
    InvalidVersionSpec(Seq<char>, Seq<char>),
    NoSatisfactoryVersion(Seq<char>, Seq<char>),
    PackageNotFound(Seq<char>),
    NoSuitableAsset(Seq<char>),
    NetworkFetchFailed(Seq<char>),
    ExtractionFailed(Seq<char>),
    NoExecutablesFound,
}

impl View for MicasaError {
    type V = ErrorView;

    open spec fn view(&self) -> ErrorView {
        match self {
            MicasaError::PackageManagerNotAvailable(name) => ErrorView::PackageManagerNotAvailable(
                name@,
            ),
            MicasaError::CommandExecutionFailed(why) => ErrorView::CommandExecutionFailed(why@),
            MicasaError::CommandFailed { status, stderr } => ErrorView::CommandFailed {
                status: status@,
                stderr: stderr@,
            },
            MicasaError::NoPackageManagers => ErrorView::NoPackageManagers,
            MicasaError::JsonParseError(why) => ErrorView::JsonParseError(why@),
            MicasaError::Io(why) => ErrorView::Io(why@),
            MicasaError::Utf8(why) => ErrorView::Utf8(why@),
            MicasaError::ManifestNotFound(path) => ErrorView::ManifestNotFound(path@),
            MicasaError::ManifestParseError(why) => ErrorView::ManifestParseError(why@),
            MicasaError::InvalidVersionSpec(text, why) => ErrorView::InvalidVersionSpec(
                text@,
                why@,
            ),
            MicasaError::NoSatisfactoryVersion(package, constraint) => {
                ErrorView::NoSatisfactoryVersion(package@, constraint@)
            },
            MicasaError::PackageNotFound(package) => ErrorView::PackageNotFound(package@),
            MicasaError::NoSuitableAsset(package) => ErrorView::NoSuitableAsset(package@),
            MicasaError::NetworkFetchFailed(why) => ErrorView::NetworkFetchFailed(why@),
            MicasaError::ExtractionFailed(why) => ErrorView::ExtractionFailed(why@),
            MicasaError::NoExecutablesFound => ErrorView::NoExecutablesFound,
        }
    }
}

/// The sentence that describes `e` to the user.
pub open spec fn message(e: ErrorView) -> Seq<char> {
    match e {
        ErrorView::PackageManagerNotAvailable(name) => "Package manager '"@ + name
            + "' is not available on this system"@,
        ErrorView::CommandExecutionFailed(why) => "Failed to execute command: "@ + why,
        ErrorView::CommandFailed { status, stderr } => "Command exited with status "@ + status
            + ": "@ + stderr,
        ErrorView::NoPackageManagers => "No package managers available on this platform"@,
        ErrorView::JsonParseError(why) => "Failed to parse JSON response: "@ + why,
        ErrorView::Io(why) => "IO error: "@ + why,
        ErrorView::Utf8(why) => "UTF-8 conversion error: "@ + why,
        ErrorView::ManifestNotFound(path) => "Manifest file not found at "@ + path,
        ErrorView::ManifestParseError(why) => "Failed to parse manifest: "@ + why,
        ErrorView::InvalidVersionSpec(text, why) => "Invalid version specification '"@ + text
            + "': "@ + why,
        ErrorView::NoSatisfactoryVersion(package, constraint) =>
            "No package manager provides satisfactory version for '"@ + package
            + "'. Required: "@ + constraint,
        ErrorView::PackageNotFound(package) => "Package '"@ + package
            + "' not found in any available package manager"@,
        ErrorView::NoSuitableAsset(package) => "No suitable release asset found for "@ + package
            + " on this platform"@,
        ErrorView::NetworkFetchFailed(why) => "Network fetch failed: "@ + why,
        ErrorView::ExtractionFailed(why) => "Archive extraction failed: "@ + why,
        ErrorView::NoExecutablesFound => "No executables found in extracted package"@,
    }
}

impl MicasaError {
    /// The sentence that describes this failure to the user.
    pub fn message(&self) -> (out: String)
        ensures
            out@ == message(self@),
    {
        match self {
            MicasaError::PackageManagerNotAvailable(name) => {
                let mut out = String::from_str("Package manager '");
                out.append(name.as_str());
                out.append("' is not available on this system");
                out
            },
            MicasaError::CommandExecutionFailed(why) => {
                let mut out = String::from_str("Failed to execute command: ");
                out.append(why.as_str());
                out
            },
            MicasaError::CommandFailed { status, stderr } => {
                let mut out = String::from_str("Command exited with status ");
                out.append(status.as_str());
                out.append(": ");
                out.append(stderr.as_str());
                out
            },
            MicasaError::NoPackageManagers => String::from_str(
                "No package managers available on this platform",
            ),
            MicasaError::JsonParseError(why) => {
                let mut out = String::from_str("Failed to parse JSON response: ");
                out.append(why.as_str());
                out
            },
            MicasaError::Io(why) => {
                let mut out = String::from_str("IO error: ");
                out.append(why.as_str());
                out
            },
            MicasaError::Utf8(why) => {
                let mut out = String::from_str("UTF-8 conversion error: ");
                out.append(why.as_str());
                out
            },
            MicasaError::ManifestNotFound(path) => {
                let mut out = String::from_str("Manifest file not found at ");
                out.append(path.as_str());
                out
            },
            MicasaError::ManifestParseError(why) => {
                let mut out = String::from_str("Failed to parse manifest: ");
                out.append(why.as_str());
                out
            },
            MicasaError::InvalidVersionSpec(text, why) => {
                let mut out = String::from_str("Invalid version specification '");
                out.append(text.as_str());
                out.append("': ");
                out.append(why.as_str());
                out
            },
            MicasaError::NoSatisfactoryVersion(package, constraint) => {
                let mut out = String::from_str(
                    "No package manager provides satisfactory version for '",
                );
                out.append(package.as_str());
                out.append("'. Required: ");
                out.append(constraint.as_str());
                out
            },
            MicasaError::PackageNotFound(package) => {
                let mut out = String::from_str("Package '");
                out.append(package.as_str());
                out.append("' not found in any available package manager");
                out
            },
            MicasaError::NoSuitableAsset(package) => {
                let mut out = String::from_str("No suitable release asset found for ");
                out.append(package.as_str());
                out.append(" on this platform");
                out
            },
            MicasaError::NetworkFetchFailed(why) => {
                let mut out = String::from_str("Network fetch failed: ");
                out.append(why.as_str());
                out
            },
            MicasaError::ExtractionFailed(why) => {
                let mut out = String::from_str("Archive extraction failed: ");
                out.append(why.as_str());
                out
            },
            MicasaError::NoExecutablesFound => String::from_str(
                "No executables found in extracted package",
            ),
        }
    }

    /// A failure equal to this one.
    pub fn duplicate(&self) -> (out: MicasaError)
        ensures
            out@ == self@,
    {
        match self {
            MicasaError::PackageManagerNotAvailable(name) => {
                MicasaError::PackageManagerNotAvailable(name.clone())
            },
            MicasaError::CommandExecutionFailed(why) => MicasaError::CommandExecutionFailed(
                why.clone(),
            ),
            MicasaError::CommandFailed { status, stderr } => MicasaError::CommandFailed {
                status: status.clone(),
                stderr: stderr.clone(),
            },
            MicasaError::NoPackageManagers => MicasaError::NoPackageManagers,
            MicasaError::JsonParseError(why) => MicasaError::JsonParseError(why.clone()),
            MicasaError::Io(why) => MicasaError::Io(why.clone()),
            MicasaError::Utf8(why) => MicasaError::Utf8(why.clone()),
            MicasaError::ManifestNotFound(path) => MicasaError::ManifestNotFound(path.clone()),
            MicasaError::ManifestParseError(why) => MicasaError::ManifestParseError(why.clone()),
            MicasaError::InvalidVersionSpec(text, why) => MicasaError::InvalidVersionSpec(
                text.clone(),
                why.clone(),
            ),
            MicasaError::NoSatisfactoryVersion(package, constraint) => {
                MicasaError::NoSatisfactoryVersion(package.clone(), constraint.clone())
            },
            MicasaError::PackageNotFound(package) => MicasaError::PackageNotFound(package.clone()),
            MicasaError::NoSuitableAsset(package) => MicasaError::NoSuitableAsset(package.clone()),
            MicasaError::NetworkFetchFailed(why) => MicasaError::NetworkFetchFailed(why.clone()),
            MicasaError::ExtractionFailed(why) => MicasaError::ExtractionFailed(why.clone()),
            MicasaError::NoExecutablesFound => MicasaError::NoExecutablesFound,
        }
    }
}

} // verus!
