//! What can go wrong while a driver is looked up or built.

use vstd::prelude::*;
use vstd::string::*;

verus! {

/// The reason for which a request for a driver failed.
#[derive(Clone, Copy, Debug, PartialEq, Eq, Structural)]
pub enum Failure {
    /// The override of the cache root does not name an existing directory.
    OverrideNotDirectory,
    /// No home directory is known, so there is no default cache root.
    HomeNotFound,
    /// A directory could not be created.
    CreateDirectory,
    /// A file could not be written.
    WriteFile,
    /// The temporary build workspace could not be created.
    CreateWorkspace,
    /// The built driver could not be copied into the cache.
    CopyArtifact,
    /// The build tool did not report where its output goes.
    Metadata,
    /// The build tool ended with a non-zero status.
    BuildFailed,
    /// The cached driver could not be run to ask for its version.
    VersionQuery,
    /// The cached driver's output is not UTF-8.
    OutputNotUtf8,
    /// The cached driver's output holds no space before its last token.
    VersionMissing,
    /// The running tool's own version is not a semantic version.
    OwnVersion,
    /// The requested toolchain is not installed.
    ToolchainNotInstalled,
    /// An outcome was reported that the pending operation cannot have.
    UnexpectedEvent,
}

/// The broad classes into which failures fall.
#[derive(Clone, Copy, Debug, PartialEq, Eq, Structural)]
pub enum FailureKind {
    Configuration,
    Io,
    Subprocess,
    VersionParse,
    ToolchainResolution,
    Protocol,
}

impl Failure {
    /// The class of this failure.
    pub open spec fn spec_kind(self) -> FailureKind {
        match self {
            Failure::OverrideNotDirectory | Failure::HomeNotFound => FailureKind::Configuration,
            Failure::CreateDirectory
            | Failure::WriteFile
            | Failure::CreateWorkspace
            | Failure::CopyArtifact => FailureKind::Io,
            Failure::Metadata
            | Failure::BuildFailed
            | Failure::VersionQuery
            | Failure::OutputNotUtf8
            | Failure::VersionMissing => FailureKind::Subprocess,
            Failure::OwnVersion => FailureKind::VersionParse,
            Failure::ToolchainNotInstalled => FailureKind::ToolchainResolution,
            Failure::UnexpectedEvent => FailureKind::Protocol,
        }
    }

    /// The class of this failure.
    pub fn kind(&self) -> (k: FailureKind)
        ensures
            k == self.spec_kind(),
    {
        match self {
            Failure::OverrideNotDirectory | Failure::HomeNotFound => FailureKind::Configuration,
            Failure::CreateDirectory
            | Failure::WriteFile
            | Failure::CreateWorkspace
            | Failure::CopyArtifact => FailureKind::Io,
            Failure::Metadata
            | Failure::BuildFailed
            | Failure::VersionQuery
            | Failure::OutputNotUtf8
            | Failure::VersionMissing => FailureKind::Subprocess,
            Failure::OwnVersion => FailureKind::VersionParse,
            Failure::ToolchainNotInstalled => FailureKind::ToolchainResolution,
            Failure::UnexpectedEvent => FailureKind::Protocol,
        }
    }
}

/// Text of the message for an operation `operation` that failed on `path`.
pub open spec fn operation_message_text(operation: Seq<char>, path: Seq<char>) -> Seq<char> {
    "`"@ + operation + "` failed for `"@ + path + "`"@
}

/// Text of the message for a copy from `source` to `destination` that failed.
pub open spec fn copy_message_text(source: Seq<char>, destination: Seq<char>) -> Seq<char> {
    "Could not copy `"@ + source + "` to `"@ + destination + "`"@
}

/// The message for a failed file system operation, which names the
/// operation and the offending path.
pub fn operation_message(operation: &str, path: &str) -> (text: String)
    ensures
        text@ == operation_message_text(operation@, path@),
{
    let mut text = String::from_str("`");
    text.append(operation);
    text.append("` failed for `");
    text.append(path);
    text.append("`");
    text
}

/// The message for a driver that could not be copied into its cache slot,
/// which names both paths.
pub fn copy_message(source: &str, destination: &str) -> (text: String)
    ensures
        text@ == copy_message_text(source@, destination@),
{
    let mut text = String::from_str("Could not copy `");
    text.append(source);
    text.append("` to `");
    text.append(destination);
    text.append("`");
    text
}

/// Text that describes `failure` for a request about `toolchain`. A missing
/// toolchain is named.
pub open spec fn failure_text(failure: Failure, toolchain: Seq<char>) -> Seq<char> {
    match failure {
        Failure::OverrideNotDirectory => "`DYLINT_DRIVER_PATH` does not name a directory"@,
        Failure::HomeNotFound => "Could not find HOME directory"@,
        Failure::CreateDirectory => "Could not create directory"@,
        Failure::WriteFile => "Could not write file"@,
        Failure::CreateWorkspace => "`tempdir` failed"@,
        Failure::CopyArtifact => "Could not copy driver"@,
        Failure::Metadata => "Could not read build metadata"@,
        Failure::BuildFailed => "Could not build driver for toolchain `"@ + toolchain + "`"@,
        Failure::VersionQuery => "Could not run driver to determine its version"@,
        Failure::OutputNotUtf8 => "Driver version is not valid UTF-8"@,
        Failure::VersionMissing => "Could not determine driver version"@,
        Failure::OwnVersion => "Could not parse own version"@,
        Failure::ToolchainNotInstalled => "Toolchain `"@ + toolchain + "` is not installed"@,
        Failure::UnexpectedEvent => "Unexpected outcome of an operation"@,
    }
}

/// Describes `failure` for a request about `toolchain`.
pub fn failure_message(failure: Failure, toolchain: &str) -> (text: String)
    ensures
        text@ == failure_text(failure, toolchain@),
{
    match failure {
        Failure::OverrideNotDirectory => String::from_str(
            "`DYLINT_DRIVER_PATH` does not name a directory",
        ),
        Failure::HomeNotFound => String::from_str("Could not find HOME directory"),
        Failure::CreateDirectory => String::from_str("Could not create directory"),
        Failure::WriteFile => String::from_str("Could not write file"),
        Failure::CreateWorkspace => String::from_str("`tempdir` failed"),
        Failure::CopyArtifact => String::from_str("Could not copy driver"),
        Failure::Metadata => String::from_str("Could not read build metadata"),
        Failure::BuildFailed => {
            let mut text = String::from_str("Could not build driver for toolchain `");
            text.append(toolchain);
            text.append("`");
            text
        },
        Failure::VersionQuery => String::from_str("Could not run driver to determine its version"),
        Failure::OutputNotUtf8 => String::from_str("Driver version is not valid UTF-8"),
        Failure::VersionMissing => String::from_str("Could not determine driver version"),
        Failure::OwnVersion => String::from_str("Could not parse own version"),
        Failure::ToolchainNotInstalled => {
            let mut text = String::from_str("Toolchain `");
            text.append(toolchain);
            text.append("` is not installed");
            text
        },
        Failure::UnexpectedEvent => String::from_str("Unexpected outcome of an operation"),
    }
}

} // verus!
