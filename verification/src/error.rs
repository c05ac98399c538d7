//! The ways in which one operation on a target can fail.

use vstd::prelude::*;

verus! {

/// Why an operation on a target failed. Each variant names the step that
/// failed; the host keeps the cause that the operating system gave it.
#[derive(Clone, Copy, Debug, PartialEq, Eq, Structural)]
pub enum MakeError {
    /// The target names both a mirror and a repository.
    BothSources,
    /// The target names neither a mirror nor a repository.
    NoSource,
    /// The mirror template is not well formed.
    MalformedMirror,
    /// The probed executable ran, but what it printed is not UTF-8 text.
    InvalidOutput,
    /// The archive could not be fetched or stored.
    FetchFailed,
    /// The stored archive could not be opened, decompressed or unpacked.
    UnpackFailed,
    /// The name of the archive has fewer than two dots, so no directory name
    /// can be taken from it.
    NoDirectoryName,
    /// The unpacked directory could not be renamed.
    RenameFailed,
    /// The working directory could not be determined.
    NoWorkingDirectory,
    /// The archive directory could not be entered.
    EnterFailed,
    /// The configure step reported failure.
    ConfigureFailed,
    /// The working directory could not be restored.
    RestoreFailed,
}

impl MakeError {
    /// The text that `message` returns.
    pub open spec fn message_spec(self) -> Seq<char> {
        match self {
            MakeError::BothSources => "Found both repo and mirror, use only one."@,
            MakeError::NoSource => "Missing repo and mirror, use at least one"@,
            MakeError::MalformedMirror => "Malformed mirror template"@,
            MakeError::InvalidOutput => "Version output is not valid UTF-8"@,
            MakeError::FetchFailed => "Failed to download archive"@,
            MakeError::UnpackFailed => "Failed to unpack archive"@,
            MakeError::NoDirectoryName => "Failed to derive directory name from archive name"@,
            MakeError::RenameFailed => "Failed to rename directory"@,
            MakeError::NoWorkingDirectory => "Failed to determine working directory"@,
            MakeError::EnterFailed => "Failed to enter archive directory"@,
            MakeError::ConfigureFailed => "Failed to configure"@,
            MakeError::RestoreFailed => "Failed to restore working directory"@,
        }
    }

    /// A short description of the failure, for the user.
    pub fn message(&self) -> (text: &'static str)
        ensures
            text@ == self.message_spec(),
    {
        match self {
            MakeError::BothSources => "Found both repo and mirror, use only one.",
            MakeError::NoSource => "Missing repo and mirror, use at least one",
            MakeError::MalformedMirror => "Malformed mirror template",
            MakeError::InvalidOutput => "Version output is not valid UTF-8",
            MakeError::FetchFailed => "Failed to download archive",
            MakeError::UnpackFailed => "Failed to unpack archive",
            MakeError::NoDirectoryName => "Failed to derive directory name from archive name",
            MakeError::RenameFailed => "Failed to rename directory",
            MakeError::NoWorkingDirectory => "Failed to determine working directory",
            MakeError::EnterFailed => "Failed to enter archive directory",
            MakeError::ConfigureFailed => "Failed to configure",
            MakeError::RestoreFailed => "Failed to restore working directory",
        }
    }
}

/// The two configuration errors can be told apart, by their variants as by
/// their messages.
pub proof fn law_source_errors_differ()
    ensures
        MakeError::BothSources != MakeError::NoSource,
        MakeError::BothSources.message_spec() != MakeError::NoSource.message_spec(),
{
    reveal_strlit("Found both repo and mirror, use only one.");
    reveal_strlit("Missing repo and mirror, use at least one");
    assert(MakeError::BothSources.message_spec()[0] == 'F');
    assert(MakeError::NoSource.message_spec()[0] == 'M');
}

} // verus!
