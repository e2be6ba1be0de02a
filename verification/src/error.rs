//! Why a synchronization stopped.

use vstd::prelude::*;

verus! {

/// An outside tool that a synchronization starts.
#[derive(Debug, Clone, Copy, PartialEq, Eq, Structural, Hash)]
pub enum Tool {
    /// Makes the interpreter toolchain available.
    Toolchain,
    /// Builds a fresh environment directory.
    Creator,
    /// Writes the production lock artifact.
    LockProduction,
    /// Writes the development lock artifact.
    LockDev,
    /// Installs the locked dependencies.
    Installer,
}

/// A file system operation that a synchronization performs.
#[derive(Debug, Clone, Copy, PartialEq, Eq, Structural, Hash)]
pub enum FileOperation {
    /// Reading the descriptor of an existing environment.
    ReadDescriptor,
    /// Removing the environment directory with everything in it.
    RemoveEnvironment,
    /// Writing the descriptor of a fresh environment.
    WriteDescriptor,
    /// Setting up the directory that holds the link to the installer module.
    LinkInstaller,
}

/// The reason a synchronization failed. Every failure ends the
/// synchronization at once; nothing is retried.
#[derive(Debug, Clone, Copy, PartialEq, Eq, Structural, Hash)]
pub enum SyncError {
    /// The descriptor of the environment exists but cannot be understood.
    ConfigurationError,
    /// The environment was not made by this engine and `force` is not set.
    PolicyViolation,
    /// The named tool did not finish successfully.
    ExternalToolFailure(Tool),
    /// The named file system operation failed.
    IoError(FileOperation),
}

impl SyncError {
    /// The text shown for each failure.
    pub open spec fn message_text(self) -> Seq<char> {
        match self {
            SyncError::ConfigurationError => "malformed venv marker file"@,
            SyncError::PolicyViolation => "environment not managed"@,
            SyncError::ExternalToolFailure(Tool::Toolchain) => "failed fetching toolchain ahead of sync"@,
            SyncError::ExternalToolFailure(Tool::Creator) => "failed to initialize environment"@,
            SyncError::ExternalToolFailure(Tool::LockProduction) => "could not write production lockfile"@,
            SyncError::ExternalToolFailure(Tool::LockDev) => "could not write dev lockfile"@,
            SyncError::ExternalToolFailure(Tool::Installer) => "installation of dependencies failed"@,
            SyncError::IoError(FileOperation::ReadDescriptor) => "could not read venv marker file"@,
            SyncError::IoError(FileOperation::RemoveEnvironment) => "could not remove environment"@,
            SyncError::IoError(FileOperation::WriteDescriptor) => "failed writing venv marker file"@,
            SyncError::IoError(FileOperation::LinkInstaller) => "failed linking installer module"@,
        }
    }

    /// The phase in which each failure arises, where the failure alone does
    /// not say it.
    pub open spec fn context_text(self) -> Option<Seq<char>> {
        match self {
            SyncError::ExternalToolFailure(Tool::Creator) => Some(
                "failed creating environment ahead of sync"@,
            ),
            _ => None,
        }
    }

    /// What to show the user for this failure.
    pub fn message(&self) -> (text: String)
        ensures
            text@ == self.message_text(),
    {
        match self {
            SyncError::ConfigurationError => "malformed venv marker file".to_owned(),
            SyncError::PolicyViolation => "environment not managed".to_owned(),
            SyncError::ExternalToolFailure(Tool::Toolchain) => "failed fetching toolchain ahead of sync".to_owned(),
            SyncError::ExternalToolFailure(Tool::Creator) => "failed to initialize environment".to_owned(),
            SyncError::ExternalToolFailure(Tool::LockProduction) => "could not write production lockfile".to_owned(),
            SyncError::ExternalToolFailure(Tool::LockDev) => "could not write dev lockfile".to_owned(),
            SyncError::ExternalToolFailure(Tool::Installer) => "installation of dependencies failed".to_owned(),
            SyncError::IoError(FileOperation::ReadDescriptor) => "could not read venv marker file".to_owned(),
            SyncError::IoError(FileOperation::RemoveEnvironment) => "could not remove environment".to_owned(),
            SyncError::IoError(FileOperation::WriteDescriptor) => "failed writing venv marker file".to_owned(),
            SyncError::IoError(FileOperation::LinkInstaller) => "failed linking installer module".to_owned(),
        }
    }

    /// The phase to name beside the message, if the message does not name it.
    pub fn context(&self) -> (text: Option<String>)
        ensures
            text is Some == self.context_text() is Some,
            text matches Some(t) ==> Some(t@) == self.context_text(),
    {
        match self {
            SyncError::ExternalToolFailure(Tool::Creator) => Some(
                "failed creating environment ahead of sync".to_owned(),
            ),
            _ => None,
        }
    }
}

} // verus!
