//! The synchronization itself, as a machine that the caller drives.
//!
//! The caller looks at the environment directory and calls [`begin`]. Each
//! step names one action. The caller performs it, reports how it ended to
//! [`advance`], and goes on until the action is [`SyncAction::Finish`].
//! Environment resolution comes first, then lock regeneration, then
//! installation; the first failure ends the run.

use vstd::prelude::*;
use crate::environment::{
    classification, classify, decide, decision, Environment, EnvironmentProbe, EnvironmentState,
    Resolution,
};
use crate::error::{FileOperation, SyncError, Tool};
use crate::options::{CommandOutput, LockMode, SyncMode, SyncOptions};
use crate::version::InterpreterVersion;

verus! {

/// How the action of the last step ended.
#[derive(Debug, Clone, Copy, PartialEq, Eq, Structural, Hash)]
pub enum Outcome {
    /// The action did what it is for.
    Completed,
    /// The action failed: a tool reported failure or could not be started,
    /// or the file system refused.
    Failed,
}

/// Something to tell the user while the run goes on. Quiet runs have none.
#[derive(Debug, Clone, Copy, PartialEq, Eq, Structural, Hash)]
pub enum Notice {
    /// The descriptor records another interpreter: the environment is rebuilt.
    VersionMismatch,
    /// An environment that someone else made is rebuilt under `force`.
    ForcedRecreation,
    /// The existing environment is kept.
    Reusing,
    /// A fresh environment is about to be built.
    Initializing,
    /// Dependencies are about to be installed.
    Installing,
    /// Everything that was asked for is done.
    Done,
}

/// What the caller is asked to do next.
#[derive(Debug, Clone, Copy, PartialEq, Eq)]
pub enum SyncAction {
    /// Make the toolchain of the target interpreter available.
    EnsureToolchain,
    /// Remove the environment directory with everything in it. That the
    /// directory is already gone counts as completed.
    RemoveEnvironment,
    /// Build a fresh environment with the target interpreter.
    CreateEnvironment,
    /// Write the descriptor that records the target interpreter.
    WriteDescriptor,
    /// Have the lock driver write the lock artifact of this mode.
    UpdateLock(LockMode),
    /// Set up the scoped directory that holds nothing but a link to the
    /// installer module.
    LinkInstaller,
    /// Run the installer against the chosen lock artifact.
    Install,
    /// Release the scoped directory and its link.
    ReleaseInstaller,
    /// Nothing is left to do; the run ended like this.
    Finish(Result<(), SyncError>),
}

/// Where a run stands: which action it waits for, and what it has to
/// remember meanwhile.
#[derive(Debug, Clone, Copy, PartialEq, Eq)]
pub enum SyncState {
    /// Waiting for the toolchain, with what was decided for the environment.
    Toolchain(Resolution),
    /// Waiting for the removal of the old environment.
    Removing,
    /// Waiting for the fresh environment.
    Creating,
    /// Waiting for the descriptor to be written.
    Recording,
    /// Waiting for the lock artifact of this mode.
    Locking(LockMode),
    /// Waiting for the scoped installer directory.
    Linking,
    /// Waiting for the installer.
    Installing,
    /// Waiting for the scoped directory to be released, with the result of
    /// the installation.
    Releasing(Result<(), SyncError>),
    /// The run is over.
    Finished(Result<(), SyncError>),
}

impl SyncState {
    /// The action that a run in this state waits for.
    pub open spec fn pending(self) -> SyncAction {
        match self {
            SyncState::Toolchain(_) => SyncAction::EnsureToolchain,
            SyncState::Removing => SyncAction::RemoveEnvironment,
            SyncState::Creating => SyncAction::CreateEnvironment,
            SyncState::Recording => SyncAction::WriteDescriptor,
            SyncState::Locking(mode) => SyncAction::UpdateLock(mode),
            SyncState::Linking => SyncAction::LinkInstaller,
            SyncState::Installing => SyncAction::Install,
            SyncState::Releasing(_) => SyncAction::ReleaseInstaller,
            SyncState::Finished(result) => SyncAction::Finish(result),
        }
    }
}

/// One step of a run: the new state, what to tell the user, what to do next.
#[derive(Debug, Clone, Copy, PartialEq, Eq)]
pub struct SyncStep {
    /// Where the run stands now.
    pub state: SyncState,
    /// What to tell the user before the action, if anything.
    pub notice: Option<Notice>,
    /// What the caller is asked to do.
    pub action: SyncAction,
}

/// `notice`, unless the run is quiet.
pub open spec fn narrated(output: CommandOutput, notice: Notice) -> Option<Notice> {
    if output == CommandOutput::Quiet {
        None
    } else {
        Some(notice)
    }
}

/// The step that waits in `state` and says `notice`.
pub open spec fn waiting(state: SyncState, notice: Option<Notice>) -> SyncStep {
    SyncStep { state, notice, action: state.pending() }
}

/// The step that ends a run with `error`.
pub open spec fn halted(error: SyncError) -> SyncStep {
    waiting(SyncState::Finished(Err(error)), None)
}

/// The step once the environment stands. It is where the mode takes over:
/// `PythonOnly` ends here without a word, every other mode goes on to the
/// production lock artifact. `reused` says that the environment was kept.
pub open spec fn settled(mode: SyncMode, output: CommandOutput, reused: bool) -> SyncStep {
    if mode == SyncMode::PythonOnly {
        waiting(SyncState::Finished(Ok(())), None)
    } else {
        waiting(
            SyncState::Locking(LockMode::Production),
            if reused && mode.installs() {
                narrated(output, Notice::Reusing)
            } else {
                None
            },
        )
    }
}

/// The step that ends a run with `result`. Success is announced.
pub open spec fn concluded(output: CommandOutput, result: Result<(), SyncError>) -> SyncStep {
    waiting(
        SyncState::Finished(result),
        if result is Ok {
            narrated(output, Notice::Done)
        } else {
            None
        },
    )
}

/// The first step of a run that found `environment` and wants `target`.
pub open spec fn opening(
    environment: Environment,
    target: Seq<char>,
    force: bool,
    mode: SyncMode,
    output: CommandOutput,
) -> SyncStep {
    match classification(environment, target) {
        Err(error) => halted(error),
        Ok(found) => match decision(found, force, mode == SyncMode::Full) {
            Err(error) => halted(error),
            Ok(resolution) => waiting(
                SyncState::Toolchain(resolution),
                match found {
                    EnvironmentState::ManagedDrifted => narrated(output, Notice::VersionMismatch),
                    EnvironmentState::Unmanaged => narrated(output, Notice::ForcedRecreation),
                    _ => None,
                },
            ),
        },
    }
}

/// The failure that a failed action in `state` stands for. A finished run
/// has no action that could fail, and a failed release loses nothing.
pub open spec fn failure(state: SyncState) -> Option<SyncError> {
    match state {
        SyncState::Toolchain(_) => Some(SyncError::ExternalToolFailure(Tool::Toolchain)),
        SyncState::Removing => Some(SyncError::IoError(FileOperation::RemoveEnvironment)),
        SyncState::Creating => Some(SyncError::ExternalToolFailure(Tool::Creator)),
        SyncState::Recording => Some(SyncError::IoError(FileOperation::WriteDescriptor)),
        SyncState::Locking(LockMode::Production) => Some(
            SyncError::ExternalToolFailure(Tool::LockProduction),
        ),
        SyncState::Locking(LockMode::Dev) => Some(SyncError::ExternalToolFailure(Tool::LockDev)),
        SyncState::Linking => Some(SyncError::IoError(FileOperation::LinkInstaller)),
        SyncState::Installing => Some(SyncError::ExternalToolFailure(Tool::Installer)),
        SyncState::Releasing(_) => None,
        SyncState::Finished(_) => None,
    }
}

/// The step that follows `state` when its action ended with `outcome`.
pub open spec fn transition(
    mode: SyncMode,
    output: CommandOutput,
    state: SyncState,
    outcome: Outcome,
) -> SyncStep {
    match state {
        SyncState::Finished(result) => waiting(SyncState::Finished(result), None),
        SyncState::Releasing(result) => concluded(output, result),
        SyncState::Installing => waiting(
            SyncState::Releasing(
                if outcome == Outcome::Completed {
                    Ok(())
                } else {
                    Err(SyncError::ExternalToolFailure(Tool::Installer))
                },
            ),
            None,
        ),
        _ => if outcome == Outcome::Failed {
            halted(failure(state).unwrap())
        } else {
            match state {
                SyncState::Toolchain(Resolution::Recreate) => waiting(SyncState::Removing, None),
                SyncState::Toolchain(Resolution::Create) | SyncState::Removing => waiting(
                    SyncState::Creating,
                    narrated(output, Notice::Initializing),
                ),
                SyncState::Toolchain(Resolution::Reuse) => settled(mode, output, true),
                SyncState::Creating => waiting(SyncState::Recording, None),
                SyncState::Recording => settled(mode, output, false),
                SyncState::Locking(LockMode::Production) => waiting(
                    SyncState::Locking(LockMode::Dev),
                    None,
                ),
                SyncState::Locking(LockMode::Dev) => if mode.installs() {
                    waiting(SyncState::Linking, narrated(output, Notice::Installing))
                } else {
                    concluded(output, Ok(()))
                },
                _ => waiting(SyncState::Installing, None),
            }
        },
    }
}

fn narrate(output: CommandOutput, notice: Notice) -> (said: Option<Notice>)
    ensures
        said == narrated(output, notice),
{
    match output {
        CommandOutput::Quiet => None,
        _ => Some(notice),
    }
}

fn wait(state: SyncState, notice: Option<Notice>) -> (step: SyncStep)
    ensures
        step == waiting(state, notice),
{
    let action = match state {
        SyncState::Toolchain(_) => SyncAction::EnsureToolchain,
        SyncState::Removing => SyncAction::RemoveEnvironment,
        SyncState::Creating => SyncAction::CreateEnvironment,
        SyncState::Recording => SyncAction::WriteDescriptor,
        SyncState::Locking(mode) => SyncAction::UpdateLock(mode),
        SyncState::Linking => SyncAction::LinkInstaller,
        SyncState::Installing => SyncAction::Install,
        SyncState::Releasing(_) => SyncAction::ReleaseInstaller,
        SyncState::Finished(result) => SyncAction::Finish(result),
    };
    SyncStep { state, notice, action }
}

fn settle(mode: SyncMode, output: CommandOutput, reused: bool) -> (step: SyncStep)
    ensures
        step == settled(mode, output, reused),
{
    match mode {
        SyncMode::PythonOnly => wait(SyncState::Finished(Ok(())), None),
        SyncMode::LockOnly => wait(SyncState::Locking(LockMode::Production), None),
        _ => {
            let notice = if reused {
                narrate(output, Notice::Reusing)
            } else {
                None
            };
            wait(SyncState::Locking(LockMode::Production), notice)
        },
    }
}

fn conclude(output: CommandOutput, result: Result<(), SyncError>) -> (step: SyncStep)
    ensures
        step == concluded(output, result),
{
    let notice = match result {
        Ok(_) => narrate(output, Notice::Done),
        Err(_) => None,
    };
    wait(SyncState::Finished(result), notice)
}

fn halt(error: SyncError) -> (step: SyncStep)
    ensures
        step == halted(error),
{
    wait(SyncState::Finished(Err(error)), None)
}

/// Starts a run: classifies what `probe` found against `target`, decides
/// what happens to the environment, and names the first action. A run that
/// may not touch the environment ends here, before any action.
pub fn begin(options: &SyncOptions, target: &InterpreterVersion, probe: &EnvironmentProbe) -> (step:
    SyncStep)
    ensures
        step == opening(probe@, target@, options.force, options.mode, options.output),
{
    let found = match classify(probe, target) {
        Ok(found) => found,
        Err(error) => {
            return halt(error);
        },
    };
    match decide(found, options.force, options.mode) {
        Err(error) => halt(error),
        Ok(resolution) => {
            let notice = match found {
                EnvironmentState::ManagedDrifted => narrate(
                    options.output,
                    Notice::VersionMismatch,
                ),
                EnvironmentState::Unmanaged => narrate(options.output, Notice::ForcedRecreation),
                _ => None,
            };
            wait(SyncState::Toolchain(resolution), notice)
        },
    }
}

/// Takes a run one step further: `outcome` is how the action that `state`
/// waited for ended. A finished run stays finished.
pub fn advance(options: &SyncOptions, state: SyncState, outcome: Outcome) -> (step: SyncStep)
    ensures
        step == transition(options.mode, options.output, state, outcome),
{
    let completed = match outcome {
        Outcome::Completed => true,
        Outcome::Failed => false,
    };
    let output = options.output;
    match state {
        SyncState::Finished(result) => wait(SyncState::Finished(result), None),
        SyncState::Releasing(result) => conclude(output, result),
        SyncState::Installing => {
            if completed {
                wait(SyncState::Releasing(Ok(())), None)
            } else {
                wait(
                    SyncState::Releasing(Err(SyncError::ExternalToolFailure(Tool::Installer))),
                    None,
                )
            }
        },
        SyncState::Toolchain(resolution) => {
            if !completed {
                halt(SyncError::ExternalToolFailure(Tool::Toolchain))
            } else {
                match resolution {
                    Resolution::Recreate => wait(SyncState::Removing, None),
                    Resolution::Create => wait(
                        SyncState::Creating,
                        narrate(output, Notice::Initializing),
                    ),
                    Resolution::Reuse => settle(options.mode, output, true),
                }
            }
        },
        SyncState::Removing => {
            if completed {
                wait(SyncState::Creating, narrate(output, Notice::Initializing))
            } else {
                halt(SyncError::IoError(FileOperation::RemoveEnvironment))
            }
        },
        SyncState::Creating => {
            if completed {
                wait(SyncState::Recording, None)
            } else {
                halt(SyncError::ExternalToolFailure(Tool::Creator))
            }
        },
        SyncState::Recording => {
            if completed {
                settle(options.mode, output, false)
            } else {
                halt(SyncError::IoError(FileOperation::WriteDescriptor))
            }
        },
        SyncState::Locking(LockMode::Production) => {
            if completed {
                wait(SyncState::Locking(LockMode::Dev), None)
            } else {
                halt(SyncError::ExternalToolFailure(Tool::LockProduction))
            }
        },
        SyncState::Locking(LockMode::Dev) => {
            if !completed {
                halt(SyncError::ExternalToolFailure(Tool::LockDev))
            } else {
                match options.mode {
                    SyncMode::Regular | SyncMode::Full => wait(
                        SyncState::Linking,
                        narrate(output, Notice::Installing),
                    ),
                    _ => conclude(output, Ok(())),
                }
            }
        },
        SyncState::Linking => {
            if completed {
                wait(SyncState::Installing, None)
            } else {
                halt(SyncError::IoError(FileOperation::LinkInstaller))
            }
        },
    }
}

} // verus!
