//! What is found where the environment should be, and what is done about it.

use vstd::prelude::*;
use crate::error::{FileOperation, SyncError};
use crate::options::SyncMode;
use crate::version::InterpreterVersion;

verus! {

/// The descriptor of an environment directory, as a mathematical value.
pub enum Descriptor {
    /// The directory holds no descriptor.
    Missing,
    /// A descriptor is there but could not be read from disk.
    Unreadable,
    /// A descriptor was read and makes no sense.
    Malformed,
    /// The descriptor records this interpreter version.
    Recorded(Seq<char>),
}

/// The environment directory, as a mathematical value.
pub enum Environment {
    /// There is no directory.
    Absent,
    /// There is a directory, with this descriptor.
    Present(Descriptor),
}

/// What the caller found when it looked for the descriptor of an existing
/// environment directory.
#[derive(Debug, PartialEq, Eq)]
pub enum DescriptorProbe {
    /// The directory holds no descriptor.
    Missing,
    /// A descriptor is there but could not be read from disk.
    Unreadable,
    /// A descriptor was read and makes no sense.
    Malformed,
    /// The descriptor records this interpreter version.
    Recorded(InterpreterVersion),
}

impl View for DescriptorProbe {
    type V = Descriptor;

    open spec fn view(&self) -> Descriptor {
        match self {
            DescriptorProbe::Missing => Descriptor::Missing,
            DescriptorProbe::Unreadable => Descriptor::Unreadable,
            DescriptorProbe::Malformed => Descriptor::Malformed,
            DescriptorProbe::Recorded(version) => Descriptor::Recorded(version@),
        }
    }
}

impl Clone for DescriptorProbe {
    fn clone(&self) -> (copy: DescriptorProbe)
        ensures
            copy@ == self@,
    {
        match self {
            DescriptorProbe::Missing => DescriptorProbe::Missing,
            DescriptorProbe::Unreadable => DescriptorProbe::Unreadable,
            DescriptorProbe::Malformed => DescriptorProbe::Malformed,
            DescriptorProbe::Recorded(version) => DescriptorProbe::Recorded(version.clone()),
        }
    }
}

/// What the caller found when it looked at the environment directory.
#[derive(Debug, PartialEq, Eq)]
pub enum EnvironmentProbe {
    /// There is no directory.
    Absent,
    /// There is a directory, with this descriptor.
    Present(DescriptorProbe),
}

impl View for EnvironmentProbe {
    type V = Environment;

    open spec fn view(&self) -> Environment {
        match self {
            EnvironmentProbe::Absent => Environment::Absent,
            EnvironmentProbe::Present(descriptor) => Environment::Present(descriptor@),
        }
    }
}

impl Clone for EnvironmentProbe {
    fn clone(&self) -> (copy: EnvironmentProbe)
        ensures
            copy@ == self@,
    {
        match self {
            EnvironmentProbe::Absent => EnvironmentProbe::Absent,
            EnvironmentProbe::Present(descriptor) => EnvironmentProbe::Present(descriptor.clone()),
        }
    }
}

/// The state of the environment at the start of a synchronization. It is
/// derived anew each time and never stored.
#[derive(Debug, Clone, Copy, PartialEq, Eq, Structural, Hash)]
pub enum EnvironmentState {
    /// There is no environment directory.
    Absent,
    /// The descriptor records the target interpreter.
    ManagedValid,
    /// The descriptor records another interpreter than the target.
    ManagedDrifted,
    /// The directory has no descriptor: someone else made it.
    Unmanaged,
}

/// What happens to the environment directory.
#[derive(Debug, Clone, Copy, PartialEq, Eq, Structural, Hash)]
pub enum Resolution {
    /// A fresh environment is built where there was none.
    Create,
    /// The environment stays as it is.
    Reuse,
    /// The directory is removed entirely, then built afresh.
    Recreate,
}

/// The state that `environment` is in when `target` is the wanted
/// interpreter. A descriptor that cannot be read or understood is a failure
/// of its own: such a directory passes neither for drifted nor for unmanaged.
pub open spec fn classification(environment: Environment, target: Seq<char>) -> Result<
    EnvironmentState,
    SyncError,
> {
    match environment {
        Environment::Absent => Ok(EnvironmentState::Absent),
        Environment::Present(Descriptor::Missing) => Ok(EnvironmentState::Unmanaged),
        Environment::Present(Descriptor::Unreadable) => Err(
            SyncError::IoError(FileOperation::ReadDescriptor),
        ),
        Environment::Present(Descriptor::Malformed) => Err(SyncError::ConfigurationError),
        Environment::Present(Descriptor::Recorded(version)) => if version == target {
            Ok(EnvironmentState::ManagedValid)
        } else {
            Ok(EnvironmentState::ManagedDrifted)
        },
    }
}

/// What is done with an environment in `state`. `full` says that the mode
/// asks for a rebuild in any case.
pub open spec fn decision(state: EnvironmentState, force: bool, full: bool) -> Result<
    Resolution,
    SyncError,
> {
    match state {
        EnvironmentState::Absent => Ok(Resolution::Create),
        EnvironmentState::ManagedValid => if full {
            Ok(Resolution::Recreate)
        } else {
            Ok(Resolution::Reuse)
        },
        EnvironmentState::ManagedDrifted => Ok(Resolution::Recreate),
        EnvironmentState::Unmanaged => if force {
            Ok(Resolution::Recreate)
        } else {
            Err(SyncError::PolicyViolation)
        },
    }
}

/// Classification followed by decision.
pub open spec fn resolution(
    environment: Environment,
    target: Seq<char>,
    force: bool,
    mode: SyncMode,
) -> Result<Resolution, SyncError> {
    match classification(environment, target) {
        Ok(state) => decision(state, force, mode == SyncMode::Full),
        Err(error) => Err(error),
    }
}

/// Classifies what was found on disk against the wanted interpreter.
pub fn classify(probe: &EnvironmentProbe, target: &InterpreterVersion) -> (state: Result<
    EnvironmentState,
    SyncError,
>)
    ensures
        state == classification(probe@, target@),
{
    match probe {
        EnvironmentProbe::Absent => Ok(EnvironmentState::Absent),
        EnvironmentProbe::Present(DescriptorProbe::Missing) => Ok(EnvironmentState::Unmanaged),
        EnvironmentProbe::Present(DescriptorProbe::Unreadable) => Err(
            SyncError::IoError(FileOperation::ReadDescriptor),
        ),
        EnvironmentProbe::Present(DescriptorProbe::Malformed) => Err(
            SyncError::ConfigurationError,
        ),
        EnvironmentProbe::Present(DescriptorProbe::Recorded(version)) => {
            if *version == *target {
                Ok(EnvironmentState::ManagedValid)
            } else {
                Ok(EnvironmentState::ManagedDrifted)
            }
        },
    }
}

/// Decides what happens to an environment in `state`: an unmanaged one is
/// only ever touched under `force`, and mode `Full` rebuilds even a valid one.
pub fn decide(state: EnvironmentState, force: bool, mode: SyncMode) -> (outcome: Result<
    Resolution,
    SyncError,
>)
    ensures
        outcome == decision(state, force, mode == SyncMode::Full),
{
    match state {
        EnvironmentState::Absent => Ok(Resolution::Create),
        EnvironmentState::ManagedValid => match mode {
            SyncMode::Full => Ok(Resolution::Recreate),
            _ => Ok(Resolution::Reuse),
        },
        EnvironmentState::ManagedDrifted => Ok(Resolution::Recreate),
        EnvironmentState::Unmanaged => if force {
            Ok(Resolution::Recreate)
        } else {
            Err(SyncError::PolicyViolation)
        },
    }
}

} // verus!
