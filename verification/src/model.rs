//! A mathematical model of what a run does to the world around it.
//!
//! The engine only names actions; the caller performs them. This module says
//! what each action may do to the environment directory, to the lock
//! artifacts and to the scoped installer directory, and what a run is: the
//! engine's steps, each answered by an outcome and the world it left behind.
//! A failed action that writes may have left anything in what it writes to.

use vstd::prelude::*;
use crate::environment::{Descriptor, Environment};
use crate::options::{CommandOutput, LockMode, SyncMode};
use crate::orchestrator::{
    opening, transition, Notice, Outcome, SyncAction, SyncState, SyncStep,
};

verus! {

/// What a run is asked for.
pub struct Setting {
    /// Which phases run.
    pub mode: SyncMode,
    /// How verbose the run is.
    pub output: CommandOutput,
    /// Whether an unmanaged environment may be destroyed.
    pub force: bool,
    /// The wanted interpreter.
    pub target: Seq<char>,
}

/// Everything outside the engine that a run reads or changes.
pub struct World {
    /// The environment directory.
    pub environment: Environment,
    /// What the lock driver derives from the manifests as they are, for each
    /// lock mode. The engine does nothing that changes the manifests.
    pub locked: spec_fn(LockMode) -> Seq<u8>,
    /// The lock artifacts on disk.
    pub artifacts: Map<LockMode, Seq<u8>>,
    /// Every call of the lock driver so far, in order.
    pub lock_calls: Seq<LockMode>,
    /// How often the installer was started.
    pub installs: nat,
    /// How often the environment directory was removed.
    pub removals: nat,
    /// How often the environment creator was started.
    pub creations: nat,
    /// Whether a scoped installer directory exists.
    pub linked: bool,
}

/// An answer to one action: how it ended, and the world after it.
pub struct Response {
    /// How the action ended.
    pub outcome: Outcome,
    /// The world the action left behind.
    pub world: World,
}

/// Whether performing `action` in `before` can end with `outcome` in `after`.
pub open spec fn allowed(
    target: Seq<char>,
    before: World,
    action: SyncAction,
    outcome: Outcome,
    after: World,
) -> bool {
    &&& after.locked == before.locked
    &&& after.lock_calls == if let SyncAction::UpdateLock(mode) = action {
        before.lock_calls.push(mode)
    } else {
        before.lock_calls
    }
    &&& after.installs == before.installs + if action == SyncAction::Install {
        1nat
    } else {
        0nat
    }
    &&& after.removals == before.removals + if action == SyncAction::RemoveEnvironment {
        1nat
    } else {
        0nat
    }
    &&& after.creations == before.creations + if action == SyncAction::CreateEnvironment {
        1nat
    } else {
        0nat
    }
    &&& match action {
        SyncAction::RemoveEnvironment => outcome == Outcome::Completed ==> after.environment
            == Environment::Absent,
        SyncAction::CreateEnvironment => outcome == Outcome::Completed ==> after.environment
            == Environment::Present(Descriptor::Missing),
        SyncAction::WriteDescriptor => outcome == Outcome::Completed ==> after.environment
            == Environment::Present(Descriptor::Recorded(target)),
        _ => after.environment == before.environment,
    }
    &&& match action {
        SyncAction::UpdateLock(mode) => outcome == Outcome::Completed ==> after.artifacts
            == before.artifacts.insert(mode, (before.locked)(mode)),
        _ => after.artifacts == before.artifacts,
    }
    &&& match action {
        SyncAction::LinkInstaller => after.linked == (outcome == Outcome::Completed),
        SyncAction::ReleaseInstaller => !after.linked,
        _ => after.linked == before.linked,
    }
}

/// The first step of a run that looks at `world` and sees it as it is.
pub open spec fn start(setting: Setting, world: World) -> SyncStep {
    opening(world.environment, setting.target, setting.force, setting.mode, setting.output)
}

/// Whether `responses` can be the answers to a run that stands in `state`
/// with the world as `world`: each answers the action that the run then
/// waits for, and no answer comes after the run has finished.
pub open spec fn follows(
    setting: Setting,
    state: SyncState,
    world: World,
    responses: Seq<Response>,
) -> bool
    decreases responses.len(),
{
    if responses.len() == 0 {
        true
    } else {
        let first = responses[0];
        &&& !(state is Finished)
        &&& allowed(setting.target, world, state.pending(), first.outcome, first.world)
        &&& follows(
            setting,
            transition(setting.mode, setting.output, state, first.outcome).state,
            first.world,
            responses.drop_first(),
        )
    }
}

/// The state of a run that stood in `state` and got `responses`.
pub open spec fn reached(setting: Setting, state: SyncState, responses: Seq<Response>) -> SyncState
    decreases responses.len(),
{
    if responses.len() == 0 {
        state
    } else {
        reached(
            setting,
            transition(setting.mode, setting.output, state, responses[0].outcome).state,
            responses.drop_first(),
        )
    }
}

/// The world after `responses`, where it was `world` before.
pub open spec fn left(world: World, responses: Seq<Response>) -> World
    decreases responses.len(),
{
    if responses.len() == 0 {
        world
    } else {
        left(responses[0].world, responses.drop_first())
    }
}

/// The notices of one step, as a sequence of none or one.
pub open spec fn spoken(notice: Option<Notice>) -> Seq<Notice> {
    match notice {
        Some(notice) => seq![notice],
        None => Seq::empty(),
    }
}

/// Everything the user has been told once a run that stood in `state`,
/// having said `said`, has got `responses`.
pub open spec fn told(
    setting: Setting,
    said: Seq<Notice>,
    state: SyncState,
    responses: Seq<Response>,
) -> Seq<Notice>
    decreases responses.len(),
{
    if responses.len() == 0 {
        said
    } else {
        let step = transition(setting.mode, setting.output, state, responses[0].outcome);
        told(setting, said + spoken(step.notice), step.state, responses.drop_first())
    }
}

} // verus!
