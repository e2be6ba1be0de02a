//! What holds of every run, proved from the engine's steps and the model of
//! the world.

use vstd::prelude::*;
use crate::environment::{
    classification, resolution, Descriptor, Environment, EnvironmentState, Resolution,
};
use crate::error::{FileOperation, SyncError, Tool};
use crate::model::{
    allowed, follows, left, reached, spoken, start, told, Response, Setting, World,
};
use crate::options::{CommandOutput, LockMode, SyncMode};
use crate::orchestrator::{
    failure, halted, narrated, transition, Notice, Outcome, SyncAction, SyncState,
};

verus! {

/// Nothing in `now` differs from `then`.
pub open spec fn untouched(then: World, now: World) -> bool {
    &&& now.environment == then.environment
    &&& now.locked == then.locked
    &&& now.artifacts == then.artifacts
    &&& now.lock_calls == then.lock_calls
    &&& now.installs == then.installs
    &&& now.removals == then.removals
    &&& now.creations == then.creations
    &&& now.linked == then.linked
}

/// Since `then`, the environment directory was removed `removals` times and
/// the creator started `creations` times.
pub open spec fn rebuilt(then: World, now: World, removals: nat, creations: nat) -> bool {
    &&& now.removals == then.removals + removals
    &&& now.creations == then.creations + creations
}

/// Since `then`, the lock driver was called for the first `locks` of
/// production and development, in that order, and for nothing else.
pub open spec fn called(then: World, now: World, locks: nat) -> bool {
    now.lock_calls == if locks == 0 {
        then.lock_calls
    } else if locks == 1 {
        then.lock_calls.push(LockMode::Production)
    } else {
        then.lock_calls.push(LockMode::Production).push(LockMode::Dev)
    }
}

/// Since `then`, the lock driver was called for the first `locks` of
/// production and development, every call completed, and each artifact it
/// wrote holds what the driver derives from the manifests.
pub open spec fn relocked(then: World, now: World, locks: nat) -> bool {
    &&& called(then, now, locks)
    &&& locks == 0 ==> now.artifacts == then.artifacts
    &&& locks >= 1 ==> now.artifacts.dom().contains(LockMode::Production)
        && now.artifacts[LockMode::Production] == (then.locked)(LockMode::Production)
    &&& locks >= 2 ==> now.artifacts.dom().contains(LockMode::Dev) && now.artifacts[LockMode::Dev]
        == (then.locked)(LockMode::Dev)
}

/// How often a run with this resolution removes the directory before the
/// environment stands.
pub open spec fn removals_of(resolution: Resolution) -> nat {
    if resolution == Resolution::Recreate {
        1
    } else {
        0
    }
}

/// How often a run with this resolution starts the creator before the
/// environment stands.
pub open spec fn creations_of(resolution: Resolution) -> nat {
    if resolution == Resolution::Reuse {
        0
    } else {
        1
    }
}

/// The environment stands: its descriptor records the target, and it was
/// rebuilt exactly as the resolution says.
pub open spec fn stands(setting: Setting, then: World, now: World, resolution: Resolution) -> bool {
    &&& now.environment == Environment::Present(Descriptor::Recorded(setting.target))
    &&& rebuilt(then, now, removals_of(resolution), creations_of(resolution))
}

/// What holds of `now` when a run that began in `then` has ended with
/// `error`, after the environment was resolved as `resolution`.
pub open spec fn stopped(
    setting: Setting,
    then: World,
    now: World,
    resolution: Resolution,
    error: SyncError,
) -> bool {
    match error {
        SyncError::ExternalToolFailure(Tool::Toolchain) => untouched(then, now),
        SyncError::IoError(FileOperation::RemoveEnvironment) => {
            &&& resolution == Resolution::Recreate
            &&& rebuilt(then, now, 1, 0)
            &&& relocked(then, now, 0)
            &&& now.installs == then.installs
            &&& now.linked == then.linked
        },
        SyncError::ExternalToolFailure(Tool::Creator) => {
            &&& resolution != Resolution::Reuse
            &&& rebuilt(then, now, removals_of(resolution), 1)
            &&& relocked(then, now, 0)
            &&& now.installs == then.installs
            &&& now.linked == then.linked
        },
        SyncError::IoError(FileOperation::WriteDescriptor) => {
            &&& resolution != Resolution::Reuse
            &&& rebuilt(then, now, removals_of(resolution), 1)
            &&& relocked(then, now, 0)
            &&& now.installs == then.installs
            &&& now.linked == then.linked
        },
        SyncError::ExternalToolFailure(Tool::LockProduction) => {
            &&& stands(setting, then, now, resolution)
            &&& setting.mode.locks()
            &&& called(then, now, 1)
            &&& now.installs == then.installs
            &&& now.linked == then.linked
        },
        SyncError::ExternalToolFailure(Tool::LockDev) => {
            &&& stands(setting, then, now, resolution)
            &&& setting.mode.locks()
            &&& called(then, now, 2)
            &&& now.installs == then.installs
            &&& now.linked == then.linked
        },
        SyncError::IoError(FileOperation::LinkInstaller) => {
            &&& stands(setting, then, now, resolution)
            &&& setting.mode.installs()
            &&& relocked(then, now, 2)
            &&& now.installs == then.installs
            &&& !now.linked
        },
        SyncError::ExternalToolFailure(Tool::Installer) => {
            &&& stands(setting, then, now, resolution)
            &&& setting.mode.installs()
            &&& relocked(then, now, 2)
            &&& now.installs == then.installs + 1
            &&& !now.linked
        },
        _ => false,
    }
}

/// What holds of `now` when a run that began in `then` has ended well.
pub open spec fn succeeded(setting: Setting, then: World, now: World, resolution: Resolution) -> bool {
    &&& stands(setting, then, now, resolution)
    &&& if setting.mode == SyncMode::PythonOnly {
        &&& relocked(then, now, 0)
        &&& now.installs == then.installs
        &&& now.linked == then.linked
    } else if setting.mode == SyncMode::LockOnly {
        &&& relocked(then, now, 2)
        &&& now.installs == then.installs
        &&& now.linked == then.linked
    } else {
        &&& relocked(then, now, 2)
        &&& now.installs == then.installs + 1
        &&& !now.linked
    }
}

/// How the state of a run and the world belong together: `now` is the world
/// of a run that began in `then` and stands in `state`.
pub open spec fn coherent(setting: Setting, then: World, state: SyncState, now: World) -> bool {
    &&& now.locked == then.locked
    &&& match resolution(then.environment, setting.target, setting.force, setting.mode) {
        Err(error) => state == SyncState::Finished(Err(error)) && untouched(then, now),
        Ok(resolution) => match state {
            SyncState::Toolchain(decided) => decided == resolution && untouched(then, now),
            SyncState::Removing => resolution == Resolution::Recreate && untouched(then, now),
            SyncState::Creating => {
                &&& resolution != Resolution::Reuse
                &&& now.environment == Environment::Absent
                &&& rebuilt(then, now, removals_of(resolution), 0)
                &&& relocked(then, now, 0)
                &&& now.installs == then.installs
                &&& now.linked == then.linked
            },
            SyncState::Recording => {
                &&& resolution != Resolution::Reuse
                &&& now.environment == Environment::Present(Descriptor::Missing)
                &&& rebuilt(then, now, removals_of(resolution), 1)
                &&& relocked(then, now, 0)
                &&& now.installs == then.installs
                &&& now.linked == then.linked
            },
            SyncState::Locking(LockMode::Production) => {
                &&& stands(setting, then, now, resolution)
                &&& setting.mode.locks()
                &&& relocked(then, now, 0)
                &&& now.installs == then.installs
                &&& now.linked == then.linked
            },
            SyncState::Locking(LockMode::Dev) => {
                &&& stands(setting, then, now, resolution)
                &&& setting.mode.locks()
                &&& relocked(then, now, 1)
                &&& now.installs == then.installs
                &&& now.linked == then.linked
            },
            SyncState::Linking => {
                &&& stands(setting, then, now, resolution)
                &&& setting.mode.installs()
                &&& relocked(then, now, 2)
                &&& now.installs == then.installs
                &&& now.linked == then.linked
            },
            SyncState::Installing => {
                &&& stands(setting, then, now, resolution)
                &&& setting.mode.installs()
                &&& relocked(then, now, 2)
                &&& now.installs == then.installs
                &&& now.linked
            },
            SyncState::Releasing(result) => {
                &&& stands(setting, then, now, resolution)
                &&& setting.mode.installs()
                &&& relocked(then, now, 2)
                &&& now.installs == then.installs + 1
                &&& result == Ok::<(), SyncError>(()) || result == Err::<(), SyncError>(
                    SyncError::ExternalToolFailure(Tool::Installer),
                )
            },
            SyncState::Finished(Ok(_)) => succeeded(setting, then, now, resolution),
            SyncState::Finished(Err(error)) => stopped(setting, then, now, resolution, error),
        },
    }
}

/// A run begins coherent.
pub proof fn begins_coherent(setting: Setting, world: World)
    ensures
        coherent(setting, world, start(setting, world).state, world),
{
}

/// One answered action keeps a run coherent.
pub proof fn step_stays_coherent(
    setting: Setting,
    then: World,
    state: SyncState,
    now: World,
    response: Response,
)
    requires
        coherent(setting, then, state, now),
        !(state is Finished),
        allowed(setting.target, now, state.pending(), response.outcome, response.world),
    ensures
        coherent(
            setting,
            then,
            transition(setting.mode, setting.output, state, response.outcome).state,
            response.world,
        ),
{
}

/// Every run stays coherent, however its actions end.
pub proof fn run_stays_coherent(
    setting: Setting,
    then: World,
    state: SyncState,
    now: World,
    responses: Seq<Response>,
)
    requires
        coherent(setting, then, state, now),
        follows(setting, state, now, responses),
    ensures
        coherent(setting, then, reached(setting, state, responses), left(now, responses)),
    decreases responses.len(),
{
    if responses.len() > 0 {
        let first = responses[0];
        step_stays_coherent(setting, then, state, now, first);
        run_stays_coherent(
            setting,
            then,
            transition(setting.mode, setting.output, state, first.outcome).state,
            first.world,
            responses.drop_first(),
        );
    }
}

/// A run that finds no environment and is to install builds one, records
/// the target interpreter in its descriptor, and starts the installer
/// exactly once, if it ends well.
pub proof fn absent_environment_is_built_and_installed_once(
    setting: Setting,
    world: World,
    responses: Seq<Response>,
)
    requires
        setting.mode.installs(),
        world.environment == Environment::Absent,
        follows(setting, start(setting, world).state, world, responses),
        reached(setting, start(setting, world).state, responses) == SyncState::Finished(Ok(())),
    ensures
        left(world, responses).environment == Environment::Present(
            Descriptor::Recorded(setting.target),
        ),
        left(world, responses).installs == world.installs + 1,
        left(world, responses).creations == world.creations + 1,
        left(world, responses).removals == world.removals,
{
    begins_coherent(setting, world);
    run_stays_coherent(setting, world, start(setting, world).state, world, responses);
}

/// After a run that ended well, a second run for the same target and on the
/// same manifests finds the environment managed and valid. Unless it is
/// asked to rebuild everything, it neither removes nor creates anything,
/// however far it gets; and if it regenerates the lock artifacts, they hold
/// what the first run left in them.
pub proof fn second_run_keeps_environment(
    setting: Setting,
    world: World,
    first: Seq<Response>,
    second: Seq<Response>,
)
    requires
        setting.mode != SyncMode::Full,
        follows(setting, start(setting, world).state, world, first),
        reached(setting, start(setting, world).state, first) == SyncState::Finished(Ok(())),
        follows(
            setting,
            start(setting, left(world, first)).state,
            left(world, first),
            second,
        ),
    ensures
        classification(left(world, first).environment, setting.target) == Ok::<
            EnvironmentState,
            SyncError,
        >(EnvironmentState::ManagedValid),
        start(setting, left(world, first)).state == SyncState::Toolchain(Resolution::Reuse),
        left(left(world, first), second).removals == left(world, first).removals,
        left(left(world, first), second).creations == left(world, first).creations,
        left(left(world, first), second).environment == left(world, first).environment,
        setting.mode.locks() && reached(setting, start(setting, left(world, first)).state, second)
            == SyncState::Finished(Ok(())) ==> {
            let once = left(world, first).artifacts;
            let twice = left(left(world, first), second).artifacts;
            &&& once[LockMode::Production] == twice[LockMode::Production]
            &&& once[LockMode::Dev] == twice[LockMode::Dev]
        },
{
    begins_coherent(setting, world);
    run_stays_coherent(setting, world, start(setting, world).state, world, first);
    let between = left(world, first);
    begins_coherent(setting, between);
    run_stays_coherent(setting, between, start(setting, between).state, between, second);
}

/// A run that finds a descriptor recording another interpreter than the
/// target says so, removes the directory, builds it afresh, and records the
/// target, if it ends well.
pub proof fn drifted_environment_is_rebuilt(
    setting: Setting,
    world: World,
    recorded: Seq<char>,
    responses: Seq<Response>,
)
    requires
        world.environment == Environment::Present(Descriptor::Recorded(recorded)),
        recorded != setting.target,
        follows(setting, start(setting, world).state, world, responses),
        reached(setting, start(setting, world).state, responses) == SyncState::Finished(Ok(())),
    ensures
        start(setting, world).state == SyncState::Toolchain(Resolution::Recreate),
        start(setting, world).notice == narrated(setting.output, Notice::VersionMismatch),
        left(world, responses).removals == world.removals + 1,
        left(world, responses).creations == world.creations + 1,
        left(world, responses).environment == Environment::Present(
            Descriptor::Recorded(setting.target),
        ),
{
    begins_coherent(setting, world);
    run_stays_coherent(setting, world, start(setting, world).state, world, responses);
}

/// Without `force`, a run that finds a directory without descriptor fails at
/// once as a violation of policy: it asks for no action, so the world stays
/// as it was.
pub proof fn unmanaged_environment_is_refused(
    setting: Setting,
    world: World,
    responses: Seq<Response>,
)
    requires
        world.environment == Environment::Present(Descriptor::Missing),
        !setting.force,
        follows(setting, start(setting, world).state, world, responses),
    ensures
        start(setting, world) == halted(SyncError::PolicyViolation),
        start(setting, world).action == SyncAction::Finish(Err(SyncError::PolicyViolation)),
        responses.len() == 0,
        left(world, responses) == world,
{
}

/// Under `force`, a run that finds a directory without descriptor removes
/// it, builds it afresh, and records the target, if it ends well.
pub proof fn unmanaged_environment_is_rebuilt_under_force(
    setting: Setting,
    world: World,
    responses: Seq<Response>,
)
    requires
        world.environment == Environment::Present(Descriptor::Missing),
        setting.force,
        follows(setting, start(setting, world).state, world, responses),
        reached(setting, start(setting, world).state, responses) == SyncState::Finished(Ok(())),
    ensures
        start(setting, world).state == SyncState::Toolchain(Resolution::Recreate),
        start(setting, world).notice == narrated(setting.output, Notice::ForcedRecreation),
        left(world, responses).removals == world.removals + 1,
        left(world, responses).creations == world.creations + 1,
        left(world, responses).environment == Environment::Present(
            Descriptor::Recorded(setting.target),
        ),
{
    begins_coherent(setting, world);
    run_stays_coherent(setting, world, start(setting, world).state, world, responses);
}

/// A descriptor that cannot be read or understood ends the run before any
/// action, with `force` as without it.
pub proof fn broken_descriptor_is_never_overridden(
    setting: Setting,
    world: World,
    responses: Seq<Response>,
)
    requires
        world.environment == Environment::Present(Descriptor::Malformed) || world.environment
            == Environment::Present(Descriptor::Unreadable),
        follows(setting, start(setting, world).state, world, responses),
    ensures
        world.environment == Environment::Present(Descriptor::Malformed) ==> start(setting, world)
            == halted(SyncError::ConfigurationError),
        world.environment == Environment::Present(Descriptor::Unreadable) ==> start(
            setting,
            world,
        ) == halted(SyncError::IoError(FileOperation::ReadDescriptor)),
        responses.len() == 0,
        left(world, responses) == world,
{
}

/// In mode `PythonOnly` no run ever calls the lock driver or starts the
/// installer, whatever it finds and however its actions end.
pub proof fn python_only_never_locks_or_installs(
    setting: Setting,
    world: World,
    responses: Seq<Response>,
)
    requires
        setting.mode == SyncMode::PythonOnly,
        follows(setting, start(setting, world).state, world, responses),
    ensures
        left(world, responses).lock_calls == world.lock_calls,
        left(world, responses).installs == world.installs,
        left(world, responses).artifacts == world.artifacts,
{
    begins_coherent(setting, world);
    run_stays_coherent(setting, world, start(setting, world).state, world, responses);
}

/// In mode `LockOnly` no run ever starts the installer, and a run that ends
/// well has called the lock driver exactly twice: for production, then for
/// development.
pub proof fn lock_only_locks_twice_and_never_installs(
    setting: Setting,
    world: World,
    responses: Seq<Response>,
)
    requires
        setting.mode == SyncMode::LockOnly,
        follows(setting, start(setting, world).state, world, responses),
    ensures
        left(world, responses).installs == world.installs,
        left(world, responses).linked == world.linked,
        reached(setting, start(setting, world).state, responses) == SyncState::Finished(Ok(()))
            ==> left(world, responses).lock_calls == world.lock_calls.push(
            LockMode::Production,
        ).push(LockMode::Dev),
{
    begins_coherent(setting, world);
    run_stays_coherent(setting, world, start(setting, world).state, world, responses);
}

/// The creator is only ever started where no directory is: what was there
/// has been removed entirely before.
pub proof fn creator_finds_no_directory(setting: Setting, world: World, responses: Seq<Response>)
    requires
        follows(setting, start(setting, world).state, world, responses),
        reached(setting, start(setting, world).state, responses) == SyncState::Creating,
    ensures
        left(world, responses).environment == Environment::Absent,
{
    begins_coherent(setting, world);
    run_stays_coherent(setting, world, start(setting, world).state, world, responses);
}

/// Whenever a run gets as far as locking or installing, the descriptor of
/// the environment records the target interpreter.
pub proof fn later_phases_meet_the_target(
    setting: Setting,
    world: World,
    responses: Seq<Response>,
)
    requires
        follows(setting, start(setting, world).state, world, responses),
        ({
            let state = reached(setting, start(setting, world).state, responses);
            state is Locking || state is Linking || state is Installing || state is Releasing
        }),
    ensures
        left(world, responses).environment == Environment::Present(
            Descriptor::Recorded(setting.target),
        ),
{
    begins_coherent(setting, world);
    run_stays_coherent(setting, world, start(setting, world).state, world, responses);
}

/// A run that has ended holds no scoped installer directory, whether the
/// installer did well or not.
pub proof fn scoped_directory_is_released(
    setting: Setting,
    world: World,
    responses: Seq<Response>,
)
    requires
        !world.linked,
        follows(setting, start(setting, world).state, world, responses),
        reached(setting, start(setting, world).state, responses) is Finished,
    ensures
        !left(world, responses).linked,
{
    begins_coherent(setting, world);
    run_stays_coherent(setting, world, start(setting, world).state, world, responses);
}

/// A run that ends well has gone through every phase that its mode asks
/// for: the environment stands, and the lock driver and the installer were
/// called as often as the mode says.
pub proof fn success_means_all_phases_ran(
    setting: Setting,
    world: World,
    responses: Seq<Response>,
)
    requires
        follows(setting, start(setting, world).state, world, responses),
        reached(setting, start(setting, world).state, responses) == SyncState::Finished(Ok(())),
    ensures
        left(world, responses).environment == Environment::Present(
            Descriptor::Recorded(setting.target),
        ),
        called(world, left(world, responses), if setting.mode.locks() { 2 } else { 0 }),
        left(world, responses).installs == world.installs + if setting.mode.installs() {
            1nat
        } else {
            0nat
        },
{
    begins_coherent(setting, world);
    run_stays_coherent(setting, world, start(setting, world).state, world, responses);
}

/// The first action that fails decides how the run ends: with the failure
/// of that action's phase. Nothing more is asked for after it, except that
/// a failed installation still has the scoped directory released.
pub proof fn first_failure_ends_the_run(
    setting: Setting,
    state: SyncState,
    world: World,
    responses: Seq<Response>,
)
    requires
        !(state is Releasing),
        responses.len() > 0,
        responses[0].outcome == Outcome::Failed,
        follows(setting, state, world, responses),
    ensures
        failure(state) is Some,
        responses.len() <= 2,
        responses.len() == 2 ==> state == SyncState::Installing,
        state != SyncState::Installing || responses.len() == 2 ==> reached(
            setting,
            state,
            responses,
        ) == SyncState::Finished(Err(failure(state).unwrap())),
        state == SyncState::Installing && responses.len() == 1 ==> reached(
            setting,
            state,
            responses,
        ) == SyncState::Releasing(Err(SyncError::ExternalToolFailure(Tool::Installer))),
{
    let next = transition(setting.mode, setting.output, state, Outcome::Failed).state;
    let rest = responses.drop_first();
    assert(follows(setting, next, responses[0].world, rest));
    assert(reached(setting, state, responses) == reached(setting, next, rest));
    if rest.len() > 0 {
        let last = transition(setting.mode, setting.output, next, rest[0].outcome).state;
        assert(follows(setting, last, rest[0].world, rest.drop_first()));
        assert(reached(setting, next, rest) == reached(setting, last, rest.drop_first()));
    }
}

/// How the state of a run and what it has said belong together: a quiet run
/// has said nothing, and completion is the last thing said by exactly the
/// runs that ended well in a mode that does more than build the environment.
pub open spec fn voiced(setting: Setting, state: SyncState, said: Seq<Notice>) -> bool {
    let announced = state == SyncState::Finished(Ok(())) && setting.mode.locks() && setting.output
        != CommandOutput::Quiet;
    &&& setting.output == CommandOutput::Quiet ==> said.len() == 0
    &&& announced ==> said.len() > 0 && said.last() == Notice::Done
    &&& !announced ==> !said.contains(Notice::Done)
}

/// Every run stays voiced, however its actions end.
pub proof fn run_stays_voiced(
    setting: Setting,
    then: World,
    state: SyncState,
    now: World,
    said: Seq<Notice>,
    responses: Seq<Response>,
)
    requires
        coherent(setting, then, state, now),
        voiced(setting, state, said),
        follows(setting, state, now, responses),
    ensures
        voiced(setting, reached(setting, state, responses), told(setting, said, state, responses)),
    decreases responses.len(),
{
    if responses.len() > 0 {
        let first = responses[0];
        let step = transition(setting.mode, setting.output, state, first.outcome);
        let more = said + spoken(step.notice);
        step_stays_coherent(setting, then, state, now, first);
        assert(voiced(setting, step.state, more)) by {
            match step.notice {
                None => {
                    assert(more =~= said);
                },
                Some(notice) => {
                    assert(more =~= said.push(notice));
                    assert(more.last() == notice);
                    if notice != Notice::Done {
                        assert forall|i: int| 0 <= i < more.len() implies more[i] != Notice::Done by {
                            if i < said.len() {
                                assert(said.contains(more[i]));
                            }
                        }
                    }
                },
            }
        }
        run_stays_voiced(setting, then, step.state, first.world, more, responses.drop_first());
    }
}

/// A quiet run tells the user nothing, however it goes.
pub proof fn quiet_run_says_nothing(setting: Setting, world: World, responses: Seq<Response>)
    requires
        setting.output == CommandOutput::Quiet,
        follows(setting, start(setting, world).state, world, responses),
    ensures
        told(
            setting,
            spoken(start(setting, world).notice),
            start(setting, world).state,
            responses,
        ).len() == 0,
{
    begins_coherent(setting, world);
    run_stays_voiced(
        setting,
        world,
        start(setting, world).state,
        world,
        spoken(start(setting, world).notice),
        responses,
    );
}

/// Completion is announced by the runs that end well, are not quiet and do
/// more than build the environment: by those as the last thing they say, by
/// no other run at all.
pub proof fn completion_is_announced_on_success_only(
    setting: Setting,
    world: World,
    responses: Seq<Response>,
)
    requires
        follows(setting, start(setting, world).state, world, responses),
    ensures
        ({
            let said = told(
                setting,
                spoken(start(setting, world).notice),
                start(setting, world).state,
                responses,
            );
            let ended_well = reached(setting, start(setting, world).state, responses)
                == SyncState::Finished(Ok(()));
            &&& said.contains(Notice::Done) <==> ended_well && setting.mode
                != SyncMode::PythonOnly && setting.output != CommandOutput::Quiet
            &&& said.contains(Notice::Done) ==> said.last() == Notice::Done
        }),
{
    begins_coherent(setting, world);
    let first = spoken(start(setting, world).notice);
    assert(!first.contains(Notice::Done));
    run_stays_voiced(setting, world, start(setting, world).state, world, first, responses);
    let said = told(setting, first, start(setting, world).state, responses);
    if said.len() > 0 && said.last() == Notice::Done {
        assert(said.contains(said[said.len() - 1]));
    }
}

} // verus!
