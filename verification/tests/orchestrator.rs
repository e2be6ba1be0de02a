use rye_sync::command::{installer_command, InstallerSurroundings, Layout};
use rye_sync::descriptor::{parse_marker, probe_contents, render_marker, VenvMarker};
use rye_sync::environment::{DescriptorProbe, EnvironmentProbe};
use rye_sync::error::{FileOperation, SyncError, Tool};
use rye_sync::options::{CommandOutput, LockMode, LockOptions, SyncMode, SyncOptions};
use rye_sync::orchestrator::{advance, begin, Notice, Outcome, SyncAction, SyncState, SyncStep};
use rye_sync::version::InterpreterVersion;

/// A stand-in for the disk and the tools: it does what each action is for
/// and keeps count.
struct Disk {
    environment: EnvironmentProbe,
    descriptor_file: Option<String>,
    lock_calls: Vec<LockMode>,
    installs: usize,
    removals: usize,
    creations: usize,
    linked: bool,
    trace: Vec<SyncAction>,
    notices: Vec<Notice>,
}

fn disk(environment: EnvironmentProbe) -> Disk {
    Disk {
        environment,
        descriptor_file: None,
        lock_calls: vec![],
        installs: 0,
        removals: 0,
        creations: 0,
        linked: false,
        trace: vec![],
        notices: vec![],
    }
}

fn version(text: &str) -> InterpreterVersion {
    InterpreterVersion::new(text)
}

fn recorded(text: &str) -> EnvironmentProbe {
    EnvironmentProbe::Present(DescriptorProbe::Recorded(version(text)))
}

fn unmanaged() -> EnvironmentProbe {
    EnvironmentProbe::Present(DescriptorProbe::Missing)
}

fn options(mode: SyncMode, output: CommandOutput, force: bool) -> SyncOptions {
    SyncOptions { output, dev: false, mode, force, lock_options: LockOptions::default() }
}

fn perform(disk: &mut Disk, target: &InterpreterVersion, action: SyncAction, fail: bool) -> Outcome {
    disk.trace.push(action);
    match action {
        SyncAction::EnsureToolchain => {}
        SyncAction::RemoveEnvironment => {
            disk.removals += 1;
            if !fail {
                disk.environment = EnvironmentProbe::Absent;
                disk.descriptor_file = None;
            }
        }
        SyncAction::CreateEnvironment => {
            assert_eq!(disk.environment, EnvironmentProbe::Absent);
            disk.creations += 1;
            if !fail {
                disk.environment = unmanaged();
            }
        }
        SyncAction::WriteDescriptor => {
            if !fail {
                let text = render_marker(&VenvMarker { python: target.clone() }).unwrap();
                disk.environment = EnvironmentProbe::Present(probe_contents(text.as_bytes()));
                disk.descriptor_file = Some(text);
            }
        }
        SyncAction::UpdateLock(mode) => disk.lock_calls.push(mode),
        SyncAction::LinkInstaller => disk.linked = !fail,
        SyncAction::Install => {
            assert!(disk.linked);
            disk.installs += 1;
        }
        SyncAction::ReleaseInstaller => disk.linked = false,
        SyncAction::Finish(_) => unreachable!(),
    }
    if fail {
        Outcome::Failed
    } else {
        Outcome::Completed
    }
}

/// Drives one run to its end. The action `fail_at`, if it comes, fails.
fn run(
    options: &SyncOptions,
    target: &InterpreterVersion,
    disk: &mut Disk,
    fail_at: Option<SyncAction>,
) -> Result<(), SyncError> {
    let probe = disk.environment.clone();
    let mut step = begin(options, target, &probe);
    for _ in 0..32 {
        if let Some(notice) = step.notice {
            disk.notices.push(notice);
        }
        if let SyncAction::Finish(result) = step.action {
            assert_eq!(step.state, SyncState::Finished(result));
            return result;
        }
        let outcome = perform(disk, target, step.action, fail_at == Some(step.action));
        step = advance(options, step.state, outcome);
    }
    panic!("the run does not end");
}

const MODES: [SyncMode; 4] =
    [SyncMode::PythonOnly, SyncMode::LockOnly, SyncMode::Regular, SyncMode::Full];

const OUTPUTS: [CommandOutput; 3] =
    [CommandOutput::Normal, CommandOutput::Quiet, CommandOutput::Verbose];

#[test]
fn absent_regular_builds_records_and_installs_once() {
    for text in ["3.11.4", "3.8.17", "cpython@3.12.0", "pypy@3.9.16"] {
        let target = version(text);
        let mut disk = disk(EnvironmentProbe::Absent);
        let result = run(&options(SyncMode::Regular, CommandOutput::Normal, false), &target, &mut disk, None);
        assert_eq!(result, Ok(()));
        assert_eq!(disk.environment, recorded(text));
        assert_eq!(disk.installs, 1);
        assert_eq!(disk.creations, 1);
        assert_eq!(disk.removals, 0);
    }
}

#[test]
fn second_regular_run_recreates_nothing() {
    let target = version("3.11.4");
    let regular = options(SyncMode::Regular, CommandOutput::Normal, false);
    let mut disk = disk(EnvironmentProbe::Absent);
    assert_eq!(run(&regular, &target, &mut disk, None), Ok(()));
    let first_locks = disk.lock_calls.clone();
    disk.trace.clear();
    disk.notices.clear();
    assert_eq!(run(&regular, &target, &mut disk, None), Ok(()));
    assert_eq!(disk.creations, 1);
    assert_eq!(disk.removals, 0);
    assert_eq!(
        disk.trace,
        vec![
            SyncAction::EnsureToolchain,
            SyncAction::UpdateLock(LockMode::Production),
            SyncAction::UpdateLock(LockMode::Dev),
            SyncAction::LinkInstaller,
            SyncAction::Install,
            SyncAction::ReleaseInstaller,
        ]
    );
    assert_eq!(disk.notices, vec![Notice::Reusing, Notice::Installing, Notice::Done]);
    assert_eq!(disk.lock_calls[2..], first_locks[..]);
    assert_eq!(disk.environment, recorded("3.11.4"));
}

#[test]
fn drift_from_3_10_to_3_11_rebuilds() {
    let target = version("3.11.6");
    let mut disk = disk(recorded("3.10.13"));
    let result = run(&options(SyncMode::Regular, CommandOutput::Normal, false), &target, &mut disk, None);
    assert_eq!(result, Ok(()));
    assert_eq!(disk.removals, 1);
    assert_eq!(disk.creations, 1);
    assert_eq!(disk.environment, recorded("3.11.6"));
    assert_eq!(
        disk.trace[..4],
        [
            SyncAction::EnsureToolchain,
            SyncAction::RemoveEnvironment,
            SyncAction::CreateEnvironment,
            SyncAction::WriteDescriptor,
        ]
    );
    assert_eq!(disk.notices[0], Notice::VersionMismatch);
}

#[test]
fn foreign_environment_is_rejected_untouched() {
    for mode in MODES {
        for output in OUTPUTS {
            let mut disk = disk(unmanaged());
            let result = run(&options(mode, output, false), &version("3.11.4"), &mut disk, None);
            assert_eq!(result, Err(SyncError::PolicyViolation));
            assert_eq!(disk.trace, vec![]);
            assert_eq!(disk.notices, vec![]);
            assert_eq!(disk.environment, unmanaged());
            assert_eq!(disk.removals, 0);
        }
    }
}

#[test]
fn foreign_environment_is_rebuilt_under_force() {
    let mut disk = disk(unmanaged());
    let result =
        run(&options(SyncMode::Regular, CommandOutput::Normal, true), &version("3.11.4"), &mut disk, None);
    assert_eq!(result, Ok(()));
    assert_eq!(disk.removals, 1);
    assert_eq!(disk.creations, 1);
    assert_eq!(disk.environment, recorded("3.11.4"));
    assert_eq!(disk.notices[0], Notice::ForcedRecreation);
}

#[test]
fn python_only_never_locks_or_installs() {
    let starts = [EnvironmentProbe::Absent, recorded("3.11.4"), recorded("3.10.0"), unmanaged()];
    for start in starts {
        for force in [false, true] {
            let mut disk = disk(start.clone());
            let _ = run(
                &options(SyncMode::PythonOnly, CommandOutput::Normal, force),
                &version("3.11.4"),
                &mut disk,
                None,
            );
            assert_eq!(disk.lock_calls, vec![]);
            assert_eq!(disk.installs, 0);
            assert!(!disk.trace.contains(&SyncAction::LinkInstaller));
            assert!(!disk.notices.contains(&Notice::Done));
        }
    }
}

#[test]
fn python_only_still_recreates_on_drift() {
    let mut disk = disk(recorded("3.10.0"));
    let result = run(
        &options(SyncMode::PythonOnly, CommandOutput::Normal, false),
        &version("3.11.4"),
        &mut disk,
        None,
    );
    assert_eq!(result, Ok(()));
    assert_eq!(
        disk.trace,
        vec![
            SyncAction::EnsureToolchain,
            SyncAction::RemoveEnvironment,
            SyncAction::CreateEnvironment,
            SyncAction::WriteDescriptor,
        ]
    );
    assert_eq!(disk.environment, recorded("3.11.4"));
}

#[test]
fn lock_only_locks_twice_and_never_installs() {
    for start in [EnvironmentProbe::Absent, recorded("3.11.4"), recorded("3.10.0")] {
        let mut disk = disk(start);
        let result = run(
            &options(SyncMode::LockOnly, CommandOutput::Normal, false),
            &version("3.11.4"),
            &mut disk,
            None,
        );
        assert_eq!(result, Ok(()));
        assert_eq!(disk.lock_calls, vec![LockMode::Production, LockMode::Dev]);
        assert_eq!(disk.installs, 0);
        assert!(!disk.trace.contains(&SyncAction::LinkInstaller));
        assert_eq!(disk.notices.last(), Some(&Notice::Done));
    }
}

#[test]
fn end_to_end_from_nothing() {
    let sync = SyncOptions {
        output: CommandOutput::Normal,
        dev: false,
        mode: SyncMode::Regular,
        force: false,
        lock_options: LockOptions::default(),
    };
    let target = version("3.11.4");
    let layout = Layout {
        workspace_root: "/ws".to_string(),
        environment: "/ws/.venv".to_string(),
        tooling: "/self".to_string(),
    };
    let mut disk = disk(EnvironmentProbe::Absent);
    assert_eq!(run(&sync, &target, &mut disk, None), Ok(()));
    assert_eq!(
        disk.trace,
        vec![
            SyncAction::EnsureToolchain,
            SyncAction::CreateEnvironment,
            SyncAction::WriteDescriptor,
            SyncAction::UpdateLock(LockMode::Production),
            SyncAction::UpdateLock(LockMode::Dev),
            SyncAction::LinkInstaller,
            SyncAction::Install,
            SyncAction::ReleaseInstaller,
        ]
    );
    assert_eq!(disk.notices, vec![Notice::Initializing, Notice::Installing, Notice::Done]);
    let written = disk.descriptor_file.clone().unwrap();
    let compact: String = written.chars().filter(|c| !c.is_whitespace()).collect();
    assert_eq!(compact, r#"{"python":"3.11.4"}"#);
    assert_eq!(parse_marker(written.as_bytes()), Ok(VenvMarker { python: version("3.11.4") }));
    assert_eq!(layout.descriptor_path(), "/ws/.venv/rye-venv.json");
    assert_eq!(layout.lock_request(false, LockMode::Production).target, "/ws/requirements.lock");
    assert_eq!(layout.lock_request(false, LockMode::Dev).target, "/ws/requirements-dev.lock");
    let found = InstallerSurroundings {
        scoped_dir: "/tmp/x".to_string(),
        dev_lock_present: true,
        verbosity_preset: false,
    };
    let command = installer_command(&sync, &layout, &found);
    assert_eq!(command.args[3], "/ws/requirements.lock");
    assert_eq!(command.args.len(), 4);
    assert_eq!(disk.installs, 1);
    assert!(!disk.linked);
}

#[test]
fn full_rebuilds_even_a_valid_environment() {
    let mut disk = disk(recorded("3.11.4"));
    let result =
        run(&options(SyncMode::Full, CommandOutput::Normal, false), &version("3.11.4"), &mut disk, None);
    assert_eq!(result, Ok(()));
    assert_eq!(disk.removals, 1);
    assert_eq!(disk.creations, 1);
    assert_eq!(disk.installs, 1);
    assert_eq!(disk.notices, vec![Notice::Initializing, Notice::Installing, Notice::Done]);
}

#[test]
fn broken_descriptor_fails_even_under_force() {
    for force in [false, true] {
        for mode in MODES {
            let mut malformed = disk(EnvironmentProbe::Present(DescriptorProbe::Malformed));
            let result =
                run(&options(mode, CommandOutput::Normal, force), &version("3.11.4"), &mut malformed, None);
            assert_eq!(result, Err(SyncError::ConfigurationError));
            assert_eq!(malformed.trace, vec![]);
            let mut unreadable = disk(EnvironmentProbe::Present(DescriptorProbe::Unreadable));
            let result =
                run(&options(mode, CommandOutput::Normal, force), &version("3.11.4"), &mut unreadable, None);
            assert_eq!(result, Err(SyncError::IoError(FileOperation::ReadDescriptor)));
            assert_eq!(unreadable.trace, vec![]);
        }
    }
}

#[test]
fn each_failing_action_ends_the_run_with_its_error() {
    let cases = [
        (SyncAction::EnsureToolchain, SyncError::ExternalToolFailure(Tool::Toolchain)),
        (SyncAction::RemoveEnvironment, SyncError::IoError(FileOperation::RemoveEnvironment)),
        (SyncAction::CreateEnvironment, SyncError::ExternalToolFailure(Tool::Creator)),
        (SyncAction::WriteDescriptor, SyncError::IoError(FileOperation::WriteDescriptor)),
        (
            SyncAction::UpdateLock(LockMode::Production),
            SyncError::ExternalToolFailure(Tool::LockProduction),
        ),
        (SyncAction::UpdateLock(LockMode::Dev), SyncError::ExternalToolFailure(Tool::LockDev)),
        (SyncAction::LinkInstaller, SyncError::IoError(FileOperation::LinkInstaller)),
        (SyncAction::Install, SyncError::ExternalToolFailure(Tool::Installer)),
    ];
    for (action, error) in cases {
        let mut disk = disk(recorded("3.10.0"));
        let result = run(
            &options(SyncMode::Regular, CommandOutput::Normal, false),
            &version("3.11.4"),
            &mut disk,
            Some(action),
        );
        assert_eq!(result, Err(error));
        let last = *disk.trace.last().unwrap();
        if action == SyncAction::Install {
            assert_eq!(last, SyncAction::ReleaseInstaller);
        } else {
            assert_eq!(last, action);
        }
        assert!(!disk.notices.contains(&Notice::Done));
        assert!(!disk.linked);
    }
}

#[test]
fn failed_release_does_not_undo_a_good_installation() {
    let mut disk = disk(recorded("3.11.4"));
    let result = run(
        &options(SyncMode::Regular, CommandOutput::Normal, false),
        &version("3.11.4"),
        &mut disk,
        Some(SyncAction::ReleaseInstaller),
    );
    assert_eq!(result, Ok(()));
}

#[test]
fn quiet_runs_say_nothing() {
    for mode in MODES {
        for start in [EnvironmentProbe::Absent, recorded("3.11.4"), recorded("3.10.0"), unmanaged()] {
            let mut disk = disk(start);
            let result =
                run(&options(mode, CommandOutput::Quiet, true), &version("3.11.4"), &mut disk, None);
            assert_eq!(result, Ok(()));
            assert_eq!(disk.notices, vec![]);
        }
    }
}

#[test]
fn quiet_runs_still_report_the_error() {
    let mut disk = disk(unmanaged());
    let result =
        run(&options(SyncMode::Regular, CommandOutput::Quiet, false), &version("3.11.4"), &mut disk, None);
    assert_eq!(result, Err(SyncError::PolicyViolation));
}

#[test]
fn reuse_is_only_announced_when_installing() {
    let mut regular = disk(recorded("3.11.4"));
    run(&options(SyncMode::Regular, CommandOutput::Verbose, false), &version("3.11.4"), &mut regular, None)
        .unwrap();
    assert_eq!(regular.notices, vec![Notice::Reusing, Notice::Installing, Notice::Done]);
    let mut lock_only = disk(recorded("3.11.4"));
    run(&options(SyncMode::LockOnly, CommandOutput::Normal, false), &version("3.11.4"), &mut lock_only, None)
        .unwrap();
    assert_eq!(lock_only.notices, vec![Notice::Done]);
    let mut python_only = disk(recorded("3.11.4"));
    run(&options(SyncMode::PythonOnly, CommandOutput::Normal, false), &version("3.11.4"), &mut python_only, None)
        .unwrap();
    assert_eq!(python_only.notices, vec![]);
    assert_eq!(python_only.trace, vec![SyncAction::EnsureToolchain]);
}

#[test]
fn first_step_of_each_resolution() {
    let target = version("3.11.4");
    let normal = options(SyncMode::Regular, CommandOutput::Normal, false);
    assert_eq!(
        begin(&normal, &target, &EnvironmentProbe::Absent),
        SyncStep {
            state: SyncState::Toolchain(rye_sync::environment::Resolution::Create),
            notice: None,
            action: SyncAction::EnsureToolchain,
        }
    );
    assert_eq!(
        begin(&normal, &target, &recorded("3.11.4")),
        SyncStep {
            state: SyncState::Toolchain(rye_sync::environment::Resolution::Reuse),
            notice: None,
            action: SyncAction::EnsureToolchain,
        }
    );
    assert_eq!(
        begin(&normal, &target, &recorded("3.9.1")),
        SyncStep {
            state: SyncState::Toolchain(rye_sync::environment::Resolution::Recreate),
            notice: Some(Notice::VersionMismatch),
            action: SyncAction::EnsureToolchain,
        }
    );
    assert_eq!(
        begin(&normal, &target, &unmanaged()),
        SyncStep {
            state: SyncState::Finished(Err(SyncError::PolicyViolation)),
            notice: None,
            action: SyncAction::Finish(Err(SyncError::PolicyViolation)),
        }
    );
}

#[test]
fn finished_run_stays_finished() {
    let normal = options(SyncMode::Regular, CommandOutput::Normal, false);
    for result in [Ok(()), Err(SyncError::PolicyViolation)] {
        for outcome in [Outcome::Completed, Outcome::Failed] {
            assert_eq!(
                advance(&normal, SyncState::Finished(result), outcome),
                SyncStep {
                    state: SyncState::Finished(result),
                    notice: None,
                    action: SyncAction::Finish(result),
                }
            );
        }
    }
}
