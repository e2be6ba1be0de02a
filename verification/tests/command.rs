use rye_sync::command::{
    install_source, installer_command, installer_link_path, join, virtualenv_command,
    InstallerSurroundings, Layout, LockRequest, LockScope, ToolCommand,
};
use rye_sync::options::{CommandOutput, LockMode, LockOptions, SyncMode, SyncOptions};

fn strings(items: &[&str]) -> Vec<String> {
    items.iter().map(|s| s.to_string()).collect()
}

fn pairs(items: &[(&str, &str)]) -> Vec<(String, String)> {
    items.iter().map(|(a, b)| (a.to_string(), b.to_string())).collect()
}

fn layout() -> Layout {
    Layout {
        workspace_root: "/work/proj".to_string(),
        environment: "/work/proj/.venv".to_string(),
        tooling: "/home/u/.rye/self".to_string(),
    }
}

fn options(output: CommandOutput, dev: bool) -> SyncOptions {
    SyncOptions {
        output,
        dev,
        mode: SyncMode::Regular,
        force: false,
        lock_options: LockOptions::default(),
    }
}

fn surroundings(dev_lock_present: bool, verbosity_preset: bool) -> InstallerSurroundings {
    InstallerSurroundings {
        scoped_dir: "/tmp/.tmpAbC".to_string(),
        dev_lock_present,
        verbosity_preset,
    }
}

#[test]
fn join_puts_one_separator_between() {
    assert_eq!(join("/a/b", "c"), "/a/b/c");
    assert_eq!(join("/a/b/", "c"), "/a/b/c");
    assert_eq!(join("/", "c"), "/c");
    assert_eq!(join("", "c"), "c");
    assert_eq!(join("rel", "bin/python"), "rel/bin/python");
}

#[test]
fn join_agrees_with_std_paths() {
    for base in ["/a/b", "/a/b/", "/", "", "x", "dir with space", "ü/é"] {
        for name in ["c", "bin/python", "rye-venv.json"] {
            let std = std::path::Path::new(base).join(name);
            assert_eq!(join(base, name), std.to_str().unwrap());
        }
    }
}

#[test]
fn well_known_paths() {
    let layout = layout();
    assert_eq!(layout.descriptor_path(), "/work/proj/.venv/rye-venv.json");
    assert_eq!(layout.lock_path(LockMode::Production), "/work/proj/requirements.lock");
    assert_eq!(layout.lock_path(LockMode::Dev), "/work/proj/requirements-dev.lock");
    assert_eq!(layout.interpreter_path(), "/work/proj/.venv/bin/python");
    assert_eq!(installer_link_path("/tmp/.tmpAbC"), "/tmp/.tmpAbC/pip");
}

#[test]
fn lock_requests_name_entry_point_mode_and_target() {
    let layout = layout();
    assert_eq!(
        layout.lock_request(true, LockMode::Production),
        LockRequest {
            scope: LockScope::Workspace,
            mode: LockMode::Production,
            target: "/work/proj/requirements.lock".to_string(),
        }
    );
    assert_eq!(
        layout.lock_request(false, LockMode::Dev),
        LockRequest {
            scope: LockScope::Project,
            mode: LockMode::Dev,
            target: "/work/proj/requirements-dev.lock".to_string(),
        }
    );
}

#[test]
fn creator_command_normal_and_quiet() {
    for output in [CommandOutput::Normal, CommandOutput::Quiet] {
        assert_eq!(
            virtualenv_command(output, "/self", "/py/3.11.4/bin/python3", "/proj/.venv"),
            ToolCommand {
                program: "/self/bin/virtualenv".to_string(),
                args: strings(&[
                    "-q",
                    "-p",
                    "/py/3.11.4/bin/python3",
                    "--no-seed",
                    "--",
                    "/proj/.venv"
                ]),
                env: pairs(&[("PYTHONWARNINGS", "ignore")]),
                current_dir: None,
            }
        );
    }
}

#[test]
fn creator_command_verbose() {
    assert_eq!(
        virtualenv_command(CommandOutput::Verbose, "/self", "/py/bin/python3", "/proj/.venv"),
        ToolCommand {
            program: "/self/bin/virtualenv".to_string(),
            args: strings(&["--verbose", "-p", "/py/bin/python3", "--no-seed", "--", "/proj/.venv"]),
            env: vec![],
            current_dir: None,
        }
    );
}

#[test]
fn install_source_is_dev_only_if_wanted_and_present() {
    assert_eq!(install_source(false, false), LockMode::Production);
    assert_eq!(install_source(false, true), LockMode::Production);
    assert_eq!(install_source(true, false), LockMode::Production);
    assert_eq!(install_source(true, true), LockMode::Dev);
}

#[test]
fn installer_command_normal() {
    assert_eq!(
        installer_command(&options(CommandOutput::Normal, false), &layout(), &surroundings(true, false)),
        ToolCommand {
            program: "/home/u/.rye/self/bin/pip-sync".to_string(),
            args: strings(&[
                "--python-executable",
                "/work/proj/.venv/bin/python",
                "--pip-args=\"--python=/work/proj/.venv/bin/python\"",
                "/work/proj/requirements.lock",
            ]),
            env: pairs(&[("PYTHONPATH", "/tmp/.tmpAbC"), ("PYTHONWARNINGS", "ignore")]),
            current_dir: Some("/work/proj".to_string()),
        }
    );
}

#[test]
fn installer_command_quiet_with_dev_lock() {
    assert_eq!(
        installer_command(&options(CommandOutput::Quiet, true), &layout(), &surroundings(true, false)),
        ToolCommand {
            program: "/home/u/.rye/self/bin/pip-sync".to_string(),
            args: strings(&[
                "--python-executable",
                "/work/proj/.venv/bin/python",
                "--pip-args=\"--python=/work/proj/.venv/bin/python\"",
                "/work/proj/requirements-dev.lock",
                "-q",
            ]),
            env: pairs(&[("PYTHONPATH", "/tmp/.tmpAbC")]),
            current_dir: Some("/work/proj".to_string()),
        }
    );
}

#[test]
fn installer_command_verbose_sets_verbosity_only_if_unset() {
    let unset =
        installer_command(&options(CommandOutput::Verbose, true), &layout(), &surroundings(false, false));
    assert_eq!(
        unset,
        ToolCommand {
            program: "/home/u/.rye/self/bin/pip-sync".to_string(),
            args: strings(&[
                "--python-executable",
                "/work/proj/.venv/bin/python",
                "--pip-args=\"--python=/work/proj/.venv/bin/python\"",
                "/work/proj/requirements.lock",
                "--verbose",
            ]),
            env: pairs(&[("PYTHONPATH", "/tmp/.tmpAbC"), ("PIP_VERBOSE", "2")]),
            current_dir: Some("/work/proj".to_string()),
        }
    );
    let preset =
        installer_command(&options(CommandOutput::Verbose, true), &layout(), &surroundings(false, true));
    assert_eq!(preset.env, pairs(&[("PYTHONPATH", "/tmp/.tmpAbC")]));
    assert_eq!(preset.args, unset.args);
}

#[test]
fn installer_names_exactly_one_lock_artifact() {
    for output in [CommandOutput::Normal, CommandOutput::Quiet, CommandOutput::Verbose] {
        for dev in [false, true] {
            for present in [false, true] {
                let command =
                    installer_command(&options(output, dev), &layout(), &surroundings(present, false));
                let locks = command.args.iter().filter(|a| a.ends_with(".lock")).count();
                assert_eq!(locks, 1);
                let wanted = if dev && present {
                    "/work/proj/requirements-dev.lock"
                } else {
                    "/work/proj/requirements.lock"
                };
                assert!(command.args.iter().any(|a| a == wanted));
            }
        }
    }
}

#[test]
fn interpreter_path_with_spaces_stays_in_quotes() {
    let layout = Layout {
        workspace_root: "/my work".to_string(),
        environment: "/my work/.venv".to_string(),
        tooling: "/self".to_string(),
    };
    let command =
        installer_command(&options(CommandOutput::Normal, false), &layout, &surroundings(false, false));
    assert_eq!(command.args[1], "/my work/.venv/bin/python");
    assert_eq!(command.args[2], "--pip-args=\"--python=/my work/.venv/bin/python\"");
}
