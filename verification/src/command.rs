//! The command lines of the outside tools, and where things lie on disk.
//!
//! Nothing here starts a process. A [`ToolCommand`] says which program to
//! start, with which arguments, with which environment variables set in
//! addition to those of the caller, and in which directory.

use vstd::prelude::*;
use crate::options::{CommandOutput, LockMode, SyncOptions};

verus! {

/// A command line, as a mathematical value.
pub struct Invocation {
    /// Path of the program.
    pub program: Seq<char>,
    /// The arguments, in order.
    pub args: Seq<Seq<char>>,
    /// Environment variables to set, name and value, in order.
    pub env: Seq<(Seq<char>, Seq<char>)>,
    /// The directory to start the program in, if it matters.
    pub current_dir: Option<Seq<char>>,
}

/// A command line for the caller to start.
#[derive(Debug, PartialEq, Eq)]
pub struct ToolCommand {
    /// Path of the program.
    pub program: String,
    /// The arguments, in order.
    pub args: Vec<String>,
    /// Environment variables to set, name and value, in order.
    pub env: Vec<(String, String)>,
    /// The directory to start the program in, if it matters.
    pub current_dir: Option<String>,
}

/// The texts that `strings` hold.
pub open spec fn texts(strings: Seq<String>) -> Seq<Seq<char>> {
    Seq::new(strings.len(), |i: int| strings[i]@)
}

/// The names and values that `pairs` hold.
pub open spec fn settings(pairs: Seq<(String, String)>) -> Seq<(Seq<char>, Seq<char>)> {
    Seq::new(pairs.len(), |i: int| (pairs[i].0@, pairs[i].1@))
}

impl View for ToolCommand {
    type V = Invocation;

    open spec fn view(&self) -> Invocation {
        Invocation {
            program: self.program@,
            args: texts(self.args@),
            env: settings(self.env@),
            current_dir: match self.current_dir {
                Some(dir) => Some(dir@),
                None => None,
            },
        }
    }
}

/// The path of `name` below the directory `base`. `name` is relative. A
/// separator is put between the two unless `base` is empty or ends in one.
pub open spec fn joined(base: Seq<char>, name: Seq<char>) -> Seq<char> {
    if base.len() == 0 || base.last() == '/' {
        base + name
    } else {
        base + seq!['/'] + name
    }
}

/// The descriptor of the environment directory `environment`.
pub open spec fn descriptor_location(environment: Seq<char>) -> Seq<char> {
    joined(environment, "rye-venv.json"@)
}

/// The lock artifact of `mode` in the workspace at `root`.
pub open spec fn lock_location(root: Seq<char>, mode: LockMode) -> Seq<char> {
    match mode {
        LockMode::Production => joined(root, "requirements.lock"@),
        LockMode::Dev => joined(root, "requirements-dev.lock"@),
    }
}

/// The interpreter inside the environment directory `environment`.
pub open spec fn interpreter_location(environment: Seq<char>) -> Seq<char> {
    joined(environment, "bin/python"@)
}

/// The link to the installer module inside the scoped directory `scoped`.
/// It is the only thing that the directory holds.
pub open spec fn installer_link_location(scoped: Seq<char>) -> Seq<char> {
    joined(scoped, "pip"@)
}

/// Which lock artifact the installer reads: the development one if it is
/// wanted and exists, else the production one.
pub open spec fn install_source_of(dev: bool, dev_lock_present: bool) -> LockMode {
    if dev && dev_lock_present {
        LockMode::Dev
    } else {
        LockMode::Production
    }
}

/// The command that builds a fresh environment at `destination` with the
/// interpreter binary `interpreter`, using the creator under `tooling`.
/// No seed packages are put into the environment.
pub open spec fn creator_invocation(
    output: CommandOutput,
    tooling: Seq<char>,
    interpreter: Seq<char>,
    destination: Seq<char>,
) -> Invocation {
    Invocation {
        program: joined(tooling, "bin/virtualenv"@),
        args: (if output == CommandOutput::Verbose {
            seq!["--verbose"@]
        } else {
            seq!["-q"@]
        }).push("-p"@).push(interpreter).push("--no-seed"@).push("--"@).push(destination),
        env: if output == CommandOutput::Verbose {
            Seq::empty()
        } else {
            seq![("PYTHONWARNINGS"@, "ignore"@)]
        },
        current_dir: None,
    }
}

/// The argument that hands the interpreter on to the tool that the
/// installer starts in turn. The quotes keep a path with spaces together.
pub open spec fn nested_interpreter_argument(interpreter: Seq<char>) -> Seq<char> {
    "--pip-args=\"--python="@ + interpreter + "\""@
}

/// The command that installs from the lock artifact of `source` into the
/// environment at `environment`. The installer finds its module through
/// the scoped directory `scoped` and nowhere else. `verbosity_preset` says
/// that the caller's environment already sets the installer's verbosity.
pub open spec fn installer_invocation(
    output: CommandOutput,
    source: LockMode,
    root: Seq<char>,
    environment: Seq<char>,
    tooling: Seq<char>,
    scoped: Seq<char>,
    verbosity_preset: bool,
) -> Invocation {
    let interpreter = interpreter_location(environment);
    let common = seq![
        "--python-executable"@,
        interpreter,
        nested_interpreter_argument(interpreter),
        lock_location(root, source),
    ];
    let search_path = seq![("PYTHONPATH"@, scoped)];
    Invocation {
        program: joined(tooling, "bin/pip-sync"@),
        args: match output {
            CommandOutput::Verbose => common.push("--verbose"@),
            CommandOutput::Quiet => common.push("-q"@),
            CommandOutput::Normal => common,
        },
        env: match output {
            CommandOutput::Verbose => if verbosity_preset {
                search_path
            } else {
                search_path.push(("PIP_VERBOSE"@, "2"@))
            },
            CommandOutput::Quiet => search_path,
            CommandOutput::Normal => search_path.push(("PYTHONWARNINGS"@, "ignore"@)),
        },
        current_dir: Some(root),
    }
}

/// Which entry point of the lock driver a project goes through.
#[derive(Debug, Clone, Copy, PartialEq, Eq, Structural, Hash)]
pub enum LockScope {
    /// The project is part of a workspace: the lock covers all its members.
    Workspace,
    /// The project stands alone.
    Project,
}

/// One call of the lock driver, as a mathematical value.
pub struct LockCall {
    /// The entry point.
    pub scope: LockScope,
    /// Which artifact to write.
    pub mode: LockMode,
    /// Where to write it.
    pub target: Seq<char>,
}

/// One call of the lock driver: it is to write exactly one artifact, that
/// of `mode`, to `target`.
#[derive(Debug, PartialEq, Eq)]
pub struct LockRequest {
    /// The entry point.
    pub scope: LockScope,
    /// Which artifact to write.
    pub mode: LockMode,
    /// Where to write it.
    pub target: String,
}

impl View for LockRequest {
    type V = LockCall;

    open spec fn view(&self) -> LockCall {
        LockCall { scope: self.scope, mode: self.mode, target: self.target@ }
    }
}

/// The call that writes the artifact of `mode` for a project in the
/// workspace at `root`. `in_workspace` says whether the project is part of
/// a workspace of several projects; that alone decides the entry point.
pub open spec fn lock_call(root: Seq<char>, in_workspace: bool, mode: LockMode) -> LockCall {
    LockCall {
        scope: if in_workspace {
            LockScope::Workspace
        } else {
            LockScope::Project
        },
        mode,
        target: lock_location(root, mode),
    }
}

/// Where the project, its environment and the engine's own tools lie.
#[derive(Debug, PartialEq, Eq)]
pub struct Layout {
    /// The root of the workspace: the lock artifacts lie here, and the
    /// installer runs here.
    pub workspace_root: String,
    /// The environment directory.
    pub environment: String,
    /// The directory of the engine's own tools.
    pub tooling: String,
}

/// What the caller found when it prepared the installation.
#[derive(Debug, PartialEq, Eq)]
pub struct InstallerSurroundings {
    /// The scoped directory that holds the link to the installer module.
    pub scoped_dir: String,
    /// Whether the development lock artifact exists.
    pub dev_lock_present: bool,
    /// Whether the caller's environment already sets the verbosity of the
    /// installer.
    pub verbosity_preset: bool,
}

fn text(literal: &str) -> (owned: String)
    ensures
        owned@ == literal@,
{
    literal.to_owned()
}

fn push_text(list: &mut Vec<String>, item: &str)
    ensures
        texts(final(list)@) == texts(old(list)@).push(item@),
{
    list.push(text(item));
    assert(texts(list@) =~= texts(old(list)@).push(item@));
}

fn push_setting(list: &mut Vec<(String, String)>, name: &str, value: &str)
    ensures
        settings(final(list)@) == settings(old(list)@).push((name@, value@)),
{
    list.push((text(name), text(value)));
    assert(settings(list@) =~= settings(old(list)@).push((name@, value@)));
}

/// Puts the relative path `name` below the directory `base`.
pub fn join(base: &str, name: &str) -> (path: String)
    ensures
        path@ == joined(base@, name@),
{
    let len = base.unicode_len();
    let mut path = text(base);
    if len > 0 && base.get_char(len - 1) != '/' {
        proof {
            reveal_strlit("/");
            assert("/"@ =~= seq!['/']);
        }
        path.append("/");
    }
    path.append(name);
    path
}

impl Layout {
    /// The path of the environment's descriptor.
    pub fn descriptor_path(&self) -> (path: String)
        ensures
            path@ == descriptor_location(self.environment@),
    {
        join(self.environment.as_str(), "rye-venv.json")
    }

    /// The path of the lock artifact of `mode`.
    pub fn lock_path(&self, mode: LockMode) -> (path: String)
        ensures
            path@ == lock_location(self.workspace_root@, mode),
    {
        match mode {
            LockMode::Production => join(self.workspace_root.as_str(), "requirements.lock"),
            LockMode::Dev => join(self.workspace_root.as_str(), "requirements-dev.lock"),
        }
    }

    /// The call of the lock driver that writes the artifact of `mode`.
    pub fn lock_request(&self, in_workspace: bool, mode: LockMode) -> (request: LockRequest)
        ensures
            request@ == lock_call(self.workspace_root@, in_workspace, mode),
    {
        let scope = if in_workspace {
            LockScope::Workspace
        } else {
            LockScope::Project
        };
        LockRequest { scope, mode, target: self.lock_path(mode) }
    }

    /// The path of the interpreter inside the environment.
    pub fn interpreter_path(&self) -> (path: String)
        ensures
            path@ == interpreter_location(self.environment@),
    {
        join(self.environment.as_str(), "bin/python")
    }
}

/// The path at which the link to the installer module is put inside the
/// scoped directory.
pub fn installer_link_path(scoped_dir: &str) -> (path: String)
    ensures
        path@ == installer_link_location(scoped_dir@),
{
    join(scoped_dir, "pip")
}

/// Chooses the lock artifact to install from.
pub fn install_source(dev: bool, dev_lock_present: bool) -> (source: LockMode)
    ensures
        source == install_source_of(dev, dev_lock_present),
{
    if dev && dev_lock_present {
        LockMode::Dev
    } else {
        LockMode::Production
    }
}

/// Builds the command that creates a fresh environment at `destination`:
/// the creator under `tooling`, told how verbose to be, which interpreter
/// binary to use, to leave out seed packages, and where to build.
pub fn virtualenv_command(
    output: CommandOutput,
    tooling: &str,
    interpreter: &str,
    destination: &str,
) -> (command: ToolCommand)
    ensures
        command@ == creator_invocation(output, tooling@, interpreter@, destination@),
{
    let mut args: Vec<String> = Vec::new();
    let mut env: Vec<(String, String)> = Vec::new();
    assert(texts(args@) =~= Seq::empty());
    assert(settings(env@) =~= Seq::empty());
    match output {
        CommandOutput::Verbose => {
            push_text(&mut args, "--verbose");
        },
        _ => {
            push_text(&mut args, "-q");
            push_setting(&mut env, "PYTHONWARNINGS", "ignore");
        },
    }
    push_text(&mut args, "-p");
    push_text(&mut args, interpreter);
    push_text(&mut args, "--no-seed");
    push_text(&mut args, "--");
    push_text(&mut args, destination);
    ToolCommand { program: join(tooling, "bin/virtualenv"), args, env, current_dir: None }
}

/// Builds the command that installs the locked dependencies into the
/// environment. The interpreter of the environment is named twice, once
/// for the installer and once for the tool it starts. Exactly one lock
/// artifact is named. The installer is pointed at the scoped directory for
/// its module, so that it sees no other.
pub fn installer_command(
    options: &SyncOptions,
    layout: &Layout,
    found: &InstallerSurroundings,
) -> (command: ToolCommand)
    ensures
        command@ == installer_invocation(
            options.output,
            install_source_of(options.dev, found.dev_lock_present),
            layout.workspace_root@,
            layout.environment@,
            layout.tooling@,
            found.scoped_dir@,
            found.verbosity_preset,
        ),
{
    let interpreter = layout.interpreter_path();
    let mut nested = text("--pip-args=\"--python=");
    nested.append(interpreter.as_str());
    nested.append("\"");
    let lock = layout.lock_path(install_source(options.dev, found.dev_lock_present));

    let mut args: Vec<String> = Vec::new();
    let mut env: Vec<(String, String)> = Vec::new();
    assert(texts(args@) =~= Seq::empty());
    assert(settings(env@) =~= Seq::empty());
    push_setting(&mut env, "PYTHONPATH", found.scoped_dir.as_str());
    push_text(&mut args, "--python-executable");
    push_text(&mut args, interpreter.as_str());
    push_text(&mut args, nested.as_str());
    push_text(&mut args, lock.as_str());
    match options.output {
        CommandOutput::Verbose => {
            push_text(&mut args, "--verbose");
            if !found.verbosity_preset {
                push_setting(&mut env, "PIP_VERBOSE", "2");
            }
        },
        CommandOutput::Normal => {
            push_setting(&mut env, "PYTHONWARNINGS", "ignore");
        },
        CommandOutput::Quiet => {
            push_text(&mut args, "-q");
        },
    }
    let command = ToolCommand {
        program: join(layout.tooling.as_str(), "bin/pip-sync"),
        args,
        env,
        current_dir: Some(layout.workspace_root.clone()),
    };
    assert(command@.args == installer_invocation(
        options.output,
        install_source_of(options.dev, found.dev_lock_present),
        layout.workspace_root@,
        layout.environment@,
        layout.tooling@,
        found.scoped_dir@,
        found.verbosity_preset,
    ).args);
    command
}

} // verus!
