//! The settings of one synchronization.

use vstd::prelude::*;

verus! {

/// Which phases of a synchronization run.
#[derive(Debug, Clone, Copy, PartialEq, Eq, Structural, Hash)]
pub enum SyncMode {
    /// Only make sure that the environment exists.
    PythonOnly,
    /// Bring the lock artifacts up to date and stop before installing.
    LockOnly,
    /// Bring the lock artifacts up to date and install from them.
    Regular,
    /// Like `Regular`, after destroying and rebuilding the environment.
    Full,
}

impl Default for SyncMode {
    fn default() -> (mode: SyncMode)
        ensures
            mode == SyncMode::PythonOnly,
    {
        SyncMode::PythonOnly
    }
}

impl SyncMode {
    /// Whether the lock artifacts are regenerated in this mode.
    pub open spec fn locks(self) -> bool {
        self != SyncMode::PythonOnly
    }

    /// Whether dependencies are installed in this mode.
    pub open spec fn installs(self) -> bool {
        self == SyncMode::Regular || self == SyncMode::Full
    }
}

/// How much the tools that are started may print.
#[derive(Debug, Clone, Copy, PartialEq, Eq, Structural, Hash)]
pub enum CommandOutput {
    /// Progress is narrated, warnings of the tools are silenced.
    Normal,
    /// Nothing but a final error is shown.
    Quiet,
    /// The tools are asked to explain what they do.
    Verbose,
}

impl Default for CommandOutput {
    fn default() -> (output: CommandOutput)
        ensures
            output == CommandOutput::Normal,
    {
        CommandOutput::Normal
    }
}

/// Which of the two lock artifacts is meant.
#[derive(Debug, Clone, Copy, PartialEq, Eq, Structural, Hash)]
pub enum LockMode {
    /// The artifact without development dependencies.
    Production,
    /// The artifact that includes development dependencies.
    Dev,
}

/// Settings for lock generation. The engine never reads them: they travel
/// with the other options and are handed to the lock driver as they are.
#[derive(Debug, PartialEq, Eq)]
pub struct LockOptions {
    /// Update every package.
    pub update_all: bool,
    /// Update these packages.
    pub update: Vec<String>,
    /// Allow pre-release versions.
    pub pre: bool,
}

impl LockOptions {
    /// Nothing is updated and pre-releases are not allowed.
    pub open spec fn is_plain(&self) -> bool {
        &&& !self.update_all
        &&& self.update@.len() == 0
        &&& !self.pre
    }
}

impl Clone for LockOptions {
    fn clone(&self) -> (copy: LockOptions)
        ensures
            copy.update_all == self.update_all,
            copy.pre == self.pre,
            copy.update@.len() == self.update@.len(),
            forall|i: int| 0 <= i < self.update@.len() ==> copy.update@[i]@ == self.update@[i]@,
    {
        let mut update: Vec<String> = Vec::new();
        let mut at: usize = 0;
        while at < self.update.len()
            invariant
                at <= self.update@.len(),
                update@.len() == at,
                forall|i: int| 0 <= i < at ==> update@[i]@ == self.update@[i]@,
            decreases self.update@.len() - at,
        {
            update.push(self.update[at].clone());
            at = at + 1;
        }
        LockOptions { update_all: self.update_all, update, pre: self.pre }
    }
}

impl Default for LockOptions {
    fn default() -> (options: LockOptions)
        ensures
            options.is_plain(),
    {
        LockOptions { update_all: false, update: Vec::new(), pre: false }
    }
}

/// Everything a caller can choose for one synchronization.
#[derive(Debug, PartialEq, Eq)]
pub struct SyncOptions {
    /// How verbose the run is.
    pub output: CommandOutput,
    /// Install from the development lock artifact when it exists.
    pub dev: bool,
    /// Which phases run.
    pub mode: SyncMode,
    /// Permit destroying an environment that this engine did not create.
    pub force: bool,
    /// Handed through to the lock driver.
    pub lock_options: LockOptions,
}

impl SyncOptions {
    /// The options a caller gets without choosing anything.
    pub open spec fn is_plain(&self) -> bool {
        &&& self.output == CommandOutput::Normal
        &&& !self.dev
        &&& self.mode == SyncMode::PythonOnly
        &&& !self.force
        &&& self.lock_options.is_plain()
    }

    /// Options that only make sure the environment exists: everything else
    /// is left at its default.
    pub fn python_only() -> (options: SyncOptions)
        ensures
            options.mode == SyncMode::PythonOnly,
            options.is_plain(),
    {
        SyncOptions {
            output: CommandOutput::Normal,
            dev: false,
            mode: SyncMode::PythonOnly,
            force: false,
            lock_options: LockOptions { update_all: false, update: Vec::new(), pre: false },
        }
    }
}

impl Default for SyncOptions {
    fn default() -> (options: SyncOptions)
        ensures
            options.is_plain(),
    {
        SyncOptions::python_only()
    }
}

} // verus!
