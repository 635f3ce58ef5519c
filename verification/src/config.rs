//! The immutable run configuration: run mode, test names, concurrency level.
//!
//! A configuration value is produced by an external loader (the harness binary
//! parses a textual serialization) and consumed read-only by the executor.

use vstd::prelude::*;

verus! {

/// The language a test program is written in. Currently informational only.
#[derive(Debug)]
pub enum Language {
    Cpp,
}

/// Where tests come from: a local directory layout, or a git repository
/// (declared but not yet actionable; selecting it fails fast).
#[derive(Debug)]
pub enum RunningMode {
    GitRepository {
        address: String,
    },
    Local {
        in_test_path: String,
        out_test_path: String,
        err_test_path: String,
        compiled_program_path: String,
    },
}

impl RunningMode {
    /// A short human-readable name of the mode.
    pub fn mode_name(&self) -> (r: &'static str)
        ensures
            self is GitRepository ==> r@ == "Git repository mode"@,
            self is Local ==> r@ == "Local mode"@,
    {
        match self {
            RunningMode::GitRepository { .. } => "Git repository mode",
            RunningMode::Local { .. } => "Local mode",
        }
    }
}

/// Whether test units may run concurrently, and on how many slots.
#[derive(Debug)]
pub enum Concurrency {
    Disabled,
    Enabled(u64),
}

impl Concurrency {
    /// The number of concurrency slots this policy grants: 1 when disabled,
    /// `n` when enabled with `n` slots.
    pub fn slots(&self) -> (r: u64)
        ensures
            r == self.spec_slots(),
    {
        match self {
            Concurrency::Disabled => 1,
            Concurrency::Enabled(n) => *n,
        }
    }

    pub open spec fn spec_slots(&self) -> u64 {
        match self {
            Concurrency::Disabled => 1,
            Concurrency::Enabled(n) => *n,
        }
    }
}

/// The immutable description of one testing run.
#[derive(Debug)]
pub struct Config {
    pub mode: RunningMode,
    pub test_list: Vec<String>,
    pub language: Language,
    pub concurrency: Concurrency,
}

impl Config {
    pub fn new(
        mode: RunningMode,
        test_list: Vec<String>,
        language: Language,
        concurrency: Concurrency,
    ) -> (r: Config)
        ensures
            r.mode == mode,
            r.test_list == test_list,
            r.language == language,
            r.concurrency == concurrency,
    {
        Config { mode, test_list, language, concurrency }
    }

    pub fn concurrency_settings(&self) -> (r: &Concurrency)
        ensures
            r == &self.concurrency,
    {
        &self.concurrency
    }

    /// The ordered list of test names of this run.
    pub fn test_names(&self) -> (r: &Vec<String>)
        ensures
            r == &self.test_list,
    {
        &self.test_list
    }

    pub fn running_mode(&self) -> (r: &RunningMode)
        ensures
            r == &self.mode,
    {
        &self.mode
    }
}

} // verus!
