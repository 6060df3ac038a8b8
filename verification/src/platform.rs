//! Host-platform model: the operating-system family a launch strategy is
//! selected for, and the environment values the embedding process hands in
//! once at startup.

use vstd::prelude::*;

verus! {

/// The operating-system family the engine is running on. Selects the path
/// separator, the well-known binary locations and the launch strategy.
#[derive(Clone, Copy, Debug, PartialEq, Eq, Structural)]
pub enum Os {
    Linux,
    MacOs,
    Windows,
}

impl Os {
    /// The character separating path components on this family.
    pub fn path_separator(self) -> (r: char)
        ensures
            r == self.spec_path_separator(),
    {
        match self {
            Os::Windows => '\\',
            _ => '/',
        }
    }

    pub open spec fn spec_path_separator(self) -> char {
        if self == Os::Windows {
            '\\'
        } else {
            '/'
        }
    }
}

/// Why an environment variable could not be read.
#[derive(Clone, Copy, Debug, PartialEq, Eq, Structural)]
pub enum EnvVarError {
    NotPresent,
    NotUnicode,
}

/// Environment values read once by the embedding process and passed in by
/// value; the engine itself never touches the process environment.
pub struct HostEnv {
    /// The first restart argument set by the browser's crash reporter,
    /// conventionally the path of the browser binary that spawned us.
    pub crash_reporter_restart_arg: Result<String, EnvVarError>,
    /// The per-machine program files directory, where the host has one.
    pub program_files: Option<String>,
    /// The 32-bit program files directory, where the host has one.
    pub program_files_x86: Option<String>,
}

} // verus!
