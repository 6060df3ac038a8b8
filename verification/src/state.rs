//! Per-process state: created once by the host process and mutated
//! field by field as requests are handled; never persisted here.

use vstd::prelude::*;
use crate::config::Config;

verus! {

/// A parsed extension version: the numeric components of a semantic
/// version.
#[derive(Clone, Copy, Debug, PartialEq, Eq, Structural)]
pub struct ExtVersion {
    pub major: u64,
    pub minor: u64,
    pub patch: u64,
}

/// The host process's mutable state.
#[derive(Debug)]
pub struct AppState {
    /// The operator's configuration.
    pub config: Config,
    /// The profile the extension was resolved to, once known.
    pub cur_profile_id: Option<String>,
    /// The calling extension's internal identifier, once known.
    pub internal_extension_id: Option<String>,
    /// The calling extension's parsed version; an unparsable version
    /// string is dropped, not an error.
    pub extension_version: Option<ExtVersion>,
    /// One-shot: set until the first initialization completes.
    pub first_run: bool,
}

} // verus!
