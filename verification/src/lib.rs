//! Profile resolution and cross-platform browser launch engine.
//!
//! The library resolves which browser profile a given extension is active
//! in, locates a browser executable, and plans a fully detached launch of
//! that executable, behind contracts checked by Verus. All operating-system
//! probes (filesystem existence, the user's home directory) sit behind a
//! small trusted boundary; every decision taken on their results is
//! verified.

use vstd::prelude::*;

pub mod config;
pub mod discovery;
pub mod initialize;
pub mod platform;
pub mod process;
pub mod profiles;
pub mod state;
pub mod sys;
pub mod text;

verus! {

} // verus!
