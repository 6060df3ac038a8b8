//! Parent-process inspection and the discovery record: the browser
//! binary path inferred from the crash-reporter environment convention,
//! and, on the packaged-install family, the store-package identity
//! decoded from that path. Both are computed once at startup and passed
//! by value wherever they are consulted.

use vstd::prelude::*;
use crate::platform::{EnvVarError, HostEnv, Os};
use crate::process::{
    find_browser_binary, spec_browser_binary_candidates, spec_view_parent_result,
    GetParentProcError,
};
use crate::config::{compute_msix_package, spec_msix_package};
use crate::sys::path_exists;

verus! {

/// Which path the parent-process inspection yields, given whether the
/// crash-reporter path exists and what the well-known-location search
/// found: an existing crash-reporter path wins; else a discovered
/// binary; else the crash-reporter result itself, error or not.
pub open spec fn spec_parent_proc_decision(
    env_var: Result<Seq<char>, EnvVarError>,
    env_path_exists: bool,
    discovered: Option<Seq<char>>,
) -> Result<Seq<char>, GetParentProcError> {
    match env_var {
        Ok(p) => if env_path_exists {
            Ok(p)
        } else {
            match discovered {
                Some(d) => Ok(d),
                None => Ok(p),
            }
        },
        Err(e) => match discovered {
            Some(d) => Ok(d),
            None => Err(GetParentProcError::NoCrashReporterEnvVar(e)),
        },
    }
}

/// The view of the crash-reporter environment value.
pub open spec fn spec_view_env_var(r: Result<String, EnvVarError>) -> Result<
    Seq<char>,
    EnvVarError,
> {
    match r {
        Ok(p) => Ok(p@),
        Err(e) => Err(e),
    }
}

/// Decides the parent-process path from the crash-reporter value, the
/// existence of the path it names, and the well-known-location search
/// result.
pub fn parent_proc_decision(
    env_var: &Result<String, EnvVarError>,
    env_path_exists: bool,
    discovered: Option<String>,
) -> (r: Result<String, GetParentProcError>)
    ensures
        spec_view_parent_result(r) == spec_parent_proc_decision(
            spec_view_env_var(*env_var),
            env_path_exists,
            crate::process::spec_view_opt(discovered),
        ),
{
    match env_var {
        Ok(p) => {
            if env_path_exists {
                Ok(p.clone())
            } else {
                match discovered {
                    Some(d) => Ok(d),
                    None => Ok(p.clone()),
                }
            }
        },
        Err(e) => match discovered {
            Some(d) => Ok(d),
            None => Err(GetParentProcError::NoCrashReporterEnvVar(*e)),
        },
    }
}

/// Whether `b` is a path the parent-process inspection can yield: the
/// crash-reporter path, or a well-known location.
pub open spec fn spec_possible_parent_proc(env: HostEnv, os: Os, b: Seq<char>) -> bool {
    ||| env.crash_reporter_restart_arg matches Ok(p) && b == p@
    ||| spec_browser_binary_candidates(os, env).contains(b)
}

/// Inspects the environment for the parent browser binary: the
/// crash-reporter path where it exists on disk, else the first existing
/// well-known location, else the crash-reporter result itself — so the
/// inspection fails only when the environment variable was unreadable
/// and no well-known binary exists.
pub fn compute_parent_proc(os: Os, env: &HostEnv) -> (r: Result<String, GetParentProcError>)
    ensures
        r matches Ok(b) ==> spec_possible_parent_proc(*env, os, b@),
        r matches Err(ge) ==> env.crash_reporter_restart_arg matches Err(e) && ge
            == GetParentProcError::NoCrashReporterEnvVar(e),
{
    let env_path_exists = match &env.crash_reporter_restart_arg {
        Ok(p) => path_exists(p),
        Err(_) => false,
    };
    let discovered = find_browser_binary(os, env);
    parent_proc_decision(&env.crash_reporter_restart_arg, env_path_exists, discovered)
}

/// The discovery record: computed once per process, immutable after,
/// consulted by binary location and by the packaged-install launch
/// path.
#[derive(Debug)]
pub struct Discovery {
    /// The inferred parent browser binary path, or why it could not be
    /// determined.
    pub parent_proc: Result<String, GetParentProcError>,
    /// The inferred store-package identity, or why it could not be
    /// determined; always a failure off the packaged-install family.
    pub msix_package: Result<String, String>,
}

/// Computes the discovery record: the parent-process inspection, and on
/// the packaged-install family the package identity decoded from the
/// inspected path.
pub fn compute_discovery(os: Os, env: &HostEnv) -> (d: Discovery)
    ensures
        d.parent_proc matches Ok(b) ==> spec_possible_parent_proc(*env, os, b@),
        d.parent_proc matches Err(ge) ==> env.crash_reporter_restart_arg matches Err(e) && ge
            == GetParentProcError::NoCrashReporterEnvVar(e),
        os == Os::Windows ==> (d.parent_proc matches Ok(p) ==> match spec_msix_package(p@) {
            Some(m) => d.msix_package matches Ok(s) && s@ == m,
            None => d.msix_package is Err,
        }),
        os == Os::Windows && d.parent_proc is Err ==> d.msix_package is Err,
        os != Os::Windows ==> d.msix_package is Err,
{
    let parent_proc = compute_parent_proc(os, env);
    let msix_package: Result<String, String> = if os == Os::Windows {
        match &parent_proc {
            Ok(p) => compute_msix_package(p),
            Err(_) => Err(String::from_str("get_parent_proc_path failed")),
        }
    } else {
        Err(String::from_str("not a packaged-install platform"))
    };
    Discovery { parent_proc, msix_package }
}

/// The memoized parent-process inspection result.
pub fn get_parent_proc_path(d: &Discovery) -> (r: &Result<String, GetParentProcError>)
    ensures
        r == &d.parent_proc,
{
    &d.parent_proc
}

/// The memoized store-package identity result.
pub fn get_msix_package(d: &Discovery) -> (r: &Result<String, String>)
    ensures
        r == &d.msix_package,
{
    &d.msix_package
}

} // verus!
