//! The trusted boundary: every call the engine makes into the operating
//! system or an outside crate stands here, behind a contract Verus
//! believes. Everything decided on these results is verified elsewhere.

use vstd::prelude::*;

verus! {

/// What `semver::Version::parse` extracts from a version string: the
/// major, minor and patch numbers, or nothing where the string is not a
/// well-formed semantic version. A function of the characters alone.
pub uninterp spec fn semver_numbers_of(s: Seq<char>) -> Option<(u64, u64, u64)>;

/// Relies on semver::Version::parse: a best-effort parse of a semantic
/// version string, yielding its numeric components; the result depends on
/// the characters of `s` alone.
#[verifier::external_body]
pub(crate) fn parse_semver_numbers(s: &String) -> (r: Option<(u64, u64, u64)>)
    ensures
        r == semver_numbers_of(s@),
{
    semver::Version::parse(s).ok().map(|v| (v.major, v.minor, v.patch))
}

/// Relies on std::path::Path::exists: whether `p` names an entry on the
/// filesystem at this moment. The result depends on the state of the
/// disk, so nothing is promised of it.
#[verifier::external_body]
pub(crate) fn path_exists(p: &String) -> bool {
    std::path::Path::new(p.as_str()).exists()
}

/// Relies on directories::UserDirs: the user's home directory as the
/// operating system reports it, where it is known and is valid Unicode.
/// The result depends on the process environment, so nothing is promised
/// of it.
#[verifier::external_body]
pub(crate) fn user_home_dir() -> Option<String> {
    directories::UserDirs::new().and_then(|d| d.home_dir().to_str().map(|s| s.to_string()))
}

} // verus!
