//! The in-memory profile registry: entries handed in by the registry
//! collaborator, resolved against the configuration, and mutated only in
//! their `default` flag by first-run bookkeeping.

use vstd::prelude::*;
use crate::platform::Os;
use crate::config::Config;
use crate::text::{join_path, spec_join};

verus! {

/// One profile: identity, display name, and a storage path, relative to
/// the profile-directory root or absolute; carries the registry's
/// default flag.
#[derive(Debug)]
pub struct ProfileEntry {
    pub id: String,
    pub name: String,
    pub is_relative: bool,
    pub path: String,
    pub default: bool,
}

impl ProfileEntry {
    /// The absolute storage path of this profile.
    pub open spec fn spec_full_path(self, config: Config, os: Os, default_dir: Seq<char>) -> Seq<
        char,
    > {
        if self.is_relative {
            spec_join(config.spec_profile_dir(default_dir), os, self.path@)
        } else {
            self.path@
        }
    }

    /// The absolute storage path of this profile: a relative path is
    /// resolved against the profile-directory root.
    pub fn full_path(&self, config: &Config, os: Os, default_dir: &String) -> (r: String)
        ensures
            r@ == self.spec_full_path(*config, os, default_dir@),
    {
        if self.is_relative {
            let root = config.browser_profile_dir(default_dir);
            join_path(&root, os, self.path.as_str())
        } else {
            self.path.clone()
        }
    }
}

/// Whether two entries agree on everything but the default flag.
pub open spec fn spec_same_entry_but_default(a: ProfileEntry, b: ProfileEntry) -> bool {
    a.id == b.id && a.name == b.name && a.is_relative == b.is_relative && a.path == b.path
}

/// The in-memory profile registry: an ordered collection; resolution
/// uses the order as a tie-break.
#[derive(Debug)]
pub struct ProfilesIniState {
    pub profile_entries: Vec<ProfileEntry>,
}

/// Whether `j` is the first index whose entry carries `id`.
pub open spec fn is_first_profile_with_id(
    entries: Seq<ProfileEntry>,
    id: Seq<char>,
    j: int,
) -> bool {
    &&& 0 <= j < entries.len()
    &&& entries[j].id@ == id
    &&& forall|l: int| 0 <= l < j ==> entries[l].id@ != id
}

/// The per-profile extension-storage root: the per-origin storage
/// directory under the profile directory.
pub open spec fn spec_storage_dir_path(
    profile: ProfileEntry,
    config: Config,
    os: Os,
    default_dir: Seq<char>,
) -> Seq<char> {
    spec_join(
        spec_join(profile.spec_full_path(config, os, default_dir), os, "storage"@),
        os,
        "default"@,
    )
}

/// The directory whose children signal which extensions are active in
/// this profile.
pub fn storage_dir_path(
    profile: &ProfileEntry,
    config: &Config,
    os: Os,
    default_dir: &String,
) -> (r: String)
    ensures
        r@ == spec_storage_dir_path(*profile, *config, os, default_dir@),
{
    let base = profile.full_path(config, os, default_dir);
    let storage = join_path(&base, os, "storage");
    join_path(&storage, os, "default")
}

} // verus!
