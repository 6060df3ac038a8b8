//! Initialization: resolving which profile the calling extension is
//! active in, and the bookkeeping that completes an initialization —
//! recording the resolved profile, parsing the extension version, and
//! the one-shot first-run default-flag update.

use vstd::prelude::*;
use vstd::pervasive::VecAdditionalExecFns;
use crate::state::{AppState, ExtVersion};
use crate::profiles::{
    is_first_profile_with_id, spec_same_entry_but_default, ProfileEntry, ProfilesIniState,
};
use crate::sys::{parse_semver_numbers, semver_numbers_of};
use crate::text::{str_starts_with, views_of};

verus! {

/// The initialize request: the calling extension's identifier and
/// version string, and the profile id where the caller already knows
/// it.
#[derive(Debug)]
pub struct InitializeMessage {
    pub extension_id: String,
    pub extension_version: Option<String>,
    pub profile_id: Option<String>,
}

/// What initialization came to.
#[derive(Debug, PartialEq, Eq)]
pub enum InitOutcome {
    /// Initialization completed; `cached` says whether the profile id
    /// was supplied by the caller rather than discovered by scanning.
    Initialized { cached: bool },
    /// No profile's storage shows the extension.
    Error { message: String },
}

/// The storage-key prefixes of the known browser-family variants; the
/// variants share one literal prefix.
pub open spec fn spec_storage_prefixes() -> Seq<Seq<char>> {
    seq!["moz-extension+++"@, "moz-extension+++"@, "moz-extension+++"@, "moz-extension+++"@]
}

fn extension_storage_prefixes() -> (r: Vec<String>)
    ensures
        views_of(r@) == spec_storage_prefixes(),
{
    let mut v: Vec<String> = Vec::new();
    v.push(String::from_str("moz-extension+++"));  // Firefox
    v.push(String::from_str("moz-extension+++"));  // LibreWolf
    v.push(String::from_str("moz-extension+++"));  // Waterfox
    v.push(String::from_str("moz-extension+++"));  // Zen Browser
    proof {
        assert(views_of(v@) =~~= spec_storage_prefixes());
    }
    v
}

/// Whether a storage child entry marks the extension as present: it
/// begins with a known prefix followed by the extension id.
pub open spec fn spec_name_matches(name: Seq<char>, ext_id: Seq<char>) -> bool {
    exists|k: int|
        0 <= k < spec_storage_prefixes().len() && #[trigger] (spec_storage_prefixes()[k]
            + ext_id).is_prefix_of(name)
}

/// Tests one storage child entry name against every known prefix.
pub fn entry_name_matches(name: &String, extension_id: &String) -> (r: bool)
    ensures
        r == spec_name_matches(name@, extension_id@),
{
    let prefixes = extension_storage_prefixes();
    let n = prefixes.len();
    for k in 0..n
        invariant
            n == prefixes.len(),
            views_of(prefixes@) == spec_storage_prefixes(),
            forall|l: int|
                0 <= l < k ==> !((#[trigger] spec_storage_prefixes()[l]
                    + extension_id@).is_prefix_of(name@)),
    {
        let probe = prefixes[k].clone().concat(extension_id.as_str());
        if str_starts_with(name.as_str(), probe.as_str()) {
            proof {
                assert(probe@ == spec_storage_prefixes()[k as int] + extension_id@);
            }
            return true;
        }
        proof {
            assert(probe@ == spec_storage_prefixes()[k as int] + extension_id@);
        }
    }
    false
}

/// Whether a profile's storage listing shows the extension: the
/// directory could be read and some child entry matches. An unreadable
/// directory is a non-match, not an error.
pub open spec fn spec_listing_matches(listing: Option<Vec<String>>, ext_id: Seq<char>) -> bool {
    match listing {
        Some(names) => exists|i: int|
            0 <= i < names@.len() && #[trigger] spec_name_matches(names@[i]@, ext_id),
        None => false,
    }
}

/// Tests a profile's storage listing for the extension.
pub fn listing_matches(listing: &Option<Vec<String>>, extension_id: &String) -> (r: bool)
    ensures
        r == spec_listing_matches(*listing, extension_id@),
{
    match listing {
        Some(names) => {
            let n = names.len();
            let mut matched = false;
            for i in 0..n
                invariant
                    n == names.len(),
                    matched == exists|j: int|
                        0 <= j < i && #[trigger] spec_name_matches(names@[j]@, extension_id@),
            {
                if entry_name_matches(&names[i], extension_id) {
                    matched = true;
                    proof {
                        assert(spec_name_matches(names@[i as int]@, extension_id@));
                    }
                }
            }
            proof {
                assert(matched == spec_listing_matches(*listing, extension_id@));
            }
            matched
        },
        None => false,
    }
}

/// Whether `i` is the first profile position whose storage listing
/// shows the extension.
pub open spec fn is_first_matching_listing(
    listings: Seq<Option<Vec<String>>>,
    ext_id: Seq<char>,
    i: int,
) -> bool {
    &&& 0 <= i < listings.len()
    &&& spec_listing_matches(listings[i], ext_id)
    &&& forall|j: int| 0 <= j < i ==> !spec_listing_matches(listings[j], ext_id)
}

/// The version recorded for an optional version string: the parsed
/// numeric components, or nothing where the string is absent or
/// unparsable.
pub open spec fn spec_parsed_version(v: Option<String>) -> Option<ExtVersion> {
    match v {
        None => None,
        Some(s) => match semver_numbers_of(s@) {
            Some(t) => Some(ExtVersion { major: t.0, minor: t.1, patch: t.2 }),
            None => None,
        },
    }
}

/// Best-effort parse of the extension's version string; an invalid
/// string is silently dropped.
pub fn parse_extension_version(v: Option<String>) -> (r: Option<ExtVersion>)
    ensures
        r == spec_parsed_version(v),
{
    match v {
        Some(s) => match parse_semver_numbers(&s) {
            Some(t) => Some(ExtVersion { major: t.0, minor: t.1, patch: t.2 }),
            None => None,
        },
        None => None,
    }
}

/// The first-run default-flag update, relative to the first entry `j0`
/// carrying the resolved id: that entry becomes the default, every
/// entry with another id loses the flag, later duplicates of the id
/// keep theirs, and nothing else changes.
pub open spec fn spec_defaults_updated_at(
    pre: Seq<ProfileEntry>,
    post: Seq<ProfileEntry>,
    profile_id: Seq<char>,
    j0: int,
) -> bool {
    &&& post.len() == pre.len()
    &&& forall|k: int|
        0 <= k < pre.len() ==> spec_same_entry_but_default(pre[k], #[trigger] post[k])
    &&& post[j0].default == true
    &&& forall|k: int|
        0 <= k < pre.len() && (#[trigger] pre[k]).id@ != profile_id ==> post[k].default == false
    &&& forall|k: int|
        0 <= k < pre.len() && (#[trigger] pre[k]).id@ == profile_id && k != j0 ==> post[k].default
            == pre[k].default
}

/// Everything the completion of an initialization does to the process
/// state and the profile collection.
pub open spec fn spec_finish_init(
    pre_state: AppState,
    post_state: AppState,
    pre_profiles: ProfilesIniState,
    post_profiles: ProfilesIniState,
    profile_id: Seq<char>,
    ext_id: Seq<char>,
    ext_version: Option<String>,
) -> bool {
    &&& post_state.config == pre_state.config
    &&& post_state.cur_profile_id matches Some(p) && p@ == profile_id
    &&& post_state.internal_extension_id matches Some(e) && e@ == ext_id
    &&& post_state.extension_version == spec_parsed_version(ext_version)
    &&& post_state.first_run == false
    &&& (pre_state.first_run ==> {
        let entries = pre_profiles.profile_entries@;
        &&& forall|j: int|
            is_first_profile_with_id(entries, profile_id, j) ==> spec_defaults_updated_at(
                entries,
                post_profiles.profile_entries@,
                profile_id,
                j,
            )
        &&& ((forall|j: int| 0 <= j < entries.len() ==> (#[trigger] entries[j]).id@ != profile_id)
            ==> post_profiles == pre_profiles)
    })
    &&& (!pre_state.first_run ==> post_profiles == pre_profiles)
}

/// Completes an initialization: records the resolved profile id, the
/// extension identity and its parsed version; on the first run, clears
/// the one-shot flag and makes the resolved profile the single default.
pub fn finish_init(
    state: &mut AppState,
    profiles: &mut ProfilesIniState,
    profile_id: &String,
    internal_ext_id: String,
    ext_version: Option<String>,
)
    ensures
        spec_finish_init(
            *old(state),
            *final(state),
            *old(profiles),
            *final(profiles),
            profile_id@,
            internal_ext_id@,
            ext_version,
        ),
{
    state.cur_profile_id = Some(profile_id.clone());
    state.internal_extension_id = Some(internal_ext_id);
    state.extension_version = parse_extension_version(ext_version);
    if state.first_run {
        state.first_run = false;
        let ghost pre_entries = profiles.profile_entries@;
        let n = profiles.profile_entries.len();
        let mut idx: Option<usize> = None;
        for i in 0..n
            invariant
                n == profiles.profile_entries.len(),
                profiles.profile_entries@ == pre_entries,
                match idx {
                    Some(fi) => is_first_profile_with_id(pre_entries, profile_id@, fi as int),
                    None => forall|l: int|
                        0 <= l < i ==> (#[trigger] pre_entries[l]).id@ != profile_id@,
                },
        {
            if idx.is_none() && profiles.profile_entries[i].id.eq(profile_id) {
                idx = Some(i);
            }
        }
        match idx {
            Some(j0) => {
                for k in 0..n
                    invariant
                        n == profiles.profile_entries.len(),
                        profiles.profile_entries@.len() == pre_entries.len(),
                        (j0 as int) < n as int,
                        is_first_profile_with_id(pre_entries, profile_id@, j0 as int),
                        forall|l: int|
                            0 <= l < k ==> spec_same_entry_but_default(
                                pre_entries[l],
                                #[trigger] profiles.profile_entries@[l],
                            ),
                        forall|l: int|
                            0 <= l < k && (#[trigger] pre_entries[l]).id@ != profile_id@
                                ==> profiles.profile_entries@[l].default == false,
                        forall|l: int|
                            0 <= l < k && (#[trigger] pre_entries[l]).id@ == profile_id@ && l
                                != j0 ==> profiles.profile_entries@[l].default
                                == pre_entries[l].default,
                        k > j0 ==> profiles.profile_entries@[j0 as int].default == true,
                        forall|l: int|
                            k <= l < n ==> #[trigger] profiles.profile_entries@[l]
                                == pre_entries[l],
                {
                    if k == j0 {
                        let e = &profiles.profile_entries[k];
                        let updated = ProfileEntry {
                            id: e.id.clone(),
                            name: e.name.clone(),
                            is_relative: e.is_relative,
                            path: e.path.clone(),
                            default: true,
                        };
                        profiles.profile_entries.set(k, updated);
                    } else if !profiles.profile_entries[k].id.eq(profile_id) {
                        let e = &profiles.profile_entries[k];
                        let updated = ProfileEntry {
                            id: e.id.clone(),
                            name: e.name.clone(),
                            is_relative: e.is_relative,
                            path: e.path.clone(),
                            default: false,
                        };
                        profiles.profile_entries.set(k, updated);
                    }
                }
                proof {
                    assert forall|j: int|
                        is_first_profile_with_id(
                            pre_entries,
                            profile_id@,
                            j,
                        ) implies spec_defaults_updated_at(
                        pre_entries,
                        profiles.profile_entries@,
                        profile_id@,
                        j,
                    ) by {
                        assert(j == j0 as int);
                    }
                }
            },
            None => {
                // No entry carries the resolved id: the registry is left
                // as it is.
            },
        }
    }
}

/// The outcome when no profile matches: the fixed error message, and
/// neither the process state nor the profile collection touched.
pub open spec fn spec_no_profile_outcome(
    r: InitOutcome,
    pre_state: AppState,
    post_state: AppState,
    pre_profiles: ProfilesIniState,
    post_profiles: ProfilesIniState,
) -> bool {
    &&& r matches InitOutcome::Error { message } && message@
        == "Unable to detect current profile."@
    &&& post_state == pre_state
    &&& post_profiles == pre_profiles
}

/// Handles an initialize request. Where the caller supplied a profile
/// id, it is taken as is; otherwise every profile's storage listing is
/// scanned, in collection order, and the first match wins. Where
/// nothing matches, nothing is changed and the caller is told so.
pub fn process_cmd_initialize(
    state: &mut AppState,
    profiles: &mut ProfilesIniState,
    msg: InitializeMessage,
    listings: &Vec<Option<Vec<String>>>,
) -> (r: InitOutcome)
    requires
        listings@.len() == old(profiles).profile_entries@.len(),
    ensures
        msg.profile_id matches Some(pid) ==> spec_finish_init(
            *old(state),
            *final(state),
            *old(profiles),
            *final(profiles),
            pid@,
            msg.extension_id@,
            msg.extension_version,
        ) && r == (InitOutcome::Initialized { cached: true }),
        msg.profile_id is None ==> (forall|i: int|
            is_first_matching_listing(listings@, msg.extension_id@, i)
                ==> spec_finish_init(
                *old(state),
                *final(state),
                *old(profiles),
                *final(profiles),
                old(profiles).profile_entries@[i].id@,
                msg.extension_id@,
                msg.extension_version,
            ) && r == (InitOutcome::Initialized { cached: false })),
        msg.profile_id is None && (forall|j: int|
            0 <= j < listings@.len() ==> !spec_listing_matches(
                #[trigger] listings@[j],
                msg.extension_id@,
            )) ==> spec_no_profile_outcome(
            r,
            *old(state),
            *final(state),
            *old(profiles),
            *final(profiles),
        ),
{
    let InitializeMessage { extension_id, extension_version, profile_id } = msg;
    match profile_id {
        Some(pid) => {
            finish_init(state, profiles, &pid, extension_id, extension_version);
            InitOutcome::Initialized { cached: true }
        },
        None => {
            let n = profiles.profile_entries.len();
            let mut found: Option<usize> = None;
            for i in 0..n
                invariant
                    n == profiles.profile_entries.len(),
                    listings@.len() == n,
                    match found {
                        Some(fi) => is_first_matching_listing(
                            listings@,
                            extension_id@,
                            fi as int,
                        ),
                        None => forall|j: int|
                            0 <= j < i ==> !spec_listing_matches(
                                #[trigger] listings@[j],
                                extension_id@,
                            ),
                    },
            {
                if found.is_none() && listing_matches(&listings[i], &extension_id) {
                    found = Some(i);
                }
            }
            match found {
                Some(fi) => {
                    let pid = profiles.profile_entries[fi].id.clone();
                    finish_init(state, profiles, &pid, extension_id, extension_version);
                    proof {
                        assert forall|i: int|
                            is_first_matching_listing(
                                listings@,
                                extension_id@,
                                i,
                            ) implies i == fi as int by {}
                    }
                    InitOutcome::Initialized { cached: false }
                },
                None => InitOutcome::Error {
                    message: String::from_str("Unable to detect current profile."),
                },
            }
        },
    }
}

/// After a first-run initialization completes for a profile that is
/// present in a collection with pairwise-distinct ids, exactly one
/// entry is the default, and it is that profile.
pub proof fn lemma_first_run_sets_unique_default(
    pre: Seq<ProfileEntry>,
    post: Seq<ProfileEntry>,
    profile_id: Seq<char>,
    j0: int,
)
    requires
        forall|a: int, b: int|
            0 <= a < pre.len() && 0 <= b < pre.len() && a != b ==> (#[trigger] pre[a]).id@ != (
            #[trigger] pre[b]).id@,
        is_first_profile_with_id(pre, profile_id, j0),
        spec_defaults_updated_at(pre, post, profile_id, j0),
    ensures
        post[j0].id@ == profile_id,
        forall|k: int| 0 <= k < post.len() ==> ((#[trigger] post[k]).default <==> k == j0),
{
    assert(spec_same_entry_but_default(pre[j0], post[j0]));
    assert forall|k: int| 0 <= k < post.len() implies ((#[trigger] post[k]).default <==> k
        == j0) by {
        if k != j0 {
            assert(pre[k].id@ != pre[j0].id@);
        }
    }
}

/// Re-running initialization on a non-first-run state alters no
/// default flag: the profile collection is left exactly as it was.
pub proof fn lemma_non_first_run_preserves_profiles(
    pre_state: AppState,
    post_state: AppState,
    pre_profiles: ProfilesIniState,
    post_profiles: ProfilesIniState,
    profile_id: Seq<char>,
    ext_id: Seq<char>,
    ext_version: Option<String>,
)
    requires
        !pre_state.first_run,
        spec_finish_init(
            pre_state,
            post_state,
            pre_profiles,
            post_profiles,
            profile_id,
            ext_id,
            ext_version,
        ),
    ensures
        post_profiles == pre_profiles,
{
}

} // verus!
