//! Initialization and profile-resolution behaviour on concrete values.

use profile_launcher::config::Config;
use profile_launcher::initialize::{process_cmd_initialize, InitOutcome, InitializeMessage};
use profile_launcher::initialize::{entry_name_matches, listing_matches, parse_extension_version};
use profile_launcher::profiles::{ProfileEntry, ProfilesIniState};
use profile_launcher::state::{AppState, ExtVersion};

fn entry(id: &str, name: &str, path: &str, default: bool) -> ProfileEntry {
    ProfileEntry {
        id: id.to_string(),
        name: name.to_string(),
        is_relative: true,
        path: path.to_string(),
        default,
    }
}

fn fresh_state(first_run: bool) -> AppState {
    AppState {
        config: Config { browser_profile_dir: None, browser_binary: None },
        cur_profile_id: None,
        internal_extension_id: None,
        extension_version: None,
        first_run,
    }
}

fn three_profiles() -> ProfilesIniState {
    ProfilesIniState {
        profile_entries: vec![
            entry("p0", "Default", "Profiles/p0", true),
            entry("p1", "Work", "Profiles/p1", false),
            entry("p2", "Play", "Profiles/p2", false),
        ],
    }
}

#[test]
fn resolution_picks_first_matching_profile() {
    let mut state = fresh_state(false);
    let mut profiles = three_profiles();
    let listings = vec![
        None,
        Some(vec!["moz-extension+++ext-abc".to_string()]),
        Some(vec!["moz-extension+++ext-abc".to_string()]),
    ];
    let msg = InitializeMessage {
        extension_id: "ext-abc".to_string(),
        extension_version: None,
        profile_id: None,
    };
    let r = process_cmd_initialize(&mut state, &mut profiles, msg, &listings);
    assert_eq!(r, InitOutcome::Initialized { cached: false });
    assert_eq!(state.cur_profile_id, Some("p1".to_string()));
    assert_eq!(state.internal_extension_id, Some("ext-abc".to_string()));
}

#[test]
fn resolution_skips_unreadable_and_nonmatching_storage() {
    let mut state = fresh_state(false);
    let mut profiles = three_profiles();
    let listings = vec![
        Some(vec!["moz-extension+++other-ext".to_string(), "unrelated".to_string()]),
        None,
        Some(vec!["noise".to_string(), "moz-extension+++ext-abc-suffix".to_string()]),
    ];
    let msg = InitializeMessage {
        extension_id: "ext-abc".to_string(),
        extension_version: None,
        profile_id: None,
    };
    let r = process_cmd_initialize(&mut state, &mut profiles, msg, &listings);
    assert_eq!(r, InitOutcome::Initialized { cached: false });
    assert_eq!(state.cur_profile_id, Some("p2".to_string()));
}

#[test]
fn resolution_no_match_mutates_nothing() {
    let mut state = fresh_state(true);
    let mut profiles = three_profiles();
    let listings = vec![None, Some(vec!["moz-extension+++someone-else".to_string()]), None];
    let msg = InitializeMessage {
        extension_id: "ext-abc".to_string(),
        extension_version: Some("1.0.0".to_string()),
        profile_id: None,
    };
    let r = process_cmd_initialize(&mut state, &mut profiles, msg, &listings);
    match r {
        InitOutcome::Error { message } => {
            assert_eq!(message, "Unable to detect current profile.");
        },
        _ => panic!("expected an error outcome"),
    }
    assert!(state.cur_profile_id.is_none());
    assert!(state.internal_extension_id.is_none());
    assert!(state.extension_version.is_none());
    assert!(state.first_run);
    let defaults: Vec<bool> = profiles.profile_entries.iter().map(|p| p.default).collect();
    assert_eq!(defaults, vec![true, false, false]);
}

#[test]
fn cached_profile_id_is_taken_as_is() {
    let mut state = fresh_state(false);
    let mut profiles = three_profiles();
    let listings = vec![None, None, None];
    let msg = InitializeMessage {
        extension_id: "ext-abc".to_string(),
        extension_version: None,
        profile_id: Some("p2".to_string()),
    };
    let r = process_cmd_initialize(&mut state, &mut profiles, msg, &listings);
    assert_eq!(r, InitOutcome::Initialized { cached: true });
    assert_eq!(state.cur_profile_id, Some("p2".to_string()));
}

#[test]
fn first_run_makes_resolved_profile_the_single_default() {
    let mut state = fresh_state(true);
    let mut profiles = three_profiles();
    let listings = vec![None, Some(vec!["moz-extension+++ext-abc".to_string()]), None];
    let msg = InitializeMessage {
        extension_id: "ext-abc".to_string(),
        extension_version: None,
        profile_id: None,
    };
    let r = process_cmd_initialize(&mut state, &mut profiles, msg, &listings);
    assert_eq!(r, InitOutcome::Initialized { cached: false });
    assert!(!state.first_run);
    let defaults: Vec<bool> = profiles.profile_entries.iter().map(|p| p.default).collect();
    assert_eq!(defaults, vec![false, true, false]);
}

#[test]
fn non_first_run_alters_no_default_flags() {
    let mut state = fresh_state(false);
    let mut profiles = three_profiles();
    let listings = vec![None, None, None];
    let msg = InitializeMessage {
        extension_id: "ext-abc".to_string(),
        extension_version: None,
        profile_id: Some("p2".to_string()),
    };
    let r = process_cmd_initialize(&mut state, &mut profiles, msg, &listings);
    assert_eq!(r, InitOutcome::Initialized { cached: true });
    let defaults: Vec<bool> = profiles.profile_entries.iter().map(|p| p.default).collect();
    assert_eq!(defaults, vec![true, false, false]);
}

#[test]
fn duplicate_ids_first_entry_becomes_default_later_ones_keep_theirs() {
    let mut state = fresh_state(true);
    let mut profiles = ProfilesIniState {
        profile_entries: vec![
            entry("dup", "First", "Profiles/a", false),
            entry("dup", "Second", "Profiles/b", true),
            entry("other", "Third", "Profiles/c", true),
        ],
    };
    let listings = vec![None, None, None];
    let msg = InitializeMessage {
        extension_id: "ext-abc".to_string(),
        extension_version: None,
        profile_id: Some("dup".to_string()),
    };
    let r = process_cmd_initialize(&mut state, &mut profiles, msg, &listings);
    assert_eq!(r, InitOutcome::Initialized { cached: true });
    let defaults: Vec<bool> = profiles.profile_entries.iter().map(|p| p.default).collect();
    // The first entry with the id becomes the default, a later entry
    // with the same id is left as it was, and every other id is
    // cleared.
    assert_eq!(defaults, vec![true, true, false]);
}

#[test]
fn extension_version_is_parsed_best_effort() {
    assert_eq!(
        parse_extension_version(Some("1.2.3".to_string())),
        Some(ExtVersion { major: 1, minor: 2, patch: 3 })
    );
    assert_eq!(
        parse_extension_version(Some("10.0.99-beta.1".to_string())),
        Some(ExtVersion { major: 10, minor: 0, patch: 99 })
    );
    assert_eq!(parse_extension_version(Some("not a version".to_string())), None);
    assert_eq!(parse_extension_version(None), None);
}

#[test]
fn invalid_version_is_dropped_silently_during_init() {
    let mut state = fresh_state(false);
    let mut profiles = three_profiles();
    let listings = vec![None, None, None];
    let msg = InitializeMessage {
        extension_id: "ext-abc".to_string(),
        extension_version: Some("bogus".to_string()),
        profile_id: Some("p0".to_string()),
    };
    let r = process_cmd_initialize(&mut state, &mut profiles, msg, &listings);
    assert_eq!(r, InitOutcome::Initialized { cached: true });
    assert_eq!(state.extension_version, None);
}

#[test]
fn entry_name_matching_needs_prefix_and_id() {
    let ext = "ext-abc".to_string();
    assert!(entry_name_matches(&"moz-extension+++ext-abc".to_string(), &ext));
    assert!(entry_name_matches(&"moz-extension+++ext-abc^userContextId=1".to_string(), &ext));
    assert!(!entry_name_matches(&"moz-extension+++ext-ab".to_string(), &ext));
    assert!(!entry_name_matches(&"ext-abc".to_string(), &ext));
    assert!(!entry_name_matches(&"http+++ext-abc".to_string(), &ext));
}

#[test]
fn listing_matching_handles_missing_directories() {
    let ext = "ext-abc".to_string();
    assert!(!listing_matches(&None, &ext));
    assert!(!listing_matches(&Some(vec![]), &ext));
    assert!(listing_matches(
        &Some(vec!["noise".to_string(), "moz-extension+++ext-abc".to_string()]),
        &ext
    ));
}
