//! Configuration, path handling, profile-directory discovery and
//! package-identity decoding on concrete values.

use profile_launcher::config::{
    compute_msix_package, default_profile_dir_candidates, default_profile_dir_fallback,
    get_default_browser_profile_folder, Config,
};
use profile_launcher::discovery::{
    compute_discovery, get_msix_package, get_parent_proc_path, parent_proc_decision,
};
use profile_launcher::platform::{EnvVarError, HostEnv, Os};
use profile_launcher::process::GetParentProcError;
use profile_launcher::profiles::{storage_dir_path, ProfileEntry};
use profile_launcher::text::{find_char, join_path, rfind_char, split_on_char, str_starts_with};

fn bare_env() -> HostEnv {
    HostEnv {
        crash_reporter_restart_arg: Err(EnvVarError::NotPresent),
        program_files: None,
        program_files_x86: None,
    }
}

#[test]
fn text_helpers_work_on_plain_values() {
    assert_eq!(join_path(&"/home/u".to_string(), Os::Linux, "x"), "/home/u/x");
    assert_eq!(join_path(&"C:\\u".to_string(), Os::Windows, "x"), "C:\\u\\x");
    assert!(str_starts_with("moz-extension+++abc", "moz-extension+++"));
    assert!(!str_starts_with("moz", "moz-extension+++"));
    assert_eq!(find_char("a_b_c", '_'), Some(1));
    assert_eq!(rfind_char("a_b_c", '_'), Some(3));
    assert_eq!(find_char("abc", '_'), None);
    assert_eq!(
        split_on_char(&"C:\\Program Files\\WindowsApps".to_string(), '\\'),
        vec!["C:".to_string(), "Program Files".to_string(), "WindowsApps".to_string()]
    );
    assert_eq!(split_on_char(&"".to_string(), '\\'), vec!["".to_string()]);
}

#[test]
fn config_override_beats_default_root() {
    let config = Config {
        browser_profile_dir: Some("/custom/root".to_string()),
        browser_binary: None,
    };
    let default_dir = "/home/u/.mozilla/firefox".to_string();
    assert_eq!(config.browser_profile_dir(&default_dir), "/custom/root");
    assert_eq!(config.profiles_ini_path(Os::Linux, &default_dir), "/custom/root/profiles.ini");
    assert_eq!(config.installs_ini_path(Os::Linux, &default_dir), "/custom/root/installs.ini");

    let bare = Config::default();
    assert_eq!(bare.browser_profile_dir(&default_dir), "/home/u/.mozilla/firefox");
    assert_eq!(
        bare.profiles_ini_path(Os::Linux, &default_dir),
        "/home/u/.mozilla/firefox/profiles.ini"
    );
    assert!(bare.browser_binary().is_none());
}

#[test]
fn profile_paths_resolve_against_the_root() {
    let config = Config { browser_profile_dir: None, browser_binary: None };
    let default_dir = "/home/u/.mozilla/firefox".to_string();
    let relative = ProfileEntry {
        id: "p0".to_string(),
        name: "Default".to_string(),
        is_relative: true,
        path: "Profiles/p0".to_string(),
        default: false,
    };
    assert_eq!(
        relative.full_path(&config, Os::Linux, &default_dir),
        "/home/u/.mozilla/firefox/Profiles/p0"
    );
    assert_eq!(
        storage_dir_path(&relative, &config, Os::Linux, &default_dir),
        "/home/u/.mozilla/firefox/Profiles/p0/storage/default"
    );
    let absolute = ProfileEntry { is_relative: false, path: "/abs/p1".to_string(), ..relative };
    assert_eq!(absolute.full_path(&config, Os::Linux, &default_dir), "/abs/p1");
}

#[test]
fn msix_package_decoding_accepts_the_store_shape() {
    let path = "C:\\Program Files\\WindowsApps\\Mozilla.Firefox_97.0.1.0_x64__n80bbvh6b1yt2\\VFS\\ProgramFiles\\Firefox Package Root\\firefox.exe";
    assert_eq!(
        compute_msix_package(&path.to_string()),
        Ok("Mozilla.Firefox_n80bbvh6b1yt2".to_string())
    );
}

#[test]
fn msix_package_decoding_accepts_either_separator() {
    let mixed = "C:\\Program Files/WindowsApps/Mozilla.Firefox_97.0.1.0_x64__n80bbvh6b1yt2/firefox.exe";
    assert_eq!(
        compute_msix_package(&mixed.to_string()),
        Ok("Mozilla.Firefox_n80bbvh6b1yt2".to_string())
    );
}

#[test]
fn msix_package_decoding_rejects_other_shapes() {
    let err = Err("Browser path is not in MSIX format".to_string());
    assert_eq!(
        compute_msix_package(&"C:\\Program Files\\Mozilla Firefox\\firefox.exe".to_string()),
        err
    );
    assert_eq!(
        compute_msix_package(
            &"C:\\Program Files\\WindowsApps\\NoUnderscoresHere\\firefox.exe".to_string()
        ),
        err
    );
    assert_eq!(compute_msix_package(&"relative\\path\\only".to_string()), err);
    assert_eq!(compute_msix_package(&"".to_string()), err);
}

#[test]
fn linux_profile_dir_candidates_in_precedence_order() {
    let home = "/nonexistent-home-for-tests".to_string();
    let msix = Err("not a packaged-install platform".to_string());
    let c = default_profile_dir_candidates(Os::Linux, &home, &msix);
    assert_eq!(c.len(), 12);
    assert_eq!(c[0], "/nonexistent-home-for-tests/.var/app/org.mozilla.firefox/.mozilla/firefox");
    assert_eq!(c[4], "/nonexistent-home-for-tests/.mozilla/firefox");
    assert_eq!(c[11], "/nonexistent-home-for-tests/.zen-browser");
}

#[test]
fn windows_profile_dir_uses_package_cache_for_store_installs() {
    let home = "C:\\Users\\u".to_string();
    let msix = Ok("Mozilla.Firefox_n80bbvh6b1yt2".to_string());
    let c = default_profile_dir_candidates(Os::Windows, &home, &msix);
    assert_eq!(c.len(), 4);
    assert_eq!(
        c[0],
        "C:\\Users\\u\\AppData\\Local\\Packages\\Mozilla.Firefox_n80bbvh6b1yt2\\LocalCache\\Roaming\\Mozilla\\Firefox"
    );
    let plain = default_profile_dir_candidates(
        Os::Windows,
        &home,
        &Err("no package".to_string()),
    );
    assert_eq!(plain[0], "C:\\Users\\u\\AppData\\Roaming\\Mozilla\\Firefox");
}

#[test]
fn default_profile_dir_falls_back_to_firefox() {
    let home = "/nonexistent-home-for-tests".to_string();
    let msix = Err("not a packaged-install platform".to_string());
    assert_eq!(
        default_profile_dir_fallback(Os::Linux, &home, &msix),
        "/nonexistent-home-for-tests/.mozilla/firefox"
    );
    // No candidate directory exists under this home, so discovery lands
    // on the fallback.
    assert_eq!(
        get_default_browser_profile_folder(Os::Linux, &home, &msix),
        "/nonexistent-home-for-tests/.mozilla/firefox"
    );
    assert_eq!(
        default_profile_dir_fallback(Os::MacOs, &home, &msix),
        "/nonexistent-home-for-tests/Library/Application Support/Firefox"
    );
}

#[test]
fn parent_proc_decision_prefers_existing_crash_reporter_path() {
    let env_var = Ok("/from/crash/reporter".to_string());
    let r = parent_proc_decision(&env_var, true, Some("/discovered".to_string()));
    assert_eq!(r, Ok("/from/crash/reporter".to_string()));
    // A missing crash-reporter path yields the discovered binary.
    let r = parent_proc_decision(&env_var, false, Some("/discovered".to_string()));
    assert_eq!(r, Ok("/discovered".to_string()));
    // With nothing discovered the crash-reporter value is kept, even missing.
    let r = parent_proc_decision(&env_var, false, None);
    assert_eq!(r, Ok("/from/crash/reporter".to_string()));
    // An unreadable variable with nothing discovered keeps its error.
    let r = parent_proc_decision(&Err(EnvVarError::NotUnicode), false, None);
    assert_eq!(
        r,
        Err(GetParentProcError::NoCrashReporterEnvVar(EnvVarError::NotUnicode))
    );
}

#[test]
fn discovery_records_both_results() {
    // None of the Mac-family well-known locations exist here, and no
    // crash-reporter value is present, so inspection reports its error.
    let d = compute_discovery(Os::MacOs, &bare_env());
    assert_eq!(
        get_parent_proc_path(&d),
        &Err(GetParentProcError::NoCrashReporterEnvVar(EnvVarError::NotPresent))
    );
    assert!(get_msix_package(&d).is_err());

    // A crash-reporter path that does not exist is still reported when
    // nothing better is found.
    let env = HostEnv {
        crash_reporter_restart_arg: Ok("/nonexistent/parent/firefox".to_string()),
        program_files: None,
        program_files_x86: None,
    };
    let d = compute_discovery(Os::MacOs, &env);
    assert_eq!(get_parent_proc_path(&d), &Ok("/nonexistent/parent/firefox".to_string()));
}

#[test]
fn windows_discovery_decodes_the_package_from_the_parent_path() {
    let env = HostEnv {
        crash_reporter_restart_arg: Ok(
            "C:\\Program Files\\WindowsApps\\Mozilla.Firefox_97.0.1.0_x64__n80bbvh6b1yt2\\firefox.exe"
                .to_string(),
        ),
        program_files: None,
        program_files_x86: None,
    };
    let d = compute_discovery(Os::Windows, &env);
    assert_eq!(
        get_parent_proc_path(&d),
        &Ok(
            "C:\\Program Files\\WindowsApps\\Mozilla.Firefox_97.0.1.0_x64__n80bbvh6b1yt2\\firefox.exe"
                .to_string()
        )
    );
    assert_eq!(get_msix_package(&d), &Ok("Mozilla.Firefox_n80bbvh6b1yt2".to_string()));
}
