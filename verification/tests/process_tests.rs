//! Launch-engine behaviour on concrete values: argument construction,
//! quoting, binary selection and outcome classification.

use profile_launcher::config::Config;
use profile_launcher::platform::{EnvVarError, HostEnv, Os};
use profile_launcher::process::{
    browser_binary_candidates, build_browser_args, interpret_fork_outcome,
    interpret_msix_outcome, interpret_spawn_outcome, plan_browser_launch,
    posix_child_exit_code, quote_browser_arg, select_browser_binary, selected_binary_decision,
    serialize_browser_args, unquote_browser_arg, validated_binary, ChildLaunchOutcome,
    ForkBrowserProcError, ForkOutcome, GetParentProcError, LaunchCommand,
    MsixActivationOutcome, WaitOutcome,
};

fn bare_env() -> HostEnv {
    HostEnv {
        crash_reporter_restart_arg: Err(EnvVarError::NotPresent),
        program_files: None,
        program_files_x86: None,
    }
}

#[test]
fn browser_args_without_url() {
    let args = build_browser_args(&"Personal".to_string(), None);
    assert_eq!(args, vec!["-P".to_string(), "Personal".to_string()]);
}

#[test]
fn browser_args_with_url() {
    let args = build_browser_args(
        &"Personal".to_string(),
        Some("https://example.test/page".to_string()),
    );
    assert_eq!(
        args,
        vec![
            "-P".to_string(),
            "Personal".to_string(),
            "--new-tab".to_string(),
            "https://example.test/page".to_string(),
        ]
    );
}

#[test]
fn quoting_triples_literal_double_quotes() {
    assert_eq!(quote_browser_arg(&"Personal".to_string()), "\"Personal\"");
    assert_eq!(quote_browser_arg(&"".to_string()), "\"\"");
    assert_eq!(quote_browser_arg(&"He said \"hi\"".to_string()), "\"He said \"\"\"hi\"\"\"\"");
}

#[test]
fn quoting_round_trips_profile_names_with_quotes() {
    for name in ["Personal", "He said \"hi\"", "\"", "\"\"\"", "a\"b\"c", ""] {
        let quoted = quote_browser_arg(&name.to_string());
        assert_eq!(unquote_browser_arg(&quoted), Some(name.to_string()));
    }
    assert_eq!(unquote_browser_arg(&"no quotes".to_string()), None);
    assert_eq!(unquote_browser_arg(&"\"".to_string()), None);
}

#[test]
fn serialization_joins_quoted_args_with_spaces() {
    let args = vec!["-P".to_string(), "My \"odd\" profile".to_string()];
    assert_eq!(serialize_browser_args(&args), "\"-P\" \"My \"\"\"odd\"\"\" profile\"");
}

#[test]
fn windows_candidates_honour_environment_overrides() {
    let mut env = bare_env();
    env.program_files = Some("D:\\PF".to_string());
    let c = browser_binary_candidates(Os::Windows, &env);
    assert_eq!(c.len(), 8);
    assert_eq!(c[0], "D:\\PF\\Mozilla Firefox\\firefox.exe");
    assert_eq!(c[4], "C:\\Program Files (x86)\\Mozilla Firefox\\firefox.exe");
}

#[test]
fn linux_candidates_fixed_table() {
    let c = browser_binary_candidates(Os::Linux, &bare_env());
    assert_eq!(c.len(), 15);
    assert_eq!(c[0], "/usr/bin/firefox");
    assert_eq!(
        c[3],
        "/var/lib/flatpak/app/org.mozilla.firefox/current/active/files/bin/firefox"
    );
    assert_eq!(c[14], "/snap/bin/zen-browser");
}

#[test]
fn configured_binary_always_wins_selection() {
    let config = Config {
        browser_profile_dir: None,
        browser_binary: Some("/nonexistent/override/firefox".to_string()),
    };
    let parent = Ok("/some/parent/firefox".to_string());
    let r = select_browser_binary(&config, &parent, Os::MacOs, &bare_env());
    assert_eq!(r, Ok("/nonexistent/override/firefox".to_string()));
}

#[test]
fn parent_path_wins_when_no_override() {
    let config = Config { browser_profile_dir: None, browser_binary: None };
    let parent = Ok("/some/parent/firefox".to_string());
    let r = select_browser_binary(&config, &parent, Os::MacOs, &bare_env());
    assert_eq!(r, Ok("/some/parent/firefox".to_string()));
}

#[test]
fn selection_without_any_source_is_binary_not_found() {
    // None of the well-known locations of the Mac family exist here.
    let config = Config { browser_profile_dir: None, browser_binary: None };
    let parent = Err(GetParentProcError::NoCrashReporterEnvVar(EnvVarError::NotPresent));
    let r = select_browser_binary(&config, &parent, Os::MacOs, &bare_env());
    assert_eq!(r, Err(ForkBrowserProcError::BinaryNotFound));
}

#[test]
fn selection_decision_follows_the_precedence_rule() {
    let no_parent = Err(GetParentProcError::NoCrashReporterEnvVar(EnvVarError::NotPresent));
    let r = selected_binary_decision(
        &Some("/override".to_string()),
        &Ok("/parent".to_string()),
        Some("/table".to_string()),
    );
    assert_eq!(r, Ok("/override".to_string()));
    let r = selected_binary_decision(
        &None,
        &Ok("/parent".to_string()),
        Some("/table".to_string()),
    );
    assert_eq!(r, Ok("/parent".to_string()));
    let r = selected_binary_decision(&None, &no_parent, Some("/table".to_string()));
    assert_eq!(r, Ok("/table".to_string()));
    let r = selected_binary_decision(&None, &no_parent, None);
    assert_eq!(r, Err(ForkBrowserProcError::BinaryNotFound));
}

#[test]
fn validation_falls_back_to_an_existing_alternative() {
    // A missing configured path with an existing well-known path
    // launches with the well-known path, never BinaryNotFound.
    let r = validated_binary(
        "/configured/missing".to_string(),
        false,
        Some("/usr/bin/firefox".to_string()),
        true,
    );
    assert_eq!(r, Ok("/usr/bin/firefox".to_string()));
    let r = validated_binary("/configured/present".to_string(), true, None, false);
    assert_eq!(r, Ok("/configured/present".to_string()));
    let r = validated_binary(
        "/configured/missing".to_string(),
        false,
        Some("/alt/missing".to_string()),
        false,
    );
    assert_eq!(r, Err(ForkBrowserProcError::BinaryDoesNotExist));
    let r = validated_binary("/configured/missing".to_string(), false, None, false);
    assert_eq!(r, Err(ForkBrowserProcError::BinaryDoesNotExist));
}

#[test]
fn missing_configured_binary_is_does_not_exist_not_not_found() {
    let config = Config {
        browser_profile_dir: None,
        browser_binary: Some("/nonexistent/override/firefox".to_string()),
    };
    let parent = Err(GetParentProcError::NoCrashReporterEnvVar(EnvVarError::NotPresent));
    let msix = Err("not a packaged-install platform".to_string());
    let r = plan_browser_launch(
        &config,
        &parent,
        &msix,
        Os::MacOs,
        &bare_env(),
        &"Personal".to_string(),
        None,
    );
    match r {
        Err(ForkBrowserProcError::BinaryDoesNotExist) => {},
        other => panic!("expected BinaryDoesNotExist, got {:?}", other),
    }
}

#[test]
fn msix_plan_bypasses_binary_location() {
    let config = Config { browser_profile_dir: None, browser_binary: None };
    let parent = Err(GetParentProcError::NoCrashReporterEnvVar(EnvVarError::NotPresent));
    let msix = Ok("Mozilla.Firefox_n80bbvh6b1yt2".to_string());
    let r = plan_browser_launch(
        &config,
        &parent,
        &msix,
        Os::Windows,
        &bare_env(),
        &"My \"odd\" profile".to_string(),
        Some("https://example.test".to_string()),
    );
    match r {
        Ok(LaunchCommand::MsixActivate { aumid, arg_string }) => {
            assert_eq!(aumid, "Mozilla.Firefox_n80bbvh6b1yt2!App");
            assert_eq!(
                arg_string,
                "\"-P\" \"My \"\"\"odd\"\"\" profile\" \"--new-tab\" \"https://example.test\""
            );
        },
        other => panic!("expected an activation command, got {:?}", other),
    }
}

#[test]
fn child_exit_codes_report_each_step() {
    assert_eq!(posix_child_exit_code(ChildLaunchOutcome::Spawned), 0);
    assert_eq!(posix_child_exit_code(ChildLaunchOutcome::SpawnFailed), 1);
    assert_eq!(posix_child_exit_code(ChildLaunchOutcome::SessionDetachFailed), 2);
}

#[test]
fn fork_outcome_zero_exit_is_the_only_success() {
    let ok = interpret_fork_outcome(ForkOutcome::Forked {
        wait: WaitOutcome::Exited { code: 0 },
    });
    assert_eq!(ok, Ok(()));
    let bad = interpret_fork_outcome(ForkOutcome::Forked {
        wait: WaitOutcome::Exited { code: 2 },
    });
    assert_eq!(bad, Err(ForkBrowserProcError::BadExitCode));
    let signalled = interpret_fork_outcome(ForkOutcome::Forked { wait: WaitOutcome::NotExited });
    assert_eq!(signalled, Err(ForkBrowserProcError::BadExitCode));
    let failed = interpret_fork_outcome(ForkOutcome::Failed {
        error_message: "resource limit".to_string(),
    });
    assert_eq!(
        failed,
        Err(ForkBrowserProcError::ForkError { error_message: "resource limit".to_string() })
    );
}

#[test]
fn spawn_outcome_wraps_the_os_error() {
    assert_eq!(interpret_spawn_outcome(None), Ok(()));
    assert_eq!(
        interpret_spawn_outcome(Some("access denied".to_string())),
        Err(ForkBrowserProcError::ProcessLaunchError {
            error_message: "access denied".to_string()
        })
    );
}

#[test]
fn msix_outcomes_keep_their_error_kinds() {
    assert_eq!(interpret_msix_outcome(MsixActivationOutcome::Activated), Ok(()));
    assert_eq!(
        interpret_msix_outcome(MsixActivationOutcome::ComInstantiationFailed {
            error_message: "no such class".to_string()
        }),
        Err(ForkBrowserProcError::COMError { error_message: "no such class".to_string() })
    );
    assert_eq!(
        interpret_msix_outcome(MsixActivationOutcome::ActivationFailed {
            error_message: "activation refused".to_string()
        }),
        Err(ForkBrowserProcError::MSIXProcessLaunchError {
            error_message: "activation refused".to_string()
        })
    );
}
