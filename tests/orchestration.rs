use luxtorpeda::cli::{
    fetch_after_download, fetch_after_refresh, lock_decision, parse_command_line, CliCommand, FetchAction,
    LockDecision,
};
use luxtorpeda::descriptor::{CommandRule, CommandSpec, Descriptor, InputPrompt, SetupInfo};
use luxtorpeda::launch::{
    ends_with_ignored_suffix, is_ignored_executable, LaunchAction, LaunchError, LaunchEvent, Launcher, Phase,
};
use luxtorpeda::pattern::Pattern;
use luxtorpeda::quirks::{detect_platform, preload_for_launch, restore_gamepad, suppress_gamepad, GamepadEnv};
use luxtorpeda::setup::{setup_step, SetupAction, SetupError, SetupEvent, SetupState};

fn strings(v: &[&str]) -> Vec<String> {
    v.iter().map(|s| s.to_string()).collect()
}

fn setup_info(license: bool, uninstall: bool, prompts: usize) -> SetupInfo {
    SetupInfo {
        license_path: if license { Some("eula.txt".to_string()) } else { None },
        uninstall_command: if uninstall { Some("./uninstall.sh".to_string()) } else { None },
        prompts: (0..prompts)
            .map(|i| InputPrompt { title: "t".to_string(), label: "l".to_string(), key: format!("k{}", i) })
            .collect(),
        command: "./install.sh".to_string(),
        complete_path: "done".to_string(),
    }
}

fn wine_descriptor(setup: Option<SetupInfo>) -> Descriptor {
    Descriptor {
        command: None,
        commands: Some(vec![CommandRule {
            pattern: Pattern::new("^game\\.exe").unwrap(),
            command: CommandSpec { program: "wine".to_string(), args: strings(&["game.exe"]) },
        }]),
        has_choices: false,
        has_download: false,
        setup,
        use_original_command_directory: false,
    }
}

fn is_dialog(a: &LaunchAction) -> bool {
    matches!(
        a,
        LaunchAction::Setup(SetupAction::ShowLicense)
            | LaunchAction::Setup(SetupAction::ShowPrompt(_))
            | LaunchAction::Setup(SetupAction::ReportFailure)
            | LaunchAction::ShowRunError(_)
    )
}

/// Answers every action with success until one that needs more than that
/// (loading the descriptor, the spawn); returns the actions seen and that one.
fn run_to_spawn(l: &mut Launcher, first: LaunchAction, sentinel_exists: bool) -> (Vec<LaunchAction>, LaunchAction) {
    let mut seen = Vec::new();
    let mut a = first;
    loop {
        let ev = match &a {
            LaunchAction::RefreshCatalog => LaunchEvent::CatalogRefreshed(true),
            LaunchAction::LoadDescriptor => return (seen, a),
            LaunchAction::Download => LaunchEvent::Downloaded(true),
            LaunchAction::CheckSetupFiles => {
                LaunchEvent::Setup(SetupEvent::Started { sentinel_exists, license_exists: true })
            }
            LaunchAction::Setup(SetupAction::ShowLicense) => LaunchEvent::Setup(SetupEvent::LicenseAnswered(true)),
            LaunchAction::Setup(SetupAction::ShowPrompt(_)) => LaunchEvent::Setup(SetupEvent::PromptAnswered(true)),
            LaunchAction::Setup(SetupAction::RunInstaller) => LaunchEvent::Setup(SetupEvent::InstallerExited(true)),
            LaunchAction::Setup(SetupAction::CreateSentinel) => LaunchEvent::Setup(SetupEvent::SentinelWritten(true)),
            LaunchAction::RestoreEnvironment => LaunchEvent::Restored,
            _ => return (seen, a),
        };
        seen.push(a);
        a = l.step(ev);
    }
}

fn loaded(inv: &[&str], d: Descriptor) -> Launcher {
    let mut l = Launcher::start(strings(inv)).ok().unwrap();
    let first = l.step(LaunchEvent::Begin);
    let (_, a) = run_to_spawn(&mut l, first, false);
    assert!(matches!(a, LaunchAction::LoadDescriptor));
    l.step(LaunchEvent::DescriptorLoaded(Some(d)));
    l
}

#[test]
fn launch_spawns_resolved_command_with_forwarded_args() {
    let mut l = Launcher::start(strings(&["game.exe", "--fullscreen"])).ok().unwrap();
    let first = l.step(LaunchEvent::Begin);
    let (_, a) = run_to_spawn(&mut l, first, false);
    assert!(matches!(a, LaunchAction::LoadDescriptor));
    let a = l.step(LaunchEvent::DescriptorLoaded(Some(wine_descriptor(None))));
    assert!(matches!(a, LaunchAction::Download));
    let a = l.step(LaunchEvent::Downloaded(true));
    assert!(matches!(a, LaunchAction::RestoreEnvironment));
    match l.step(LaunchEvent::Restored) {
        LaunchAction::Spawn(plan) => {
            assert_eq!(plan.program, "wine");
            assert_eq!(plan.args, strings(&["game.exe", "--fullscreen"]));
            assert_eq!(plan.original_exe, "game.exe");
        }
        _ => panic!("expected a spawn"),
    }
    assert!(matches!(l.step(LaunchEvent::ChildExited(Some(0))), LaunchAction::Exit(0)));
}

#[test]
fn completed_setup_performs_no_dialogs() {
    let mut l = loaded(&["game.exe"], wine_descriptor(Some(setup_info(true, true, 2))));
    let a = l.step(LaunchEvent::Downloaded(true));
    assert!(matches!(a, LaunchAction::CheckSetupFiles));
    let (seen, a) = run_to_spawn(&mut l, a, true);
    assert!(!seen.iter().any(is_dialog));
    assert!(matches!(seen.last(), Some(LaunchAction::RestoreEnvironment)));
    assert!(matches!(a, LaunchAction::Spawn(_)));
}

#[test]
fn setup_runs_once_then_is_skipped() {
    let mut first = Launcher::start(strings(&["game.exe"])).ok().unwrap();
    first.step(LaunchEvent::Begin);
    first.step(LaunchEvent::CatalogRefreshed(true));
    first.step(LaunchEvent::DescriptorLoaded(Some(wine_descriptor(Some(setup_info(true, false, 1))))));
    let mut a = first.step(LaunchEvent::Downloaded(true));
    let mut installs = 0;
    let mut sentinels = 0;
    loop {
        let ev = match &a {
            LaunchAction::CheckSetupFiles => {
                LaunchEvent::Setup(SetupEvent::Started { sentinel_exists: false, license_exists: true })
            }
            LaunchAction::Setup(SetupAction::ShowLicense) => LaunchEvent::Setup(SetupEvent::LicenseAnswered(true)),
            LaunchAction::Setup(SetupAction::ShowPrompt(_)) => LaunchEvent::Setup(SetupEvent::PromptAnswered(true)),
            LaunchAction::Setup(SetupAction::RunInstaller) => {
                installs += 1;
                LaunchEvent::Setup(SetupEvent::InstallerExited(true))
            }
            LaunchAction::Setup(SetupAction::CreateSentinel) => {
                sentinels += 1;
                LaunchEvent::Setup(SetupEvent::SentinelWritten(true))
            }
            _ => break,
        };
        a = first.step(ev);
    }
    assert!(matches!(a, LaunchAction::RestoreEnvironment));
    assert_eq!((installs, sentinels), (1, 1));

    let mut second = loaded(&["game.exe"], wine_descriptor(Some(setup_info(true, false, 1))));
    let a = second.step(LaunchEvent::Downloaded(true));
    assert!(matches!(a, LaunchAction::CheckSetupFiles));
    let (seen, a) = run_to_spawn(&mut second, a, true);
    assert!(!seen.iter().any(is_dialog));
    assert!(!seen.iter().any(|a| matches!(a, LaunchAction::Setup(_))));
    assert!(matches!(a, LaunchAction::Spawn(_)));
}

#[test]
fn setup_step_walks_license_prompts_installer() {
    let s = setup_info(true, false, 2);
    let (st, a) = setup_step(&s, SetupState::NotStarted, SetupEvent::Started { sentinel_exists: false, license_exists: true });
    assert_eq!((st, a), (SetupState::LicenseReview, SetupAction::ShowLicense));
    let (st, a) = setup_step(&s, st, SetupEvent::LicenseAnswered(true));
    assert_eq!((st, a), (SetupState::Prompting(0), SetupAction::ShowPrompt(0)));
    let (st, a) = setup_step(&s, st, SetupEvent::PromptAnswered(true));
    assert_eq!((st, a), (SetupState::Prompting(1), SetupAction::ShowPrompt(1)));
    let (st, a) = setup_step(&s, st, SetupEvent::PromptAnswered(true));
    assert_eq!((st, a), (SetupState::Installing, SetupAction::RunInstaller));
    let (st, a) = setup_step(&s, st, SetupEvent::InstallerExited(true));
    assert_eq!((st, a), (SetupState::Finishing, SetupAction::CreateSentinel));
    let (st, a) = setup_step(&s, st, SetupEvent::SentinelWritten(true));
    assert_eq!((st, a), (SetupState::Complete, SetupAction::Done));
}

#[test]
fn missing_license_file_skips_review() {
    let s = setup_info(true, false, 0);
    let (st, a) = setup_step(&s, SetupState::NotStarted, SetupEvent::Started { sentinel_exists: false, license_exists: false });
    assert_eq!((st, a), (SetupState::Installing, SetupAction::RunInstaller));
}

#[test]
fn rejected_license_runs_uninstall_and_never_completes() {
    let s = setup_info(true, true, 1);
    let (st, a) = setup_step(&s, SetupState::LicenseReview, SetupEvent::LicenseAnswered(false));
    assert_eq!((st, a), (SetupState::Uninstalling, SetupAction::RunUninstall));
    let (st, a) = setup_step(&s, st, SetupEvent::UninstallDone);
    assert_eq!(a, SetupAction::Abort(SetupError::Rejected));
    let (st, a) = setup_step(&s, st, SetupEvent::SentinelWritten(true));
    assert_eq!((st, a), (SetupState::Failed(SetupError::Rejected), SetupAction::Abort(SetupError::Rejected)));

    let s = setup_info(true, false, 1);
    let (_, a) = setup_step(&s, SetupState::LicenseReview, SetupEvent::LicenseAnswered(false));
    assert_eq!(a, SetupAction::Abort(SetupError::Rejected));
}

#[test]
fn failed_prompt_and_failed_installer_abort() {
    let s = setup_info(false, false, 1);
    let (_, a) = setup_step(&s, SetupState::Prompting(0), SetupEvent::PromptAnswered(false));
    assert_eq!(a, SetupAction::Abort(SetupError::PromptFailed));
    let (st, a) = setup_step(&s, SetupState::Installing, SetupEvent::InstallerExited(false));
    assert_eq!(a, SetupAction::ReportFailure);
    let (_, a) = setup_step(&s, st, SetupEvent::FailureReported);
    assert_eq!(a, SetupAction::Abort(SetupError::InstallFailed));
    let (_, a) = setup_step(&s, SetupState::Finishing, SetupEvent::SentinelWritten(false));
    assert_eq!(a, SetupAction::Abort(SetupError::SentinelFailed));
}

#[test]
fn setup_rejection_fails_the_launch() {
    let mut l = loaded(&["game.exe"], wine_descriptor(Some(setup_info(true, true, 0))));
    l.step(LaunchEvent::Downloaded(true));
    let a = l.step(LaunchEvent::Setup(SetupEvent::Started { sentinel_exists: false, license_exists: true }));
    assert!(matches!(a, LaunchAction::Setup(SetupAction::ShowLicense)));
    let a = l.step(LaunchEvent::Setup(SetupEvent::LicenseAnswered(false)));
    assert!(matches!(a, LaunchAction::Setup(SetupAction::RunUninstall)));
    let a = l.step(LaunchEvent::Setup(SetupEvent::UninstallDone));
    assert!(matches!(a, LaunchAction::RestoreEnvironment));
    assert!(matches!(l.step(LaunchEvent::Restored), LaunchAction::Fail(LaunchError::SetupRejected)));
    assert!(matches!(l.step(LaunchEvent::Restored), LaunchAction::Fail(LaunchError::SetupRejected)));
}

#[test]
fn failed_installer_restores_environment_then_fails() {
    let mut l = loaded(&["game.exe"], wine_descriptor(Some(setup_info(false, false, 0))));
    l.step(LaunchEvent::Downloaded(true));
    let a = l.step(LaunchEvent::Setup(SetupEvent::Started { sentinel_exists: false, license_exists: false }));
    assert!(matches!(a, LaunchAction::Setup(SetupAction::RunInstaller)));
    let a = l.step(LaunchEvent::Setup(SetupEvent::InstallerExited(false)));
    assert!(matches!(a, LaunchAction::Setup(SetupAction::ReportFailure)));
    let a = l.step(LaunchEvent::Setup(SetupEvent::FailureReported));
    assert!(matches!(a, LaunchAction::RestoreEnvironment));
    assert!(matches!(l.step(LaunchEvent::Restored), LaunchAction::Fail(LaunchError::SetupInstallFailed)));
}

#[test]
fn failed_directory_change_stops_the_launch() {
    let mut d = wine_descriptor(None);
    d.use_original_command_directory = true;
    let mut l = loaded(&["/games/x/game.exe"], d);
    assert!(matches!(l.step(LaunchEvent::Downloaded(true)), LaunchAction::ChangeToProgramDirectory));
    assert!(matches!(l.step(LaunchEvent::DirectoryChanged(false)), LaunchAction::Fail(LaunchError::DirectoryChangeFailed)));
    assert!(matches!(l.step(LaunchEvent::Restored), LaunchAction::Fail(LaunchError::DirectoryChangeFailed)));
}

fn running(inv: &[&str]) -> Launcher {
    let mut l = loaded(inv, wine_descriptor(None));
    l.step(LaunchEvent::Downloaded(true));
    l.step(LaunchEvent::Restored);
    assert_eq!(l.phase, Phase::Running);
    l
}

#[test]
fn reserved_exit_shows_error_text_and_exits_ten() {
    let mut l = running(&["game.exe"]);
    assert!(matches!(l.step(LaunchEvent::ChildExited(Some(10))), LaunchAction::ReadErrorFile));
    match l.step(LaunchEvent::ErrorFileRead(Some("boom".to_string()))) {
        LaunchAction::ShowRunError(t) => assert_eq!(t, "boom"),
        _ => panic!("expected the error dialog"),
    }
    assert!(matches!(l.step(LaunchEvent::ErrorShown), LaunchAction::Exit(10)));
}

#[test]
fn reserved_exit_with_empty_or_missing_file() {
    let mut l = running(&["game.exe"]);
    l.step(LaunchEvent::ChildExited(Some(10)));
    match l.step(LaunchEvent::ErrorFileRead(Some(String::new()))) {
        LaunchAction::ShowRunError(t) => assert_eq!(t, ""),
        _ => panic!("expected the error dialog"),
    }
    assert!(matches!(l.step(LaunchEvent::ErrorShown), LaunchAction::Exit(10)));

    let mut l = running(&["game.exe"]);
    l.step(LaunchEvent::ChildExited(Some(10)));
    assert!(matches!(l.step(LaunchEvent::ErrorFileRead(None)), LaunchAction::Exit(10)));
}

#[test]
fn other_exit_statuses_pass_through() {
    let mut l = running(&["game.exe"]);
    assert!(matches!(l.step(LaunchEvent::ChildExited(Some(3))), LaunchAction::Exit(3)));
    let mut l = running(&["game.exe"]);
    assert!(matches!(l.step(LaunchEvent::SpawnFailed), LaunchAction::Fail(LaunchError::ChildSpawnFailed)));
}

#[test]
fn launch_failures_stop_the_sequence() {
    let mut l = Launcher::start(strings(&["game.exe"])).ok().unwrap();
    l.step(LaunchEvent::Begin);
    assert!(matches!(l.step(LaunchEvent::CatalogRefreshed(false)), LaunchAction::Fail(LaunchError::CatalogUnavailable)));
    assert!(matches!(l.step(LaunchEvent::Begin), LaunchAction::Fail(LaunchError::CatalogUnavailable)));

    let mut l = Launcher::start(strings(&["game.exe"])).ok().unwrap();
    l.step(LaunchEvent::Begin);
    l.step(LaunchEvent::CatalogRefreshed(true));
    assert!(matches!(l.step(LaunchEvent::DescriptorLoaded(None)), LaunchAction::Fail(LaunchError::UnknownApplication)));

    let mut d = wine_descriptor(None);
    d.commands = None;
    let mut l = loaded(&["game.exe"], d);
    l.step(LaunchEvent::Downloaded(true));
    assert!(matches!(l.step(LaunchEvent::Restored), LaunchAction::Fail(LaunchError::NoCommandResolved)));
}

#[test]
fn choices_directory_and_install_steps_come_in_order() {
    let mut d = wine_descriptor(None);
    d.has_choices = true;
    let mut l = loaded(&["/games/x/game.exe"], d);
    assert_eq!(l.phase, Phase::ChoosingEngine);
    assert!(matches!(l.step(LaunchEvent::EngineChosen(true)), LaunchAction::ConvertDescriptor));
    let mut converted = wine_descriptor(None);
    converted.use_original_command_directory = true;
    converted.has_download = true;
    assert!(matches!(l.step(LaunchEvent::Converted(Some(converted))), LaunchAction::ChangeToProgramDirectory));
    assert!(matches!(l.step(LaunchEvent::DirectoryChanged(true)), LaunchAction::Install));
    assert!(matches!(l.step(LaunchEvent::Installed(false)), LaunchAction::Fail(LaunchError::InstallFailed)));
}

#[test]
fn ignored_helper_is_refused_before_anything() {
    assert!(matches!(
        Launcher::start(strings(&["C:\\x\\IScriptEvaluator.EXE", "a"])),
        Err(LaunchError::IgnoredExecutable)
    ));
    assert!(matches!(Launcher::start(strings(&["iscriptevaluator.exe"])), Err(LaunchError::IgnoredExecutable)));
    assert!(Launcher::start(strings(&["game.exe"])).is_ok());
    assert!(is_ignored_executable("/a/ISCRIPTEVALUATOR.exe"));
    assert!(!is_ignored_executable("iscriptevaluator.exe.bak"));
    assert!(ends_with_ignored_suffix("x/iscriptevaluator.exe"));
    assert!(!ends_with_ignored_suffix("x/IScriptEvaluator.exe"));
}

#[test]
fn gamepad_suppressed_and_restored_exactly() {
    let env = GamepadEnv { virtual_gamepad: Some("1".to_string()), ignore_devices: Some("0x28de/0x1142".to_string()) };
    let (mid, saved) = suppress_gamepad(env, false);
    assert!(mid.virtual_gamepad.is_none() && mid.ignore_devices.is_none());
    let back = restore_gamepad(mid, saved);
    assert_eq!(back.virtual_gamepad.as_deref(), Some("1"));
    assert_eq!(back.ignore_devices.as_deref(), Some("0x28de/0x1142"));

    let env = GamepadEnv { virtual_gamepad: Some("1".to_string()), ignore_devices: None };
    let (mid, saved) = suppress_gamepad(env, false);
    let back = restore_gamepad(mid, saved);
    assert_eq!(back.virtual_gamepad.as_deref(), Some("1"));
    assert!(back.ignore_devices.is_none());
}

#[test]
fn gamepad_untouched_on_handheld_or_when_off() {
    let env = GamepadEnv { virtual_gamepad: Some("1".to_string()), ignore_devices: Some("d".to_string()) };
    let (mid, saved) = suppress_gamepad(env, true);
    assert!(saved.is_none());
    assert_eq!(mid.virtual_gamepad.as_deref(), Some("1"));
    assert_eq!(mid.ignore_devices.as_deref(), Some("d"));
    let env = GamepadEnv { virtual_gamepad: Some("0".to_string()), ignore_devices: None };
    let (mid, saved) = suppress_gamepad(env, false);
    assert!(saved.is_none());
    assert_eq!(mid.virtual_gamepad.as_deref(), Some("0"));
}

#[test]
fn preload_restored_from_saved_original() {
    assert_eq!(preload_for_launch(Some("lib.so".to_string()), Some("other".to_string())).as_deref(), Some("lib.so"));
    assert_eq!(preload_for_launch(None, Some("other".to_string())).as_deref(), Some("other"));
    assert!(preload_for_launch(None, None).is_none());
}

#[test]
fn platform_detection() {
    let one = Some("1".to_string());
    let p = detect_platform(&one, &None, &one);
    assert!(p.handheld && p.gaming_mode);
    let p = detect_platform(&None, &Some("deck".to_string()), &None);
    assert!(p.handheld && !p.gaming_mode);
    let p = detect_platform(&Some("0".to_string()), &Some("alice".to_string()), &one);
    assert!(!p.handheld && !p.gaming_mode);
}

#[test]
fn command_line_dispatch() {
    assert!(matches!(parse_command_line(&strings(&["lux"])), CliCommand::Usage(0)));
    assert!(matches!(parse_command_line(&strings(&["lux", "bogus"])), CliCommand::Usage(1)));
    assert!(matches!(parse_command_line(&strings(&["lux", "run"])), CliCommand::Usage(0)));
    match parse_command_line(&strings(&["lux", "run", "game.exe", "--fullscreen"])) {
        CliCommand::Run { wait, invocation } => {
            assert!(!wait);
            assert_eq!(invocation, strings(&["game.exe", "--fullscreen"]));
        }
        _ => panic!("expected run"),
    }
    assert!(matches!(
        parse_command_line(&strings(&["lux", "wait-before-run", "g"])),
        CliCommand::Run { wait: true, .. }
    ));
    assert!(matches!(
        parse_command_line(&strings(&["lux", "waitforexitandrun", "g"])),
        CliCommand::Run { wait: false, .. }
    ));
    match parse_command_line(&strings(&["lux", "manual-download", "12345"])) {
        CliCommand::ManualDownload(id) => assert_eq!(id, "12345"),
        _ => panic!("expected manual download"),
    }
    assert!(matches!(parse_command_line(&strings(&["lux", "manual-download"])), CliCommand::Usage(0)));
    assert!(matches!(parse_command_line(&strings(&["lux", "mgmt"])), CliCommand::Mgmt));
}

#[test]
fn manual_download_stops_when_refresh_fails() {
    assert_eq!(fetch_after_refresh(false), FetchAction::Exit(1));
    assert_eq!(fetch_after_refresh(true), FetchAction::Download);
    assert_eq!(fetch_after_download(true), FetchAction::Exit(0));
    assert_eq!(fetch_after_download(false), FetchAction::Exit(1));
}

#[test]
fn lock_wait_is_bounded_and_skips_stale_markers() {
    assert_eq!(lock_decision(true, true, 0, 5), LockDecision::Poll);
    assert_eq!(lock_decision(true, true, 5, 5), LockDecision::Proceed);
    assert_eq!(lock_decision(true, false, 0, 5), LockDecision::Proceed);
    assert_eq!(lock_decision(false, true, 0, 5), LockDecision::Proceed);
}
