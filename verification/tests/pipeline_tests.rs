use waybar_manager::domain::module::ModuleUuid;
use waybar_manager::security::path_validation::PathTraversalError;
use waybar_manager::security::script_inspection::RiskLevel;
use waybar_manager::domain::version::ModuleVersion;
use waybar_manager::error::{failure_policy, FailureKind, FailurePolicy};
use waybar_manager::services::paths::PlatformDirs;
use waybar_manager::domain::bar_section::BarSection;
use waybar_manager::services::waybar_style::InjectionDefect;
use waybar_manager::tasks::waybar::CssInjection;
use waybar_manager::tasks::pipeline::{
    inspect_scripts, install_step, new_record, plan_extraction, plan_unwiring, plan_wiring,
    register_module, uninstall_step, validate_download, verify_checksum, DownloadDefect, InFlight,
    InstallCommand, InstallEvent, InstallState, RefusedEntry, UninstallCommand, UninstallEvent,
    UninstallState,
};

#[test]
fn install_runs_through_every_state() {
    let (state, command) = install_step(InstallState::NotInstalled, InstallEvent::Requested);
    assert_eq!((state, command), (InstallState::Downloading, InstallCommand::Download));
    let (state, command) = install_step(state, InstallEvent::StepDone);
    assert_eq!((state, command), (InstallState::Validating, InstallCommand::Validate));
    let (state, command) = install_step(state, InstallEvent::StepDone);
    assert_eq!((state, command), (InstallState::Extracting, InstallCommand::Extract));
    let (state, command) = install_step(state, InstallEvent::StepDone);
    assert_eq!((state, command), (InstallState::Registered, InstallCommand::RegisterAndWire));
    let (state, command) = install_step(state, InstallEvent::StepDone);
    assert_eq!((state, command), (InstallState::Wired, InstallCommand::Finish));
    assert_eq!(
        install_step(state, InstallEvent::StepDone),
        (InstallState::Wired, InstallCommand::Ignore)
    );
}

#[test]
fn install_failures_go_back_to_the_start() {
    assert_eq!(
        install_step(InstallState::Downloading, InstallEvent::StepFailed),
        (InstallState::NotInstalled, InstallCommand::Report)
    );
    assert_eq!(
        install_step(InstallState::Validating, InstallEvent::StepFailed),
        (InstallState::NotInstalled, InstallCommand::Report)
    );
    assert_eq!(
        install_step(InstallState::Extracting, InstallEvent::StepFailed),
        (InstallState::NotInstalled, InstallCommand::RemoveFilesAndReport)
    );
    assert_eq!(
        install_step(InstallState::Registered, InstallEvent::StepFailed),
        (InstallState::Registered, InstallCommand::ReportUnwired)
    );
}

#[test]
fn reports_that_do_not_fit_are_ignored() {
    assert_eq!(
        install_step(InstallState::Downloading, InstallEvent::Requested),
        (InstallState::Downloading, InstallCommand::Ignore)
    );
    assert_eq!(
        install_step(InstallState::NotInstalled, InstallEvent::StepDone),
        (InstallState::NotInstalled, InstallCommand::Ignore)
    );
    assert_eq!(
        install_step(InstallState::Wired, InstallEvent::Requested),
        (InstallState::Wired, InstallCommand::Ignore)
    );
    assert_eq!(
        uninstall_step(UninstallState::Removed, UninstallEvent::Requested),
        (UninstallState::Removed, UninstallCommand::Ignore)
    );
    assert_eq!(
        uninstall_step(UninstallState::Wired, UninstallEvent::StepEnded { ok: true }),
        (UninstallState::Wired, UninstallCommand::Ignore)
    );
}

#[test]
fn uninstall_goes_on_after_a_failed_step() {
    let (state, command) = uninstall_step(UninstallState::Wired, UninstallEvent::Requested);
    assert_eq!((state, command), (UninstallState::Unwiring, UninstallCommand::Unwire));
    let (state, command) = uninstall_step(state, UninstallEvent::StepEnded { ok: false });
    assert_eq!(
        (state, command),
        (UninstallState::Unregistering, UninstallCommand::Unregister { warn: true })
    );
    let (state, command) = uninstall_step(state, UninstallEvent::StepEnded { ok: true });
    assert_eq!(
        (state, command),
        (UninstallState::Removed, UninstallCommand::DeleteFiles { warn: false })
    );
}

#[test]
fn checksum_is_checked_where_one_is_named() {
    assert_eq!(verify_checksum(&None, "abc"), Ok(()));
    assert_eq!(verify_checksum(&Some("abc".to_string()), "abc"), Ok(()));
    assert_eq!(
        verify_checksum(&Some("abc".to_string()), "abd"),
        Err(DownloadDefect::ChecksumMismatch)
    );
    assert_eq!(
        verify_checksum(&Some("abc".to_string()), "ABC"),
        Err(DownloadDefect::ChecksumMismatch)
    );
}

#[test]
fn scripts_are_inspected_one_by_one() {
    let scripts = vec!["echo hi".to_string(), "echo $(date)".to_string(), "wget x".to_string()];
    let report = inspect_scripts(&scripts);
    assert_eq!(report.scripts.len(), 3);
    assert_eq!(report.scripts[0].risk, RiskLevel::Clean);
    assert_eq!(report.scripts[1].risk, RiskLevel::Low);
    assert_eq!(report.scripts[2].risk, RiskLevel::Medium);
    assert_eq!(report.risk, RiskLevel::Medium);
    assert_eq!(inspect_scripts(&Vec::new()).risk, RiskLevel::Clean);
}

#[test]
fn extraction_is_planned_for_the_whole_archive() {
    let entries = vec!["style.css".to_string(), "bin/run.sh".to_string()];
    assert_eq!(
        plan_extraction("/m/a@b", &entries),
        Ok(vec!["/m/a@b/style.css".to_string(), "/m/a@b/bin/run.sh".to_string()])
    );
    assert_eq!(plan_extraction("/m/a@b", &Vec::new()), Ok(Vec::new()));
}

#[test]
fn one_escaping_entry_refuses_the_whole_archive() {
    let entries = vec![
        "style.css".to_string(),
        "../../etc/passwd".to_string(),
        "/etc/shadow".to_string(),
    ];
    assert_eq!(
        plan_extraction("/m/a@b", &entries),
        Err(RefusedEntry { index: 1, error: PathTraversalError::ParentSegment })
    );
}

#[test]
fn a_module_is_under_way_once() {
    let mut in_flight = InFlight::new();
    let weather = ModuleUuid::parse("weather@test").unwrap();
    let clock = ModuleUuid::parse("clock@test").unwrap();
    assert!(!in_flight.contains(&weather));
    assert!(in_flight.try_begin(weather.clone()));
    assert!(in_flight.contains(&weather));
    assert!(!in_flight.try_begin(weather.clone()));
    assert_eq!(in_flight.len(), 1);
    assert!(in_flight.try_begin(clock.clone()));
    assert_eq!(in_flight.len(), 2);
    in_flight.finish(&weather);
    assert!(!in_flight.contains(&weather));
    assert!(in_flight.contains(&clock));
    in_flight.finish(&weather);
    assert_eq!(in_flight.len(), 1);
    assert!(in_flight.try_begin(weather));
}

#[test]
fn a_record_gets_its_directory_from_the_identifier() {
    let dirs = PlatformDirs::from_home("/home/u");
    let record = new_record(
        &dirs,
        ModuleUuid::parse("weather@test").unwrap(),
        ModuleVersion::parse("1.2.3").unwrap(),
        "custom/weather".to_string(),
        false,
    );
    assert_eq!(record.install_path, "/home/u/.local/share/waybar-manager/modules/weather@test");
    assert!(record.enabled);
    assert!(!record.has_preferences);
    assert_eq!(record.version.to_string(), "1.2.3");
}

#[test]
fn registering_replaces_the_record_of_the_same_module() {
    let dirs = PlatformDirs::from_home("/home/u");
    let record = |uuid: &str, version: &str| {
        new_record(
            &dirs,
            ModuleUuid::parse(uuid).unwrap(),
            ModuleVersion::parse(version).unwrap(),
            format!("custom/{}", uuid),
            false,
        )
    };
    let mut modules = Vec::new();
    register_module(&mut modules, record("a@t", "1.0.0"));
    register_module(&mut modules, record("b@t", "1.0.0"));
    register_module(&mut modules, record("a@t", "2.0.0"));
    let shown: Vec<String> =
        modules.iter().map(|m| format!("{} {}", m.uuid.to_string(), m.version.to_string())).collect();
    assert_eq!(shown, vec!["a@t 2.0.0", "b@t 1.0.0"]);
}

#[test]
fn failures_stop_or_are_logged() {
    assert_eq!(failure_policy(FailureKind::PathTraversal), FailurePolicy::AbortWithRollback);
    assert_eq!(failure_policy(FailureKind::ChecksumMismatch), FailurePolicy::AbortWithRollback);
    assert_eq!(failure_policy(FailureKind::MalformedRegistry), FailurePolicy::AbortWithRollback);
    assert_eq!(failure_policy(FailureKind::CachePersistence), FailurePolicy::LogAndContinue);
    assert_eq!(failure_policy(FailureKind::ReloadSignal), FailurePolicy::LogAndContinue);
    assert_eq!(failure_policy(FailureKind::AuthorModulesFetch), FailurePolicy::LogAndContinue);
}

#[test]
fn a_download_is_checked_before_it_is_unpacked() {
    let scripts = vec!["sudo rm -rf /".to_string()];
    let report = validate_download(&Some("abc".to_string()), "abc", &scripts).ok().unwrap();
    assert_eq!(report.risk, RiskLevel::High);
    assert_eq!(report.scripts[0].findings.len(), 2);
    assert!(matches!(
        validate_download(&Some("abc".to_string()), "xyz", &scripts),
        Err(DownloadDefect::ChecksumMismatch)
    ));
    assert_eq!(validate_download(&None, "xyz", &Vec::new()).ok().unwrap().risk, RiskLevel::Clean);
}

#[test]
fn wiring_edits_the_configuration_and_the_stylesheet() {
    let plan = plan_wiring(
        r#"{"modules-right": ["clock"]}"#,
        "custom/weather",
        BarSection::Right,
        "weather@test",
        Some("#weather {}".to_string()),
        Some("a {}\n".to_string()),
    )
    .ok()
    .unwrap();
    let parsed: serde_json::Value = serde_json::from_str(&plan.config).unwrap();
    assert_eq!(parsed["modules-right"].as_array().unwrap().len(), 2);
    assert_eq!(
        plan.stylesheet,
        CssInjection::Write(
            "a {}\n/* waybar-manager:begin weather@test */\n#weather {}\n/* waybar-manager:end weather@test */\n"
                .to_string()
        )
    );
    let plain =
        plan_wiring("{}", "custom/weather", BarSection::Left, "weather@test", None, None).ok().unwrap();
    assert_eq!(plain.stylesheet, CssInjection::NoStyle);
    let refused = plan_wiring(
        "{}",
        "custom/weather",
        BarSection::Left,
        "weather@test",
        Some("/* waybar-manager:end x */".to_string()),
        None,
    )
    .ok()
    .unwrap();
    assert_eq!(refused.stylesheet, CssInjection::Refused(InjectionDefect::MarkerInStyle));
    let failed = plan_wiring("[]", "custom/weather", BarSection::Left, "weather@test", None, None);
    assert_eq!(failed.err().unwrap(), "Waybar config is not a JSON object");
}

#[test]
fn unwiring_does_what_it_can() {
    let sheet = "a {}\n/* waybar-manager:begin weather@test */\n#weather {}\n/* waybar-manager:end weather@test */\n";
    let plan = plan_unwiring("not json {", "custom/weather", "weather@test", Some(sheet.to_string()));
    assert!(plan.config.is_err());
    assert_eq!(plan.stylesheet.as_deref(), Some("a {}\n"));
    let plan = plan_unwiring(r#"{"modules-left": ["custom/weather", "x"]}"#, "custom/weather", "weather@test", None);
    let parsed: serde_json::Value = serde_json::from_str(&plan.config.unwrap()).unwrap();
    assert_eq!(parsed["modules-left"].as_array().unwrap().len(), 1);
    assert!(plan.stylesheet.is_none());
}
