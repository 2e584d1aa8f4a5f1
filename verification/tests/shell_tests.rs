use waybar_manager::domain::installed::InstalledModule;
use waybar_manager::domain::module::ModuleUuid;
use waybar_manager::domain::version::ModuleVersion;
use waybar_manager::services::preferences::{
    preference, PreferenceEntry, PreferenceField, PreferenceValue, PreferencesSchema,
};
use waybar_manager::shell::handlers::{
    handle_cache_clear_completed, handle_cancel_confirmation, handle_clear_cache,
    handle_close_preferences, handle_confirm_action, handle_detail_install_module,
    handle_dismiss_notification, handle_escape_pressed, handle_focus_search,
    handle_omarchy_theme_changed, handle_open_preferences, handle_open_repo_url,
    handle_preference_changed, handle_preferences_reset_saved, handle_preferences_save_failed,
    handle_refresh_registry, handle_request_confirmation, handle_reset_preferences,
    handle_reset_settings, handle_set_theme_mode, handle_settings_reset_completed,
    handle_show_notification, handle_system_theme_changed, handle_tick, handle_toggle_tray,
    handle_tray_check_updates, handle_tray_quit, handle_tray_show_window, handle_tray_started,
};
use waybar_manager::shell::state::{
    App, Command, ConfirmationAction, NotificationKind, PendingSearch, Screen, ScreenshotState,
    ThemeMode, TrayEvent,
};

fn uuid(text: &str) -> ModuleUuid {
    ModuleUuid::parse(text).unwrap()
}

fn installed(text: &str) -> InstalledModule {
    InstalledModule::new(
        uuid(text),
        ModuleVersion::parse("1.0.0").unwrap(),
        format!("/m/{}", text),
        format!("custom/{}", text),
        true,
    )
}

fn schema() -> PreferencesSchema {
    PreferencesSchema {
        fields: vec![PreferenceField {
            key: "interval".to_string(),
            label: "Interval".to_string(),
            default: PreferenceValue::Integer(60),
        }],
    }
}

fn messages(app: &App) -> Vec<(String, NotificationKind, u64)> {
    app.notifications.iter().map(|n| (n.message.clone(), n.kind, n.created_at)).collect()
}

fn uninstall(text: &str) -> ConfirmationAction {
    ConfirmationAction::UninstallModule { uuid: uuid(text), name: text.to_string() }
}

#[test]
fn the_state_starts_on_the_browse_screen() {
    let app = App::new();
    assert!(matches!(app.screen, Screen::Browse));
    assert!(app.notifications.is_empty());
    assert!(app.confirmation.pending_action.is_none());
    assert_eq!(app.theme_mode, ThemeMode::System);
    assert_eq!(app.spinner_frame, 0);
}

#[test]
fn show_notification_appends() {
    let mut app = App::new();
    handle_show_notification(&mut app, "one".to_string(), NotificationKind::Info, 10);
    handle_show_notification(&mut app, "two".to_string(), NotificationKind::Error, 20);
    assert_eq!(
        messages(&app),
        vec![
            ("one".to_string(), NotificationKind::Info, 10),
            ("two".to_string(), NotificationKind::Error, 20)
        ]
    );
}

#[test]
fn confirmation_is_requested_cancelled_and_confirmed() {
    let mut app = App::new();
    handle_request_confirmation(&mut app, uninstall("weather@test"));
    assert!(app.confirmation.pending_action.is_some());
    handle_cancel_confirmation(&mut app);
    assert!(app.confirmation.pending_action.is_none());
    assert!(matches!(handle_confirm_action(&mut app), Command::Idle));

    handle_request_confirmation(&mut app, uninstall("weather@test"));
    match handle_confirm_action(&mut app) {
        Command::UninstallModule(target) => assert_eq!(target.to_string(), "weather@test"),
        other => panic!("unexpected command {:?}", other),
    }
    assert!(app.confirmation.pending_action.is_none());
    assert_eq!(app.installed.uninstalling.len(), 1);

    handle_request_confirmation(&mut app, uninstall("weather@test"));
    assert!(matches!(handle_confirm_action(&mut app), Command::UninstallModule(_)));
    assert_eq!(app.installed.uninstalling.len(), 1);
    handle_request_confirmation(&mut app, uninstall("clock@test"));
    assert!(matches!(handle_confirm_action(&mut app), Command::UninstallModule(_)));
    assert_eq!(app.installed.uninstalling.len(), 2);
}

#[test]
fn finished_tasks_are_told() {
    let mut app = App::new();
    assert!(matches!(handle_clear_cache(), Command::ClearCache));
    assert!(matches!(handle_reset_settings(), Command::ResetSettings));
    handle_cache_clear_completed(&mut app, Ok(()), 1);
    handle_cache_clear_completed(&mut app, Err("busy".to_string()), 2);
    handle_settings_reset_completed(&mut app, Ok(()), 3);
    handle_settings_reset_completed(&mut app, Err("locked".to_string()), 4);
    assert_eq!(
        messages(&app),
        vec![
            ("Cache cleared successfully".to_string(), NotificationKind::Success, 1),
            ("Failed to clear cache: busy".to_string(), NotificationKind::Error, 2),
            ("Settings reset successfully".to_string(), NotificationKind::Success, 3),
            ("Failed to reset settings: locked".to_string(), NotificationKind::Error, 4),
        ]
    );
}

#[test]
fn dismiss_closes_what_is_in_front() {
    let mut app = App::new();
    handle_show_notification(&mut app, "one".to_string(), NotificationKind::Info, 1);
    handle_show_notification(&mut app, "two".to_string(), NotificationKind::Info, 2);
    app.screen = Screen::ModuleDetail("a@b".to_string());
    app.module_detail.installing = true;
    app.module_detail.screenshot = ScreenshotState::Loaded;
    handle_request_confirmation(&mut app, uninstall("a@b"));

    handle_dismiss_notification(&mut app);
    assert!(app.confirmation.pending_action.is_none());
    assert!(matches!(app.screen, Screen::ModuleDetail(_)));

    handle_dismiss_notification(&mut app);
    assert!(matches!(app.screen, Screen::Browse));
    assert!(!app.module_detail.installing);
    assert_eq!(app.module_detail.screenshot, ScreenshotState::NotLoaded);
    assert_eq!(app.notifications.len(), 2);

    handle_dismiss_notification(&mut app);
    assert_eq!(messages(&app), vec![("two".to_string(), NotificationKind::Info, 2)]);
    handle_dismiss_notification(&mut app);
    handle_dismiss_notification(&mut app);
    assert!(app.notifications.is_empty());
}

#[test]
fn escape_closes_one_thing_at_a_time() {
    let mut app = App::new();
    handle_show_notification(&mut app, "one".to_string(), NotificationKind::Info, 1);
    app.browse.search_query = "weather".to_string();
    app.browse.pending_search = Some(PendingSearch { query: "w".to_string(), since: 0 });
    handle_request_confirmation(&mut app, uninstall("a@b"));
    app.preferences.open_for = Some("a@b".to_string());
    app.preferences.schema = Some(schema());
    app.preferences.values =
        vec![PreferenceEntry { key: "k".to_string(), value: PreferenceValue::Bool(true) }];

    handle_escape_pressed(&mut app);
    assert!(app.preferences.open_for.is_none());
    assert!(app.preferences.schema.is_none());
    assert!(app.preferences.values.is_empty());
    assert!(app.confirmation.pending_action.is_some());

    handle_escape_pressed(&mut app);
    assert!(app.confirmation.pending_action.is_none());
    assert_eq!(app.browse.search_query, "weather");

    handle_escape_pressed(&mut app);
    assert_eq!(app.browse.search_query, "");
    assert!(app.browse.pending_search.is_none());
    assert_eq!(app.notifications.len(), 1);

    handle_escape_pressed(&mut app);
    assert!(app.notifications.is_empty());
}

#[test]
fn escape_clears_the_search_of_the_page_in_front_only() {
    let mut app = App::new();
    app.screen = Screen::Installed;
    app.browse.search_query = "b".to_string();
    app.installed.search_query = "i".to_string();
    handle_escape_pressed(&mut app);
    assert_eq!(app.browse.search_query, "b");
    assert_eq!(app.installed.search_query, "");
    app.screen = Screen::ModuleDetail("a@b".to_string());
    handle_escape_pressed(&mut app);
    assert!(matches!(app.screen, Screen::Browse));
}

#[test]
fn focus_search_leaves_the_list_pages_alone() {
    let mut app = App::new();
    app.screen = Screen::Installed;
    handle_focus_search(&mut app);
    assert!(matches!(app.screen, Screen::Installed));
    app.screen = Screen::Settings;
    handle_focus_search(&mut app);
    assert!(matches!(app.screen, Screen::Browse));
}

#[test]
fn theme_handlers() {
    let mut app = App::new();
    assert!(matches!(handle_system_theme_changed(&mut app, true), Command::Idle));
    assert!(app.system_dark);
    assert!(matches!(handle_omarchy_theme_changed(&mut app), Command::Idle));
    assert!(matches!(handle_set_theme_mode(&mut app, ThemeMode::Omarchy), Command::SaveSettings));
    assert_eq!(app.theme_mode, ThemeMode::Omarchy);
    assert!(matches!(handle_omarchy_theme_changed(&mut app), Command::ReloadOmarchyPalette));
}

#[test]
fn tray_is_switched_on_and_off() {
    let mut app = App::new();
    assert!(matches!(handle_toggle_tray(&mut app, true, 5), Command::SaveSettingsAndStartTray));
    assert!(app.tray_enabled);
    handle_tray_started(&mut app, true);
    assert!(app.tray_running);
    assert!(matches!(handle_toggle_tray(&mut app, true, 6), Command::SaveSettings));
    assert!(matches!(handle_toggle_tray(&mut app, false, 7), Command::SaveSettingsAndStopTray));
    assert!(!app.tray_enabled);
    assert!(!app.tray_running);
    assert_eq!(
        messages(&app),
        vec![
            ("Tray icon enabled".to_string(), NotificationKind::Success, 5),
            ("Tray icon disabled".to_string(), NotificationKind::Info, 7),
        ]
    );
}

#[test]
fn tick_turns_the_spinner_while_loading() {
    let mut app = App::new();
    handle_tick(&mut app, 0, None);
    assert_eq!(app.spinner_frame, 0);
    app.loading = true;
    for expected in [1, 2, 3, 4, 5, 6, 7, 0, 1] {
        handle_tick(&mut app, 0, None);
        assert_eq!(app.spinner_frame, expected);
    }
    app.loading = false;
    app.module_detail.screenshot = ScreenshotState::Loading;
    handle_tick(&mut app, 0, None);
    assert_eq!(app.spinner_frame, 2);
}

#[test]
fn tick_expires_notifications_but_not_errors() {
    let mut app = App::new();
    handle_show_notification(&mut app, "old".to_string(), NotificationKind::Info, 0);
    handle_show_notification(&mut app, "error".to_string(), NotificationKind::Error, 0);
    handle_show_notification(&mut app, "edge".to_string(), NotificationKind::Success, 1_000);
    handle_show_notification(&mut app, "new".to_string(), NotificationKind::Warning, 5_000);
    handle_show_notification(&mut app, "later".to_string(), NotificationKind::Info, 9_000);
    assert!(matches!(handle_tick(&mut app, 6_000, None), Command::Idle));
    let kept: Vec<String> = app.notifications.iter().map(|n| n.message.clone()).collect();
    assert_eq!(kept, vec!["error", "edge", "new", "later"]);
    handle_tick(&mut app, 6_001, None);
    let kept: Vec<String> = app.notifications.iter().map(|n| n.message.clone()).collect();
    assert_eq!(kept, vec!["error", "new", "later"]);
}

#[test]
fn tick_applies_searches_that_are_due() {
    let mut app = App::new();
    app.browse.pending_search = Some(PendingSearch { query: "wea".to_string(), since: 1_000 });
    app.installed.pending_search = Some(PendingSearch { query: "clo".to_string(), since: 1_200 });
    handle_tick(&mut app, 1_299, None);
    assert_eq!(app.browse.search_query, "");
    assert!(app.browse.pending_search.is_some());
    handle_tick(&mut app, 1_300, None);
    assert_eq!(app.browse.search_query, "wea");
    assert!(app.browse.pending_search.is_none());
    assert_eq!(app.installed.search_query, "");
    handle_tick(&mut app, 1_500, None);
    assert_eq!(app.installed.search_query, "clo");
    assert!(app.installed.pending_search.is_none());
}

#[test]
fn tick_passes_tray_events_on() {
    let mut app = App::new();
    assert!(matches!(
        handle_tick(&mut app, 0, Some(TrayEvent::ShowWindow)),
        Command::Tray(TrayEvent::ShowWindow)
    ));
    assert!(matches!(
        handle_tick(&mut app, 0, Some(TrayEvent::Quit)),
        Command::Tray(TrayEvent::Quit)
    ));
    assert!(matches!(handle_tray_show_window(), Command::Idle));
    assert!(matches!(handle_tray_quit(), Command::Quit));
    assert!(matches!(handle_tray_check_updates(&mut app, 3), Command::LoadRegistry));
    assert!(matches!(app.screen, Screen::Updates));
    assert_eq!(
        messages(&app),
        vec![("Checking for updates...".to_string(), NotificationKind::Info, 3)]
    );
}

#[test]
fn repository_urls_pass_the_allow_list_or_are_refused() {
    let mut app = App::new();
    match handle_open_repo_url(&mut app, "https://github.com/a/b".to_string(), 1) {
        Command::OpenUrl(url) => assert_eq!(url, "https://github.com/a/b"),
        other => panic!("unexpected command {:?}", other),
    }
    assert!(app.notifications.is_empty());
    assert!(matches!(
        handle_open_repo_url(&mut app, "javascript:alert(1)".to_string(), 2),
        Command::Idle
    ));
    assert!(matches!(
        handle_open_repo_url(&mut app, "https://u:p@example.com".to_string(), 3),
        Command::Idle
    ));
    assert_eq!(
        messages(&app),
        vec![
            ("Cannot open URL: URL scheme is not allowed".to_string(), NotificationKind::Error, 2),
            ("Cannot open URL: URL contains credentials".to_string(), NotificationKind::Error, 3),
        ]
    );
}

#[test]
fn install_from_the_detail_screen() {
    let mut app = App::new();
    assert!(matches!(handle_detail_install_module(&mut app), Command::Idle));
    app.screen = Screen::ModuleDetail("not a uuid".to_string());
    assert!(matches!(handle_detail_install_module(&mut app), Command::Idle));
    assert!(!app.module_detail.installing);
    app.screen = Screen::ModuleDetail("weather@test".to_string());
    match handle_detail_install_module(&mut app) {
        Command::InstallModule(target) => assert_eq!(target.to_string(), "weather@test"),
        other => panic!("unexpected command {:?}", other),
    }
    assert!(app.module_detail.installing);
    assert!(matches!(handle_refresh_registry(&mut app), Command::RefreshRegistry));
    assert!(app.browse.refreshing);
}

#[test]
fn preferences_open_on_the_merged_values() {
    let mut app = App::new();
    app.installed_modules = vec![installed("clock@test"), installed("weather@test")];
    handle_open_preferences(&mut app, &uuid("missing@test"), Some(schema()), Vec::new(), 1);
    assert!(app.preferences.open_for.is_none());
    assert!(app.notifications.is_empty());

    handle_open_preferences(&mut app, &uuid("weather@test"), None, Vec::new(), 2);
    assert!(app.preferences.open_for.is_none());
    assert_eq!(
        messages(&app),
        vec![(
            "This module has no configurable preferences".to_string(),
            NotificationKind::Info,
            2
        )]
    );

    let stored = vec![PreferenceEntry { key: "city".to_string(), value: PreferenceValue::Bool(true) }];
    handle_open_preferences(&mut app, &uuid("weather@test"), Some(schema()), stored, 3);
    assert_eq!(app.preferences.open_for.as_deref(), Some("weather@test"));
    assert_eq!(app.preferences.module_name, "custom/weather@test");
    assert!(app.preferences.schema.is_some());
    assert_eq!(app.preferences.values.len(), 2);
    assert!(matches!(
        preference(&app.preferences.values, "interval"),
        Some(PreferenceValue::Integer(60))
    ));
}

#[test]
fn preferences_change_reset_and_close() {
    let mut app = App::new();
    app.installed_modules = vec![installed("weather@test")];
    let weather = uuid("weather@test");
    assert!(matches!(
        handle_preference_changed(&mut app, &weather, "interval", PreferenceValue::Integer(5)),
        Command::Idle
    ));
    assert!(matches!(handle_reset_preferences(&mut app, &weather), Command::Idle));
    handle_open_preferences(&mut app, &weather, Some(schema()), Vec::new(), 1);
    assert!(matches!(
        handle_preference_changed(&mut app, &uuid("clock@test"), "interval", PreferenceValue::Integer(5)),
        Command::Idle
    ));
    match handle_preference_changed(&mut app, &weather, "interval", PreferenceValue::Integer(5)) {
        Command::SavePreferences { uuid } => assert_eq!(uuid, "weather@test"),
        other => panic!("unexpected command {:?}", other),
    }
    assert!(matches!(
        preference(&app.preferences.values, "interval"),
        Some(PreferenceValue::Integer(5))
    ));
    match handle_reset_preferences(&mut app, &weather) {
        Command::SaveResetPreferences { uuid } => assert_eq!(uuid, "weather@test"),
        other => panic!("unexpected command {:?}", other),
    }
    assert!(matches!(
        preference(&app.preferences.values, "interval"),
        Some(PreferenceValue::Integer(60))
    ));
    handle_preferences_reset_saved(&mut app, true, 4);
    handle_preferences_reset_saved(&mut app, false, 5);
    handle_preferences_save_failed(&mut app, 6);
    assert_eq!(
        messages(&app),
        vec![
            ("Preferences reset to defaults".to_string(), NotificationKind::Success, 4),
            ("Failed to save preferences".to_string(), NotificationKind::Error, 5),
            ("Failed to save preferences".to_string(), NotificationKind::Error, 6),
        ]
    );
    assert!(matches!(handle_close_preferences(&mut app), Command::Idle));
    assert!(app.preferences.open_for.is_none());
    assert!(app.preferences.schema.is_none());
    assert!(app.preferences.values.is_empty());
}
