use waybar_manager::services::waybar_config::{
    backup_config, backup_file_name, backup_name_for, load_config, reload_waybar, save_config,
    ReadAttempt, SignalAttempt,
};

#[test]
fn backup_name_holds_the_time() {
    assert_eq!(backup_file_name(0), Some("config.jsonc.19700101_000000.backup".to_string()));
    assert_eq!(
        backup_file_name(1_735_689_600 + 13 * 3600 + 5 * 60 + 9),
        Some("config.jsonc.20250101_130509.backup".to_string())
    );
    assert_eq!(backup_file_name(i64::MAX), None);
    assert_eq!(backup_name_for("x"), "config.jsonc.x.backup");
}

#[test]
fn backup_goes_beside_the_configuration() {
    assert_eq!(
        backup_config("/home/u/.config/waybar/config.jsonc", true, 0),
        Ok("/home/u/.config/waybar/config.jsonc.19700101_000000.backup".to_string())
    );
    assert_eq!(
        backup_config("config.jsonc", true, 0),
        Ok("config.jsonc.19700101_000000.backup".to_string())
    );
    assert_eq!(
        backup_config("/home/u/.config/waybar/config.jsonc", false, 0),
        Err("No config to backup".to_string())
    );
    assert!(backup_config("/c", true, i64::MIN).is_err());
}

#[test]
fn load_config_words_its_failures() {
    assert_eq!(
        load_config("/c/config.jsonc", ReadAttempt::Missing),
        Err("Waybar config not found at /c/config.jsonc".to_string())
    );
    assert_eq!(load_config("/c", ReadAttempt::Read("{}".to_string())), Ok("{}".to_string()));
    assert_eq!(
        load_config("/c", ReadAttempt::Failed("permission denied".to_string())),
        Err("Failed to read waybar config: permission denied".to_string())
    );
    assert_eq!(save_config(Ok(())), Ok(()));
    assert_eq!(
        save_config(Err("disk full".to_string())),
        Err("Failed to write waybar config: disk full".to_string())
    );
}

#[test]
fn reload_tolerates_a_bar_that_does_not_run() {
    let exited = |success: bool, code: Option<i32>| SignalAttempt::Exited {
        success,
        code,
        status: "exit status: 2".to_string(),
    };
    assert_eq!(reload_waybar(exited(true, Some(0))), Ok(()));
    assert_eq!(reload_waybar(exited(false, Some(1))), Ok(()));
    assert_eq!(
        reload_waybar(exited(false, Some(2))),
        Err("pkill failed with status: exit status: 2".to_string())
    );
    assert_eq!(
        reload_waybar(exited(false, None)),
        Err("pkill failed with status: exit status: 2".to_string())
    );
    assert_eq!(
        reload_waybar(SignalAttempt::NotSent("No such file".to_string())),
        Err("Failed to send reload signal: No such file".to_string())
    );
}
