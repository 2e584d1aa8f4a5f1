use std::path::Path;
use waybar_manager::domain::module::ModuleUuid;
use waybar_manager::services::paths::{
    cache_dir, config_dir, data_dir, join, module_install_path, module_preferences_path,
    modules_dir, preferences_dir, registry_cache_path, waybar_config_dir, waybar_config_path,
    waybar_style_path, PlatformDirs,
};

fn dirs() -> PlatformDirs {
    PlatformDirs {
        home: Some("/home/user".to_string()),
        data: Some("/home/user/.local/share".to_string()),
        config: Some("/home/user/.config".to_string()),
        cache: Some("/home/user/.cache".to_string()),
    }
}

#[test]
fn test_data_dir_exists() {
    let path = data_dir(&dirs());
    assert!(path.contains("waybar-manager"));
}

#[test]
fn test_config_dir_exists() {
    let path = config_dir(&dirs());
    assert!(path.contains("waybar-manager"));
}

#[test]
fn test_modules_dir_under_data() {
    let path = modules_dir(&dirs());
    assert!(Path::new(&path).starts_with(data_dir(&dirs())));
    assert!(path.ends_with("modules"));
}

#[test]
fn test_cache_dir_contains_app_name() {
    let path = cache_dir(&dirs());
    assert!(path.contains("waybar-manager"));
}

#[test]
fn test_registry_cache_path_is_json() {
    let path = registry_cache_path(&dirs());
    assert!(path.ends_with("registry.json"));
}

#[test]
fn test_preferences_dir_under_config() {
    let path = preferences_dir(&dirs());
    assert!(Path::new(&path).starts_with(config_dir(&dirs())));
}

#[test]
fn test_waybar_config_path_is_jsonc() {
    let path = waybar_config_path(&dirs());
    assert!(path.ends_with("config.jsonc"));
}

#[test]
fn test_waybar_style_path_is_css() {
    let path = waybar_style_path(&dirs());
    assert!(path.ends_with("style.css"));
}

#[test]
fn test_module_install_path_contains_uuid() {
    let path = module_install_path(&dirs(), &ModuleUuid::try_from("weather@test").unwrap());
    assert!(path.contains("weather@test"));
}

#[test]
fn test_module_preferences_path_is_json() {
    let path = module_preferences_path(&dirs(), &ModuleUuid::try_from("weather@test").unwrap());
    assert!(path.ends_with("weather@test.json"));
}

#[test]
fn every_path_is_spelled_out() {
    let dirs = dirs();
    assert_eq!(data_dir(&dirs), "/home/user/.local/share/waybar-manager");
    assert_eq!(config_dir(&dirs), "/home/user/.config/waybar-manager");
    assert_eq!(cache_dir(&dirs), "/home/user/.cache/waybar-manager");
    assert_eq!(waybar_config_dir(&dirs), "/home/user/.config/waybar");
    assert_eq!(modules_dir(&dirs), "/home/user/.local/share/waybar-manager/modules");
    assert_eq!(registry_cache_path(&dirs), "/home/user/.cache/waybar-manager/registry.json");
    assert_eq!(preferences_dir(&dirs), "/home/user/.config/waybar-manager/prefs");
    assert_eq!(waybar_config_path(&dirs), "/home/user/.config/waybar/config.jsonc");
    assert_eq!(waybar_style_path(&dirs), "/home/user/.config/waybar/style.css");
    assert_eq!(
        module_install_path(&dirs, &ModuleUuid::parse("weather@test").unwrap()),
        "/home/user/.local/share/waybar-manager/modules/weather@test"
    );
    assert_eq!(
        module_preferences_path(&dirs, &ModuleUuid::parse("weather@test").unwrap()),
        "/home/user/.config/waybar-manager/prefs/weather@test.json"
    );
}

#[test]
fn unknown_directories_fall_back_to_home() {
    let dirs = PlatformDirs::from_home("/root");
    assert_eq!(data_dir(&dirs), "/root/.local/share/waybar-manager");
    assert_eq!(config_dir(&dirs), "/root/.config/waybar-manager");
    assert_eq!(cache_dir(&dirs), "/root/.cache/waybar-manager");
    assert_eq!(waybar_config_path(&dirs), "/root/.config/waybar/config.jsonc");
}

#[test]
fn unknown_home_falls_back_to_the_current_directory() {
    let dirs = PlatformDirs { home: None, data: None, config: None, cache: None };
    assert_eq!(data_dir(&dirs), "./.local/share/waybar-manager");
    assert_eq!(registry_cache_path(&dirs), "./.cache/waybar-manager/registry.json");
}

#[test]
fn join_adds_one_separator() {
    assert_eq!(join("/a", "b"), "/a/b");
    assert_eq!(join("/a/", "b"), "/a/b");
    assert_eq!(join("", "b"), "b");
    assert_eq!(join("/", "b"), "/b");
    assert_eq!(join("/a", ""), "/a/");
    assert_eq!(join("", ""), "");
}

#[test]
fn join_lets_a_rooted_segment_stand_for_itself() {
    assert_eq!(join("/a", "/b"), "/b");
    assert_eq!(join("", "/b/c"), "/b/c");
    assert_eq!(join("/a/", "/"), "/");
}

#[test]
fn join_agrees_with_the_platform() {
    for (base, segment) in
        [("/a", "b"), ("/a/", "b"), ("", "b"), ("/", "b"), ("/a", ""), ("/a", "/b"), ("a/b", "c/d")]
    {
        let expected = std::path::Path::new(base).join(segment);
        assert_eq!(join(base, segment), expected.to_string_lossy());
    }
}

#[test]
fn module_paths_lie_directly_under_their_directories() {
    let dirs = dirs();
    let uuid = ModuleUuid::parse("a..b@c.d").unwrap();
    let install = module_install_path(&dirs, &uuid);
    assert_eq!(install, format!("{}/a..b@c.d", modules_dir(&dirs)));
    assert_eq!(Path::new(&install).parent(), Some(Path::new(&modules_dir(&dirs))));
    let prefs = module_preferences_path(&dirs, &uuid);
    assert_eq!(Path::new(&prefs).parent(), Some(Path::new(&preferences_dir(&dirs))));
}
