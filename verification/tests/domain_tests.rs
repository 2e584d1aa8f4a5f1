use waybar_manager::domain::bar_section::{BarSection, ModulePosition};
use waybar_manager::domain::category::ModuleCategory;
use waybar_manager::domain::module::{ModuleUuid, ModuleUuidError};
use waybar_manager::domain::registry::{CategoryEntry, CategoryInfo, RegistryIndex, RegistryModule};
use waybar_manager::domain::timestamp::Timestamp;
use waybar_manager::domain::version::ModuleVersion;

#[test]
fn test_bar_section_default_is_center() {
    assert_eq!(BarSection::default(), BarSection::Center);
}

#[test]
fn test_bar_section_array_keys() {
    assert_eq!(BarSection::Left.array_key(), "modules-left");
    assert_eq!(BarSection::Center.array_key(), "modules-center");
    assert_eq!(BarSection::Right.array_key(), "modules-right");
}

#[test]
fn test_bar_section_display() {
    assert_eq!(BarSection::Left.to_string(), "Left");
    assert_eq!(BarSection::Center.to_string(), "Center");
    assert_eq!(BarSection::Right.to_string(), "Right");
}

#[test]
fn test_module_position_new() {
    let pos = ModulePosition::new(BarSection::Right);
    assert_eq!(pos.section, BarSection::Right);
    assert!(pos.order.is_none());
}

#[test]
fn bar_section_all_lists_left_to_right() {
    assert_eq!(
        BarSection::all(),
        vec![BarSection::Left, BarSection::Center, BarSection::Right]
    );
}

#[test]
fn module_position_default_is_center_without_order() {
    let pos = ModulePosition::default();
    assert_eq!(pos.section, BarSection::Center);
    assert!(pos.order.is_none());
}

#[test]
fn parses_valid_string() {
    let uuid = ModuleUuid::try_from("weather-wttr@barforge").unwrap();
    assert_eq!(uuid.to_string(), "weather-wttr@barforge");
}

#[test]
fn module_formats_to_string() {
    let uuid = ModuleUuid::try_from("my-module@my-namespace").unwrap();
    assert_eq!(uuid.to_string(), "my-module@my-namespace");
}

#[test]
fn rejects_missing_at_symbol() {
    let result = ModuleUuid::try_from("invalid-uuid");
    assert!(matches!(result, Err(ModuleUuidError::MissingAtSymbol)));
}

#[test]
fn rejects_empty_name() {
    let result = ModuleUuid::try_from("@namespace");
    assert!(matches!(result, Err(ModuleUuidError::EmptyName)));
}

#[test]
fn rejects_empty_namespace() {
    let result = ModuleUuid::try_from("name@");
    assert!(matches!(result, Err(ModuleUuidError::EmptyNamespace)));
}

#[test]
fn rejects_path_traversal() {
    let result = ModuleUuid::try_from("../@test");
    assert!(matches!(result, Err(ModuleUuidError::PathTraversalAttempt)));
}

#[test]
fn weather_uuid_round_trips() {
    let uuid = ModuleUuid::parse("weather@barforge").unwrap();
    assert_eq!(uuid.name(), "weather");
    assert_eq!(uuid.namespace(), "barforge");
    assert_eq!(uuid.to_string(), "weather@barforge");
    let again = ModuleUuid::parse(&uuid.to_string()).unwrap();
    assert!(again == uuid);
}

#[test]
fn uuid_separator_errors_by_position() {
    assert_eq!(ModuleUuid::parse("").unwrap_err(), ModuleUuidError::MissingAtSymbol);
    assert_eq!(ModuleUuid::parse("no-separator").unwrap_err(), ModuleUuidError::MissingAtSymbol);
    assert_eq!(ModuleUuid::parse("@").unwrap_err(), ModuleUuidError::EmptyName);
    assert_eq!(ModuleUuid::parse("@b@c").unwrap_err(), ModuleUuidError::EmptyName);
    assert_eq!(ModuleUuid::parse("a@").unwrap_err(), ModuleUuidError::EmptyNamespace);
}

#[test]
fn uuid_with_second_separator_is_invalid() {
    assert_eq!(ModuleUuid::parse("a@b@c").unwrap_err(), ModuleUuidError::InvalidCharacter);
    assert_eq!(ModuleUuid::parse("a@@").unwrap_err(), ModuleUuidError::InvalidCharacter);
}

#[test]
fn uuid_traversal_on_either_side_is_rejected() {
    assert_eq!(ModuleUuid::parse("..@test").unwrap_err(), ModuleUuidError::PathTraversalAttempt);
    assert_eq!(ModuleUuid::parse("test@..").unwrap_err(), ModuleUuidError::PathTraversalAttempt);
    assert_eq!(ModuleUuid::parse("a@../b").unwrap_err(), ModuleUuidError::PathTraversalAttempt);
    assert_eq!(ModuleUuid::parse("a..\\b@c").unwrap_err(), ModuleUuidError::PathTraversalAttempt);
}

#[test]
fn uuid_traversal_without_separator_reports_the_separator() {
    assert_eq!(ModuleUuid::parse("../").unwrap_err(), ModuleUuidError::MissingAtSymbol);
    assert_eq!(ModuleUuid::parse("@../x").unwrap_err(), ModuleUuidError::EmptyName);
}

#[test]
fn uuid_invalid_characters_are_rejected() {
    assert_eq!(ModuleUuid::parse("a/b@c").unwrap_err(), ModuleUuidError::InvalidCharacter);
    assert_eq!(ModuleUuid::parse("a@b\\c").unwrap_err(), ModuleUuidError::InvalidCharacter);
    assert_eq!(ModuleUuid::parse("a@b\0").unwrap_err(), ModuleUuidError::InvalidCharacter);
}

#[test]
fn uuid_dots_inside_names_are_accepted() {
    let uuid = ModuleUuid::parse("a..b@c.d").unwrap();
    assert_eq!(uuid.to_string(), "a..b@c.d");
}

#[test]
fn uuid_error_messages() {
    assert_eq!(ModuleUuidError::MissingAtSymbol.to_string(), "missing '@' separator in UUID");
    assert_eq!(ModuleUuidError::EmptyName.to_string(), "empty name in UUID");
    assert_eq!(ModuleUuidError::EmptyNamespace.to_string(), "empty namespace in UUID");
    assert_eq!(
        ModuleUuidError::InvalidCharacter.to_string(),
        "invalid character in UUID (path separator or null)"
    );
    assert_eq!(
        ModuleUuidError::PathTraversalAttempt.to_string(),
        "path traversal attempt detected in UUID"
    );
}

#[test]
fn uuid_equality_is_by_parts() {
    let a = ModuleUuid::parse("clock@core").unwrap();
    let b = ModuleUuid::parse("clock@core").unwrap();
    let c = ModuleUuid::parse("clock@extra").unwrap();
    assert!(a == b);
    assert!(a != c);
    assert!(a.clone() == a);
}

#[test]
fn version_formats_to_string() {
    let version = ModuleVersion::try_from("2.0.1").unwrap();
    assert_eq!(version.to_string(), "2.0.1");
}

#[test]
fn version_keeps_prerelease_and_build() {
    let version = ModuleVersion::parse("1.20.3-alpha.1+build.7").unwrap();
    assert_eq!(version.to_string(), "1.20.3-alpha.1+build.7");
    let plain = ModuleVersion::parse("18446744073709551615.0.10").unwrap();
    assert_eq!(plain.to_string(), "18446744073709551615.0.10");
    let build_only = ModuleVersion::parse("0.0.0+x").unwrap();
    assert_eq!(build_only.to_string(), "0.0.0+x");
}

#[test]
fn version_rejects_what_is_no_version() {
    assert!(ModuleVersion::parse("not-a-version").is_err());
    assert!(ModuleVersion::parse("1.0").is_err());
    assert!(ModuleVersion::parse("1.0.01").is_err());
    assert!(ModuleVersion::parse("").is_err());
}

#[test]
fn timestamp_parses_rfc3339() {
    let stamp = Timestamp::parse_rfc3339("2025-01-01T00:00:00Z").unwrap();
    assert_eq!(stamp.seconds, 1_735_689_600);
    assert_eq!(stamp.nanos, 0);
    let offset = Timestamp::parse_rfc3339("1996-12-19T16:39:57.5-08:00").unwrap();
    assert_eq!(offset.seconds, 851_042_397);
    assert_eq!(offset.nanos, 500_000_000);
    assert!(Timestamp::parse_rfc3339("yesterday").is_err());
}

#[test]
fn category_names_and_order() {
    let all = ModuleCategory::all();
    assert_eq!(all.len(), 13);
    assert_eq!(all[0], ModuleCategory::System);
    assert_eq!(all[12], ModuleCategory::Custom);
    assert_eq!(ModuleCategory::Weather.display_name(), "Weather");
    assert_eq!(ModuleCategory::Productivity.display_name(), "Productivity");
}

fn create_test_uuid(name: &str) -> ModuleUuid {
    ModuleUuid::try_from(format!("{}@test", name).as_str()).unwrap()
}

fn create_test_version() -> ModuleVersion {
    ModuleVersion::try_from("1.0.0").unwrap()
}

fn create_test_registry_module(name: &str) -> RegistryModule {
    RegistryModule {
        uuid: create_test_uuid(name),
        name: name.to_string(),
        description: format!("A test module called {}", name),
        author: "test-author".to_string(),
        category: ModuleCategory::System,
        icon: Some("test-icon-symbolic".to_string()),
        screenshot: None,
        repo_url: "https://github.com/test/test".to_string(),
        downloads: 100,
        version: Some(create_test_version()),
        last_updated: None,
        rating: None,
        verified_author: false,
        tags: Vec::new(),
        checksum: None,
        license: None,
    }
}

#[test]
fn matches_search_by_name() {
    let module = create_test_registry_module("weather-wttr");
    assert!(module.matches_search("weather"));
    assert!(module.matches_search("WEATHER"));
}

#[test]
fn matches_search_by_description() {
    let module = create_test_registry_module("test");
    assert!(module.matches_search("test module"));
}

#[test]
fn matches_search_by_author() {
    let module = create_test_registry_module("test");
    assert!(module.matches_search("test-author"));
}

#[test]
fn matches_search_no_match() {
    let module = create_test_registry_module("test");
    assert!(!module.matches_search("nonexistent"));
}

#[test]
fn matches_search_by_tag() {
    let mut module = create_test_registry_module("test");
    module.tags = vec!["weather".to_string(), "forecast".to_string()];
    assert!(module.matches_search("forecast"));
    assert!(module.matches_search("WEATHER"));
}

#[test]
fn matches_search_empty_query_matches() {
    let module = create_test_registry_module("test");
    assert!(module.matches_search(""));
}

#[test]
fn truncated_description_short() {
    let mut module = create_test_registry_module("test");
    module.description = "Short desc".to_string();
    assert_eq!(module.truncated_description(100), "Short desc");
}

#[test]
fn truncated_description_long() {
    let mut module = create_test_registry_module("test");
    module.description = "This is a very long description".to_string();
    assert_eq!(module.truncated_description(20), "This is a very lo...");
}

#[test]
fn truncated_description_tiny_limit_keeps_only_dots() {
    let mut module = create_test_registry_module("test");
    module.description = "abcdef".to_string();
    assert_eq!(module.truncated_description(2), "...");
    assert_eq!(module.truncated_description(6), "abcdef");
    assert_eq!(module.truncated_description(5), "ab...");
}

#[test]
fn find_by_uuid_returns_match() {
    let module = create_test_registry_module("module-one");
    let uuid = module.uuid.to_string();
    let index = RegistryIndex { version: 1, modules: vec![module], categories: Vec::new() };
    assert!(index.find_by_uuid(&uuid).is_some());
}

#[test]
fn find_by_uuid_returns_none() {
    let index = RegistryIndex { version: 1, modules: Vec::new(), categories: Vec::new() };
    assert!(index.find_by_uuid("missing@uuid").is_none());
}

#[test]
fn find_by_uuid_returns_the_first_of_equals() {
    let mut first = create_test_registry_module("twin");
    first.downloads = 1;
    let mut second = create_test_registry_module("twin");
    second.downloads = 2;
    let other = create_test_registry_module("other");
    let index =
        RegistryIndex { version: 1, modules: vec![other, first, second], categories: Vec::new() };
    assert_eq!(index.find_by_uuid("twin@test").unwrap().downloads, 1);
}

#[test]
fn category_lookup_by_key() {
    let entry = |key: &str, name: &str| CategoryEntry {
        key: key.to_string(),
        info: CategoryInfo { id: None, name: name.to_string(), icon: "i".to_string() },
    };
    let index = RegistryIndex {
        version: 1,
        modules: Vec::new(),
        categories: vec![entry("a", "A"), entry("b", "B"), entry("a", "A2")],
    };
    assert_eq!(index.category("a").unwrap().name, "A");
    assert_eq!(index.category("b").unwrap().name, "B");
    assert!(index.category("c").is_none());
}
