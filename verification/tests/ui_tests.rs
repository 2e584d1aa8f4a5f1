use waybar_manager::domain::category::ModuleCategory;
use waybar_manager::domain::installed::InstalledModule;
use waybar_manager::domain::module::ModuleUuid;
use waybar_manager::domain::registry::RegistryModule;
use waybar_manager::domain::timestamp::Timestamp;
use waybar_manager::domain::version::ModuleVersion;
use waybar_manager::domain::version_order::{
    combine_order, compare_precedence, compare_versions, order_numbers, order_then, VersionOrder,
};
use waybar_manager::ui::browse::{apply_filters, module_count, selected_category};
use waybar_manager::ui::installed::{position_of, remove_module, update_module_state};
use waybar_manager::widget::format_relative_time;

fn installed(name: &str, enabled: bool) -> InstalledModule {
    let mut module = InstalledModule::new(
        ModuleUuid::try_from(format!("{}@test", name).as_str()).unwrap(),
        ModuleVersion::try_from("1.0.0").unwrap(),
        format!("/test/{}", name),
        format!("custom/{}", name),
        false,
    );
    module.enabled = enabled;
    module
}

fn registry_module(name: &str, category: ModuleCategory) -> RegistryModule {
    RegistryModule {
        uuid: ModuleUuid::try_from(format!("{}@test", name).as_str()).unwrap(),
        name: name.to_string(),
        description: format!("A module called {}", name),
        author: "someone".to_string(),
        category,
        icon: None,
        screenshot: None,
        repo_url: "https://github.com/test/test".to_string(),
        downloads: 0,
        version: None,
        last_updated: None,
        rating: None,
        verified_author: false,
        tags: vec!["Tagged".to_string()],
        checksum: None,
        license: None,
    }
}

#[test]
fn a_new_record_is_enabled() {
    let module = InstalledModule::new(
        ModuleUuid::parse("a@b").unwrap(),
        ModuleVersion::parse("1.2.3").unwrap(),
        "/m/a@b".to_string(),
        "custom/a".to_string(),
        true,
    );
    assert!(module.enabled);
    assert!(module.has_preferences);
    assert_eq!(module.install_path, "/m/a@b");
    assert_eq!(module.waybar_module_name, "custom/a");
}

#[test]
fn update_module_state_changes_the_first_match_only() {
    let mut modules = vec![installed("a", true), installed("b", true), installed("b", true)];
    update_module_state(&mut modules, "b@test", false);
    let states: Vec<bool> = modules.iter().map(|m| m.enabled).collect();
    assert_eq!(states, vec![true, false, true]);
    update_module_state(&mut modules, "missing@test", false);
    assert_eq!(modules.len(), 3);
    assert_eq!(position_of(&modules, "b@test"), Some(1));
    assert_eq!(position_of(&modules, "missing@test"), None);
}

#[test]
fn remove_module_takes_every_match() {
    let mut modules =
        vec![installed("a", true), installed("b", true), installed("c", true), installed("b", false)];
    remove_module(&mut modules, "b@test");
    let names: Vec<String> = modules.iter().map(|m| m.uuid.to_string()).collect();
    assert_eq!(names, vec!["a@test", "c@test"]);
    remove_module(&mut modules, "b@test");
    assert_eq!(modules.len(), 2);
    assert_eq!(waybar_manager::ui::installed::module_count(&modules), 2);
}

#[test]
fn the_picker_maps_entries_to_categories() {
    assert_eq!(selected_category(0), None);
    assert_eq!(selected_category(1), Some(ModuleCategory::System));
    assert_eq!(selected_category(10), Some(ModuleCategory::Weather));
    assert_eq!(selected_category(13), Some(ModuleCategory::Custom));
    assert_eq!(selected_category(14), None);
    assert_eq!(selected_category(u32::MAX), None);
}

#[test]
fn filters_combine_search_and_category() {
    let modules = vec![
        registry_module("weather", ModuleCategory::Weather),
        registry_module("clock", ModuleCategory::Time),
        registry_module("forecast", ModuleCategory::Weather),
    ];
    assert_eq!(apply_filters(&modules, "", None), vec![0, 1, 2]);
    assert_eq!(apply_filters(&modules, "", Some(ModuleCategory::Weather)), vec![0, 2]);
    assert_eq!(apply_filters(&modules, "CLOCK", None), vec![1]);
    assert_eq!(apply_filters(&modules, "tagged", Some(ModuleCategory::Time)), vec![1]);
    assert_eq!(apply_filters(&modules, "weather", Some(ModuleCategory::Time)), Vec::<usize>::new());
    assert_eq!(module_count(&modules, "o", None), 3);
    assert_eq!(module_count(&modules, "fore", None), 1);
    assert_eq!(apply_filters(&Vec::new(), "x", None), Vec::<usize>::new());
}

fn at(seconds: i64) -> Timestamp {
    Timestamp { seconds, nanos: 0 }
}

#[test]
fn relative_time_uses_the_largest_unit() {
    let now = at(1_000_000_000);
    let ago = |seconds: i64| format_relative_time(&at(1_000_000_000 - seconds), &now);
    assert_eq!(ago(0), "Just now");
    assert_eq!(ago(3_599), "Just now");
    assert_eq!(ago(3_600), "1 hour ago");
    assert_eq!(ago(2 * 3_600), "2 hours ago");
    assert_eq!(ago(86_399), "23 hours ago");
    assert_eq!(ago(86_400), "1 day ago");
    assert_eq!(ago(30 * 86_400), "30 days ago");
    assert_eq!(ago(31 * 86_400), "1 month ago");
    assert_eq!(ago(60 * 86_400), "2 months ago");
    assert_eq!(ago(365 * 86_400), "12 months ago");
    assert_eq!(ago(366 * 86_400), "1 year ago");
    assert_eq!(ago(730 * 86_400), "2 years ago");
    assert_eq!(ago(-5), "Just now");
    assert_eq!(ago(-500_000), "Just now");
}

#[test]
fn relative_time_counts_whole_seconds() {
    let date = Timestamp { seconds: 0, nanos: 500_000_000 };
    let now = Timestamp { seconds: 3_600, nanos: 499_999_999 };
    assert_eq!(format_relative_time(&date, &now), "Just now");
    let now = Timestamp { seconds: 3_600, nanos: 500_000_000 };
    assert_eq!(format_relative_time(&date, &now), "1 hour ago");
    let far = format_relative_time(&at(i64::MIN), &at(i64::MAX));
    assert_eq!(far, "584942417355 years ago");
}

fn version(text: &str) -> ModuleVersion {
    ModuleVersion::parse(text).unwrap()
}

#[test]
fn versions_are_ordered_by_numbers_first() {
    assert_eq!(compare_versions(&version("1.5.0"), &version("1.19.0")), VersionOrder::Less);
    assert_eq!(compare_versions(&version("2.0.0"), &version("1.19.9")), VersionOrder::Greater);
    assert_eq!(compare_versions(&version("1.2.3"), &version("1.2.3")), VersionOrder::Equal);
    assert_eq!(compare_versions(&version("1.2.3"), &version("1.2.4")), VersionOrder::Less);
}

#[test]
fn prereleases_come_before_the_release() {
    let chain = [
        "1.0.0-alpha",
        "1.0.0-alpha.1",
        "1.0.0-alpha.beta",
        "1.0.0-beta",
        "1.0.0-beta.2",
        "1.0.0-beta.11",
        "1.0.0-rc.1",
        "1.0.0",
    ];
    for pair in chain.windows(2) {
        assert_eq!(
            compare_versions(&version(pair[0]), &version(pair[1])),
            VersionOrder::Less
        );
        assert_eq!(
            compare_versions(&version(pair[1]), &version(pair[0])),
            VersionOrder::Greater
        );
    }
}

#[test]
fn build_identifiers_order_but_do_not_take_precedence() {
    let plain = version("1.20.0");
    let first = version("1.20.0+bc17664");
    let second = version("1.20.0+c144a98");
    assert_eq!(compare_versions(&plain, &first), VersionOrder::Less);
    assert_eq!(compare_versions(&first, &second), VersionOrder::Less);
    assert_eq!(compare_precedence(&first, &second), VersionOrder::Equal);
    assert_eq!(compare_precedence(&plain, &second), VersionOrder::Equal);
    assert_eq!(compare_precedence(&version("1.0.0-a"), &version("1.0.0+b")), VersionOrder::Less);
}

#[test]
fn orders_combine_left_to_right() {
    assert_eq!(order_numbers(1, 2), VersionOrder::Less);
    assert_eq!(order_numbers(2, 2), VersionOrder::Equal);
    assert_eq!(order_numbers(3, 2), VersionOrder::Greater);
    assert_eq!(order_then(VersionOrder::Equal, VersionOrder::Less), VersionOrder::Less);
    assert_eq!(order_then(VersionOrder::Greater, VersionOrder::Less), VersionOrder::Greater);
    assert_eq!(
        combine_order(VersionOrder::Equal, VersionOrder::Equal, VersionOrder::Greater),
        VersionOrder::Greater
    );
    assert_eq!(
        combine_order(VersionOrder::Equal, VersionOrder::Less, VersionOrder::Greater),
        VersionOrder::Less
    );
    assert_eq!(
        combine_order(VersionOrder::Greater, VersionOrder::Less, VersionOrder::Less),
        VersionOrder::Greater
    );
}

#[test]
fn version_parts_can_be_read() {
    let v = version("1.2.3-rc.1+b5");
    assert_eq!((v.major(), v.minor(), v.patch()), (1, 2, 3));
    assert_eq!(v.pre(), "rc.1");
    assert_eq!(v.build(), "b5");
    let plain = version("0.0.1");
    assert_eq!(plain.pre(), "");
    assert_eq!(plain.build(), "");
}

fn create_test_module(name: &str, enabled: bool) -> InstalledModule {
    InstalledModule {
        uuid: ModuleUuid::try_from(format!("{}@test", name).as_str()).unwrap(),
        version: ModuleVersion::try_from("1.0.0").unwrap(),
        install_path: format!("/test/{}", name),
        enabled,
        waybar_module_name: format!("custom/{}", name),
        has_preferences: false,
    }
}

#[test]
fn test_installed_page_default() {
    let modules: Vec<InstalledModule> = Vec::new();
    assert_eq!(waybar_manager::ui::installed::module_count(&modules), 0);
}

#[test]
fn test_set_modules_updates_count() {
    let modules = vec![create_test_module("weather", true), create_test_module("cpu", false)];
    assert_eq!(waybar_manager::ui::installed::module_count(&modules), 2);
}

#[test]
fn installed_page_test_remove_module() {
    let mut modules =
        vec![create_test_module("module1", true), create_test_module("module2", false)];

    assert_eq!(waybar_manager::ui::installed::module_count(&modules), 2);
    remove_module(&mut modules, "module1@test");
    assert_eq!(waybar_manager::ui::installed::module_count(&modules), 1);
}

#[test]
fn test_browse_page_default() {
    assert!(selected_category(0).is_none());
    assert_eq!(module_count(&Vec::new(), "", selected_category(0)), 0);
}

#[test]
fn test_set_modules_populates_flow_box() {
    let modules = vec![
        registry_module("weather", ModuleCategory::Weather),
        registry_module("cpu", ModuleCategory::Hardware),
    ];
    assert_eq!(module_count(&modules, "", None), 2);
}

#[test]
fn versions_compare_with_the_operators() {
    assert!(version("1.9.0") < version("1.10.0-rc.1"));
    assert!(version("1.10.0-rc.1") < version("1.10.0"));
    assert!(version("1.10.0") > version("1.9.0"));
    assert!(version("1.0.0-alpha") <= version("1.0.0-alpha"));
    assert!(version("1.0.0-alpha.1") >= version("1.0.0-alpha"));
    assert!(!(version("2.0.0") < version("2.0.0")));
    assert_eq!(
        version("1.0.0-beta.2").partial_cmp(&version("1.0.0-beta.11")),
        Some(std::cmp::Ordering::Less)
    );
    assert_eq!(version("1.2.3").partial_cmp(&version("1.2.3")), Some(std::cmp::Ordering::Equal));
    assert!(version("1.2.3") == version("1.2.3").clone());
}
