use waybar_manager::domain::bar_section::BarSection;
use waybar_manager::json::{JsonMember, JsonValue};
use waybar_manager::services::waybar_config::{
    add_module, add_module_to_document, remove_module, remove_module_from_document, ConfigDefect,
};

const SAMPLE_CONFIG: &str = r#"{
    "layer": "top",
    "position": "top",
    "modules-left": ["sway/workspaces"],
    "modules-center": ["clock"],
    "modules-right": ["battery", "network"]
}"#;

const SECTIONS_ONLY: &str = r#"{"modules-left": ["sway/workspaces"], "modules-center": ["clock"], "modules-right": ["battery","network"]}"#;

fn names(parsed: &serde_json::Value, key: &str) -> Vec<String> {
    parsed[key].as_array().unwrap().iter().map(|v| v.as_str().unwrap().to_string()).collect()
}

#[test]
fn test_add_module_to_left() {
    let result = add_module(SAMPLE_CONFIG, "custom/weather", BarSection::Left).unwrap();
    assert!(result.contains("custom/weather"));

    let parsed: serde_json::Value = serde_json::from_str(&result).unwrap();
    let left = parsed["modules-left"].as_array().unwrap();
    assert!(left.iter().any(|v| v == "custom/weather"));
}

#[test]
fn test_add_module_to_center() {
    let result = add_module(SAMPLE_CONFIG, "custom/music", BarSection::Center).unwrap();

    let parsed: serde_json::Value = serde_json::from_str(&result).unwrap();
    let center = parsed["modules-center"].as_array().unwrap();
    assert!(center.iter().any(|v| v == "custom/music"));
}

#[test]
fn test_add_module_to_right() {
    let result = add_module(SAMPLE_CONFIG, "custom/cpu", BarSection::Right).unwrap();

    let parsed: serde_json::Value = serde_json::from_str(&result).unwrap();
    let right = parsed["modules-right"].as_array().unwrap();
    assert!(right.iter().any(|v| v == "custom/cpu"));
}

#[test]
fn test_add_module_idempotent() {
    let result1 = add_module(SAMPLE_CONFIG, "clock", BarSection::Center).unwrap();
    let result2 = add_module(&result1, "clock", BarSection::Center).unwrap();

    let parsed: serde_json::Value = serde_json::from_str(&result2).unwrap();
    let center = parsed["modules-center"].as_array().unwrap();
    let clock_count = center.iter().filter(|v| v.as_str() == Some("clock")).count();
    assert_eq!(clock_count, 1);
}

#[test]
fn waybar_config_test_remove_module() {
    let result = remove_module(SAMPLE_CONFIG, "clock").unwrap();

    let parsed: serde_json::Value = serde_json::from_str(&result).unwrap();
    let center = parsed["modules-center"].as_array().unwrap();
    assert!(!center.iter().any(|v| v == "clock"));
}

#[test]
fn test_remove_module_from_any_section() {
    let result = remove_module(SAMPLE_CONFIG, "battery").unwrap();

    let parsed: serde_json::Value = serde_json::from_str(&result).unwrap();
    let right = parsed["modules-right"].as_array().unwrap();
    assert!(!right.iter().any(|v| v == "battery"));
}

#[test]
fn test_remove_nonexistent_module() {
    let result = remove_module(SAMPLE_CONFIG, "nonexistent").unwrap();
    let original: serde_json::Value = serde_json::from_str(SAMPLE_CONFIG).unwrap();
    let new: serde_json::Value = serde_json::from_str(&result).unwrap();

    assert_eq!(
        original["modules-left"].as_array().unwrap().len(),
        new["modules-left"].as_array().unwrap().len()
    );
}

#[test]
fn test_add_module_creates_missing_array() {
    let config = r#"{"layer": "top"}"#;
    let result = add_module(config, "custom/test", BarSection::Left).unwrap();

    let parsed: serde_json::Value = serde_json::from_str(&result).unwrap();
    assert!(parsed["modules-left"].is_array());
}

#[test]
fn add_module_to_left_appends_and_leaves_the_rest() {
    let result = add_module(SECTIONS_ONLY, "custom/weather", BarSection::Left).unwrap();
    let parsed: serde_json::Value = serde_json::from_str(&result).unwrap();
    assert_eq!(names(&parsed, "modules-left"), vec!["sway/workspaces", "custom/weather"]);
    assert_eq!(names(&parsed, "modules-center"), vec!["clock"]);
    assert_eq!(names(&parsed, "modules-right"), vec!["battery", "network"]);
    assert_eq!(parsed.as_object().unwrap().len(), 3);
}

#[test]
fn remove_clock_changes_only_the_center() {
    let result = remove_module(SECTIONS_ONLY, "clock").unwrap();
    let parsed: serde_json::Value = serde_json::from_str(&result).unwrap();
    assert_eq!(names(&parsed, "modules-left"), vec!["sway/workspaces"]);
    assert!(names(&parsed, "modules-center").is_empty());
    assert_eq!(names(&parsed, "modules-right"), vec!["battery", "network"]);
}

#[test]
fn remove_absent_module_keeps_every_array() {
    let result = remove_module(SECTIONS_ONLY, "absent").unwrap();
    let before: serde_json::Value = serde_json::from_str(SECTIONS_ONLY).unwrap();
    let after: serde_json::Value = serde_json::from_str(&result).unwrap();
    assert_eq!(before, after);
}

#[test]
fn add_module_twice_lists_it_once() {
    let once = add_module(SECTIONS_ONLY, "custom/weather", BarSection::Right).unwrap();
    let twice = add_module(&once, "custom/weather", BarSection::Right).unwrap();
    assert_eq!(once, twice);
    let parsed: serde_json::Value = serde_json::from_str(&twice).unwrap();
    assert_eq!(names(&parsed, "modules-right"), vec!["battery", "network", "custom/weather"]);
}

#[test]
fn add_module_writes_indented_json() {
    let result = add_module("{}", "clock", BarSection::Center).unwrap();
    assert_eq!(result, "{\n  \"modules-center\": [\n    \"clock\"\n  ]\n}");
}

#[test]
fn add_module_reads_over_comments() {
    let config = "// bar\n{\n  /* left side */\n  \"modules-left\": [\"a\"], // trailing\n}";
    let result = add_module(config, "b", BarSection::Left).unwrap();
    assert!(!result.contains("//"));
    let parsed: serde_json::Value = serde_json::from_str(&result).unwrap();
    assert_eq!(names(&parsed, "modules-left"), vec!["a", "b"]);
}

#[test]
fn add_module_keeps_other_values() {
    let config = r#"{"height": 30, "ratio": 1.5, "neg": -2, "on": true, "none": null,
        "nested": {"k": [1, {"deep": "x"}]}, "modules-left": []}"#;
    let result = add_module(config, "clock", BarSection::Left).unwrap();
    let before: serde_json::Value = serde_json::from_str(config).unwrap();
    let after: serde_json::Value = serde_json::from_str(&result).unwrap();
    for key in ["height", "ratio", "neg", "on", "none", "nested"] {
        assert_eq!(before[key], after[key]);
    }
    assert_eq!(names(&after, "modules-left"), vec!["clock"]);
}

#[test]
fn add_module_failures_are_worded() {
    assert!(add_module("{", "clock", BarSection::Left)
        .unwrap_err()
        .starts_with("Failed to parse waybar config: "));
    assert_eq!(add_module("", "clock", BarSection::Left).unwrap_err(), "Empty waybar config");
    assert_eq!(
        add_module("  // nothing here\n", "clock", BarSection::Left).unwrap_err(),
        "Empty waybar config"
    );
    assert_eq!(
        add_module("[1, 2]", "clock", BarSection::Left).unwrap_err(),
        "Waybar config is not a JSON object"
    );
    assert_eq!(
        add_module(r#"{"modules-left": "clock"}"#, "clock", BarSection::Left).unwrap_err(),
        "modules-left is not an array"
    );
    assert_eq!(
        add_module(r#"{"modules-right": 3}"#, "clock", BarSection::Right).unwrap_err(),
        "modules-right is not an array"
    );
}

#[test]
fn remove_module_failures_are_worded() {
    assert!(remove_module("{\"a\": }", "clock")
        .unwrap_err()
        .starts_with("Failed to parse waybar config: "));
    assert_eq!(remove_module("", "clock").unwrap_err(), "Empty waybar config");
    assert_eq!(remove_module("\"text\"", "clock").unwrap_err(), "Waybar config is not a JSON object");
}

#[test]
fn remove_module_skips_sections_that_are_no_arrays() {
    let config = r#"{"modules-left": "clock", "modules-right": ["clock", 5, "clock", "x"]}"#;
    let result = remove_module(config, "clock").unwrap();
    let parsed: serde_json::Value = serde_json::from_str(&result).unwrap();
    assert_eq!(parsed["modules-left"], "clock");
    let right = parsed["modules-right"].as_array().unwrap();
    assert_eq!(right.len(), 2);
    assert_eq!(right[0], 5);
    assert_eq!(right[1], "x");
}

fn text(s: &str) -> JsonValue {
    JsonValue::String(s.to_string())
}

fn member(key: &str, value: JsonValue) -> JsonMember {
    JsonMember { key: key.to_string(), value }
}

fn item_names(document: &JsonValue, key: &str) -> Vec<String> {
    let JsonValue::Object(members) = document else { panic!("not an object") };
    let found = members.iter().find(|m| m.key == key).expect("member");
    let JsonValue::Array(items) = &found.value else { panic!("not an array") };
    items
        .iter()
        .map(|v| match v {
            JsonValue::String(s) => s.clone(),
            other => format!("{:?}", other),
        })
        .collect()
}

#[test]
fn document_add_creates_appends_and_skips() {
    let doc = JsonValue::Object(vec![member("layer", text("top"))]);
    let doc = add_module_to_document(doc, "clock", BarSection::Center).unwrap();
    assert_eq!(item_names(&doc, "modules-center"), vec!["clock"]);
    let doc = add_module_to_document(doc, "cpu", BarSection::Center).unwrap();
    assert_eq!(item_names(&doc, "modules-center"), vec!["clock", "cpu"]);
    let doc = add_module_to_document(doc, "clock", BarSection::Center).unwrap();
    assert_eq!(item_names(&doc, "modules-center"), vec!["clock", "cpu"]);
    let JsonValue::Object(members) = &doc else { panic!("not an object") };
    assert_eq!(members.len(), 2);
    assert_eq!(members[0].key, "layer");
}

#[test]
fn document_add_reports_defects() {
    assert_eq!(
        add_module_to_document(JsonValue::Null, "clock", BarSection::Left).unwrap_err(),
        ConfigDefect::NotAnObject
    );
    assert_eq!(
        add_module_to_document(JsonValue::Array(Vec::new()), "clock", BarSection::Left)
            .unwrap_err(),
        ConfigDefect::NotAnObject
    );
    let doc = JsonValue::Object(vec![member("modules-left", JsonValue::Bool(true))]);
    assert_eq!(
        add_module_to_document(doc, "clock", BarSection::Left).unwrap_err(),
        ConfigDefect::NotAnArray
    );
}

#[test]
fn document_add_uses_the_first_member_with_the_key() {
    let doc = JsonValue::Object(vec![
        member("modules-left", JsonValue::Array(vec![text("a")])),
        member("modules-left", JsonValue::Array(vec![text("clock")])),
    ]);
    let doc = add_module_to_document(doc, "clock", BarSection::Left).unwrap();
    let JsonValue::Object(members) = &doc else { panic!("not an object") };
    let JsonValue::Array(first) = &members[0].value else { panic!("not an array") };
    assert_eq!(first.len(), 2);
}

#[test]
fn document_remove_strips_every_occurrence_in_every_section() {
    let doc = JsonValue::Object(vec![
        member("modules-left", JsonValue::Array(vec![text("clock"), text("a"), text("clock")])),
        member("other", JsonValue::Array(vec![text("clock")])),
        member("modules-right", JsonValue::Array(vec![text("b"), text("clock")])),
    ]);
    let doc = remove_module_from_document(doc, "clock").unwrap();
    assert_eq!(item_names(&doc, "modules-left"), vec!["a"]);
    assert_eq!(item_names(&doc, "other"), vec!["clock"]);
    assert_eq!(item_names(&doc, "modules-right"), vec!["b"]);
    assert_eq!(
        remove_module_from_document(JsonValue::Bool(false), "clock").unwrap_err(),
        ConfigDefect::NotAnObject
    );
}
