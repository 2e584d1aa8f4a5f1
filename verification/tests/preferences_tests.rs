use waybar_manager::services::preferences::{
    get_default_preferences, merge_with_defaults, preference, set_preference, PreferenceEntry,
    PreferenceField, PreferenceValue, PreferencesSchema,
};

fn field(key: &str, default: PreferenceValue) -> PreferenceField {
    PreferenceField { key: key.to_string(), label: key.to_uppercase(), default }
}

fn entry(key: &str, value: PreferenceValue) -> PreferenceEntry {
    PreferenceEntry { key: key.to_string(), value }
}

fn schema() -> PreferencesSchema {
    PreferencesSchema {
        fields: vec![
            field("city", PreferenceValue::Text("Berlin".to_string())),
            field("interval", PreferenceValue::Integer(60)),
            field("celsius", PreferenceValue::Bool(true)),
        ],
    }
}

fn shown(entries: &Vec<PreferenceEntry>) -> Vec<String> {
    entries.iter().map(|e| format!("{}={:?}", e.key, e.value)).collect()
}

#[test]
fn merge_fills_missing_fields_with_defaults() {
    let stored = vec![entry("interval", PreferenceValue::Integer(5))];
    let merged = merge_with_defaults(stored, &schema());
    assert_eq!(
        shown(&merged),
        vec!["interval=Integer(5)", "city=Text(\"Berlin\")", "celsius=Bool(true)"]
    );
}

#[test]
fn merge_keeps_stored_values_of_another_type() {
    let stored = vec![entry("interval", PreferenceValue::Text("often".to_string()))];
    let merged = merge_with_defaults(stored, &schema());
    assert!(matches!(preference(&merged, "interval"), Some(PreferenceValue::Text(t)) if t == "often"));
}

#[test]
fn merge_keeps_stored_values_that_the_schema_does_not_name() {
    let stored = vec![entry("legacy", PreferenceValue::Bool(false))];
    let merged = merge_with_defaults(stored, &schema());
    assert_eq!(merged.len(), 4);
    assert_eq!(merged[0].key, "legacy");
}

#[test]
fn merge_is_idempotent() {
    let stored = vec![entry("celsius", PreferenceValue::Bool(false))];
    let once = merge_with_defaults(stored, &schema());
    let twice = merge_with_defaults(once.clone(), &schema());
    assert_eq!(shown(&once), shown(&twice));
}

#[test]
fn defaults_are_the_merge_of_nothing() {
    let defaults = get_default_preferences(&schema());
    assert_eq!(
        shown(&defaults),
        vec!["city=Text(\"Berlin\")", "interval=Integer(60)", "celsius=Bool(true)"]
    );
    assert!(get_default_preferences(&PreferencesSchema { fields: Vec::new() }).is_empty());
}

#[test]
fn the_first_of_two_fields_with_one_name_gives_the_default() {
    let doubled = PreferencesSchema {
        fields: vec![field("a", PreferenceValue::Integer(1)), field("a", PreferenceValue::Integer(2))],
    };
    assert_eq!(shown(&get_default_preferences(&doubled)), vec!["a=Integer(1)"]);
}

#[test]
fn set_preference_replaces_or_adds() {
    let mut values = get_default_preferences(&schema());
    set_preference(&mut values, "interval", PreferenceValue::Integer(10));
    set_preference(&mut values, "extra", PreferenceValue::Bool(true));
    assert_eq!(
        shown(&values),
        vec!["city=Text(\"Berlin\")", "interval=Integer(10)", "celsius=Bool(true)", "extra=Bool(true)"]
    );
    assert!(preference(&values, "missing").is_none());
    assert!(matches!(preference(&values, "interval"), Some(PreferenceValue::Integer(10))));
}

#[test]
fn duplicate_copies_a_value() {
    let value = PreferenceValue::Text("x".to_string());
    assert!(matches!(value.duplicate(), PreferenceValue::Text(t) if t == "x"));
    assert!(matches!(PreferenceValue::Integer(-3).duplicate(), PreferenceValue::Integer(-3)));
}
