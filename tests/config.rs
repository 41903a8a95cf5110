use presence_lsp::{
    Configuration, Idle, IdleAction, JsonList, JsonValue, Rules, RulesMode, DEFAULT_APP_ID,
    DEFAULT_ICONS_URL, DEFAULT_IDLE_TIMEOUT,
};
use std::time::Duration;

fn object(members: Vec<(&str, JsonValue)>) -> JsonValue {
    JsonValue::Object(JsonList::from_members(
        members.into_iter().map(|(k, v)| (k.to_string(), v)).collect(),
    ))
}

fn array(items: Vec<JsonValue>) -> JsonValue {
    JsonValue::Array(JsonList::from_members(
        items.into_iter().map(|v| (String::new(), v)).collect(),
    ))
}

fn text(s: &str) -> JsonValue {
    JsonValue::Str(s.to_string())
}

#[test]
fn test_default_idle() {
    let idle = Idle::default();
    assert_eq!(Duration::from_secs(idle.timeout), Duration::from_secs(DEFAULT_IDLE_TIMEOUT));
    assert_eq!(idle.action, IdleAction::ChangeActivity);
}

#[test]
fn idle_test_update_from_json() {
    let mut idle = Idle::default();
    let json = object(vec![
        ("timeout", JsonValue::UInt(600)),
        ("action", text("clear_activity")),
        ("state", text("Custom Idle State")),
        ("details", JsonValue::Null),
    ]);

    idle.update_from_json(&json);

    assert_eq!(Duration::from_secs(idle.timeout), Duration::from_secs(600));
    assert_eq!(idle.action, IdleAction::ClearActivity);
    assert_eq!(idle.state, Some("Custom Idle State".to_string()));
    assert_eq!(idle.details, None);
}

#[test]
fn idle_unknown_action_is_change_activity() {
    let mut idle = Idle::default();
    idle.action = IdleAction::ClearActivity;
    idle.update_from_json(&object(vec![("action", text("sleep"))]));
    assert_eq!(idle.action, IdleAction::ChangeActivity);
}

#[test]
fn idle_timeout_that_is_not_an_unsigned_integer_is_ignored() {
    let mut idle = Idle::default();
    idle.update_from_json(&object(vec![("timeout", JsonValue::OtherNumber)]));
    assert_eq!(idle.timeout, 300);
    idle.update_from_json(&object(vec![("timeout", text("10"))]));
    assert_eq!(idle.timeout, 300);
}

#[test]
fn test_default_configuration() {
    let config = Configuration::default();
    assert_eq!(config.application_id, DEFAULT_APP_ID);
    assert_eq!(config.base_icons_url, DEFAULT_ICONS_URL);
    assert!(config.git_integration);
}

#[test]
fn test_update_configuration() {
    let mut config = Configuration::default();
    let json = object(vec![
        ("application_id", text("test_id")),
        ("base_icons_url", text("http://example.com")),
        ("git_integration", JsonValue::Bool(false)),
    ]);

    config.update(Some(json)).unwrap();

    assert_eq!(config.application_id, "test_id");
    assert_eq!(config.base_icons_url, "http://example.com");
    assert!(!config.git_integration);
}

#[test]
fn configuration_update_without_options_keeps_defaults() {
    let mut config = Configuration::new();
    config.update(None).unwrap();
    assert_eq!(config.application_id, DEFAULT_APP_ID);
    assert_eq!(config.activity.state, Some("Working on {filename}".to_string()));
}

#[test]
fn configuration_null_clears_and_non_bool_git_turns_it_on() {
    let mut config = Configuration::new();
    config.git_integration = false;
    config.update_from_json(&object(vec![
        ("state", JsonValue::Null),
        ("details", text("Editing")),
        ("git_integration", text("yes")),
        ("unknown", JsonValue::UInt(1)),
    ]));
    assert_eq!(config.activity.state, None);
    assert_eq!(config.activity.details, Some("Editing".to_string()));
    assert!(config.git_integration);
}

#[test]
fn configuration_reads_nested_rules_and_idle() {
    let mut config = Configuration::new();
    config.update_from_json(&object(vec![
        ("rules", object(vec![("mode", text("whitelist")), ("paths", array(vec![text("/a")]))])),
        ("idle", object(vec![("timeout", JsonValue::UInt(5))])),
    ]));
    assert_eq!(config.rules.mode, RulesMode::Whitelist);
    assert_eq!(config.rules.paths, vec!["/a".to_string()]);
    assert_eq!(config.idle.timeout, 5);
}

#[test]
fn language_overrides_are_keyed_by_lowercase_name_and_skip_invalid_ones() {
    let mut config = Configuration::new();
    config.update_from_json(&object(vec![
        ("details", text("Global details")),
        (
            "languages",
            object(vec![
                ("Rust", object(vec![("state", text("Oxidizing {filename}"))])),
                ("python", text("not an object")),
            ]),
        ),
    ]));
    assert_eq!(config.languages.len(), 1);
    assert_eq!(config.languages[0].0, "rust");
    assert_eq!(config.languages[0].1.state, Some("Oxidizing {filename}".to_string()));
    assert_eq!(config.languages[0].1.details, Some("Global details".to_string()));
    assert_eq!(config.activity_for("rust").state, Some("Oxidizing {filename}".to_string()));
    assert_eq!(config.activity_for("python").state, Some("Working on {filename}".to_string()));
}

#[test]
fn test_default_rules() {
    let rules = Rules::default();
    assert_eq!(rules.mode, RulesMode::Blacklist);
    assert!(rules.paths.is_empty());
}

#[test]
fn test_suitable() {
    let mut rules = Rules::default();
    rules.paths = vec!["/test/path".to_string()];

    // Blacklist mode
    assert!(!rules.suitable("/test/path"));
    assert!(rules.suitable("/other/path"));

    // Whitelist mode
    rules.mode = RulesMode::Whitelist;
    assert!(rules.suitable("/test/path"));
    assert!(!rules.suitable("/other/path"));
}

#[test]
fn suitable_with_empty_lists() {
    let mut rules = Rules::new();
    assert!(rules.suitable("/any"));
    assert!(rules.suitable(""));
    rules.mode = RulesMode::Whitelist;
    assert!(!rules.suitable("/any"));
}

#[test]
fn rules_test_update_from_json() {
    let mut rules = Rules::default();
    let json = object(vec![
        ("mode", text("whitelist")),
        ("paths", array(vec![text("/path1"), text("/path2")])),
    ]);

    rules.update_from_json(&json);

    assert_eq!(rules.mode, RulesMode::Whitelist);
    assert_eq!(rules.paths, vec!["/path1", "/path2"]);
}

#[test]
fn rules_unknown_mode_is_blacklist_and_non_strings_are_dropped() {
    let mut rules = Rules::default();
    rules.mode = RulesMode::Whitelist;
    rules.update_from_json(&object(vec![
        ("mode", text("greylist")),
        ("paths", array(vec![text("/a"), JsonValue::UInt(3), text("/b")])),
    ]));
    assert_eq!(rules.mode, RulesMode::Blacklist);
    assert_eq!(rules.paths, vec!["/a", "/b"]);
}

#[test]
fn json_get_takes_the_first_member_of_a_name() {
    let json = object(vec![("k", JsonValue::UInt(1)), ("k", JsonValue::UInt(2))]);
    assert_eq!(json.get("k").and_then(|v| v.as_u64()), Some(1));
    assert!(json.get("missing").is_none());
    assert!(text("x").get("k").is_none());
}
