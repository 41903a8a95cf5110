use presence_lsp::{
    ActivityFields, ActivityManager, Configuration, Document, IdleAction, IdlePresentation,
    LanguageTable, Placeholders, PresenceService, Activity,
};

fn table() -> LanguageTable {
    LanguageTable::new(vec![(".rs".to_string(), "Rust".to_string())])
}

#[test]
fn test_activity_fields_creation() {
    let state = Some("Working on {filename}".to_string());
    let details = Some("In {workspace}".to_string());

    let fields = ActivityFields::new(&state, &details, &None, &None, &None, &None);

    assert_eq!(fields.state, Some("Working on {filename}".to_string()));
    assert_eq!(fields.details, Some("In {workspace}".to_string()));
}

#[test]
fn into_tuple_keeps_the_order() {
    let s = |x: &str| Some(x.to_string());
    let fields = ActivityFields::new(&s("a"), &s("b"), &s("c"), &s("d"), &s("e"), &s("f"));
    assert_eq!(fields.into_tuple(), (s("a"), s("b"), s("c"), s("d"), s("e"), s("f")));
}

#[test]
fn resolve_placeholders_leaves_absent_fields_absent() {
    let fields = ActivityFields::new(&Some("In {workspace}".to_string()), &None, &None, &None, &None, &None);
    let config = Configuration::new();
    let p = Placeholders::new(None, &config, "ws", None, &table());
    let r = fields.resolve_placeholders(&p);
    assert_eq!(r.state, Some("In ws".to_string()));
    assert_eq!(r.details, None);
}

#[test]
fn build_activity_fields_for_a_document() {
    let config = Configuration::new();
    let doc = Document::new("/home/u/proj/src/main.rs", "/home/u/proj", Some(9), Some(10));
    let f = ActivityManager::build_activity_fields(Some(&doc), &config, "proj", Some("dev".to_string()), &table());
    assert_eq!(f.state, Some("Working on main.rs".to_string()));
    assert_eq!(f.details, Some("In proj".to_string()));
    assert_eq!(f.large_image, Some(format!("{}/rust.png", config.base_icons_url)));
    assert_eq!(f.large_text, Some("Rust".to_string()));
    assert_eq!(f.small_text, Some("Zed".to_string()));
}

#[test]
fn per_language_templates_replace_the_general_ones() {
    let mut config = Configuration::new();
    let mut rust = Activity::new();
    rust.state = Some("{folder_and_file} line {line_number} ({file_size}) on {git_branch}".to_string());
    config.languages.push(("rust".to_string(), rust));
    let doc = Document::new("/home/u/proj/src/main.rs", "/home/u/proj", Some(9), Some(10));
    let f = ActivityManager::build_activity_fields(Some(&doc), &config, "proj", Some("dev".to_string()), &table());
    assert_eq!(f.state, Some("src/main.rs line 10 (10 bytes) on dev".to_string()));
    let none = ActivityManager::build_activity_fields(None, &config, "proj", None, &table());
    assert_eq!(none.state, Some("Working on filename".to_string()));
}

#[test]
fn idle_fields_use_the_idle_templates() {
    let config = Configuration::new();
    let f = ActivityManager::build_idle_activity_fields(None, &config, "proj", None, &table());
    assert_eq!(f.state, Some("Idling".to_string()));
    assert_eq!(f.details, Some("In Zed".to_string()));
    assert_eq!(f.small_image, Some(format!("{}/idle.png", config.base_icons_url)));
}

#[test]
fn update_presence_links_the_repository_only_with_git_integration() {
    let mut config = Configuration::new();
    let doc = Document::new("/w/a.rs", "/w", None, None);
    let url = Some("https://example.com/r".to_string());
    let u = PresenceService::update_presence(Some(&doc), &config, "w", None, url.clone(), &table());
    assert!(u.reset_idle);
    assert_eq!(u.git_url, url);
    config.git_integration = false;
    let u = PresenceService::update_presence(None, &config, "w", None, url.clone(), &table());
    assert!(!u.reset_idle);
    assert_eq!(u.git_url, None);
}

#[test]
fn idle_presentation_follows_the_idle_action() {
    let mut config = Configuration::new();
    let url = Some("https://example.com/r".to_string());
    match PresenceService::idle_presentation(None, &config, "w", None, url.clone(), &table()) {
        IdlePresentation::Change(fields, u) => {
            assert_eq!(fields.state, Some("Idling".to_string()));
            assert_eq!(u, url);
        }
        IdlePresentation::Clear => panic!("expected a change"),
    }
    config.idle.action = IdleAction::ClearActivity;
    assert!(matches!(
        PresenceService::idle_presentation(None, &config, "w", None, url, &table()),
        IdlePresentation::Clear
    ));
}
