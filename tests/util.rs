use presence_lsp::{capitalize_first_letter, format_file_size, set_optional_field, Placeholders};

fn placeholders() -> Placeholders {
    Placeholders {
        filename: Some("test.rs".to_string()),
        workspace: "my-project".to_string(),
        language: Some("rust".to_string()),
        base_icons_url: "https://example.com".to_string(),
        relative_file_path: None,
        folder_and_file: None,
        directory_name: None,
        full_directory_name: None,
        line_number: None,
        git_branch: None,
        file_size: None,
    }
}

#[test]
fn test_capitalize_first_letter() {
    assert_eq!(capitalize_first_letter("hello"), "Hello");
    assert_eq!(capitalize_first_letter(""), "");
    assert_eq!(capitalize_first_letter("a"), "A");
    assert_eq!(capitalize_first_letter("HELLO"), "HELLO");
}

#[test]
fn test_placeholders_replace() {
    let placeholders = placeholders();

    let result = placeholders.replace("Working on {filename} in {workspace}");
    assert_eq!(result, "Working on test.rs in my-project");

    let result = placeholders.replace("{language:u} file");
    assert_eq!(result, "Rust file");
}

#[test]
fn lowercase_modifier_and_unknown_tokens() {
    let mut p = placeholders();
    p.workspace = "My-Project".to_string();
    assert_eq!(p.replace("{workspace:lo}"), "my-project");
    assert_eq!(p.replace("{unknown} {filename:x} {"), "{unknown} {filename:x} {");
    assert_eq!(p.replace("{{filename}}"), "{test.rs}");
}

#[test]
fn missing_sources_fall_back_to_the_name() {
    let mut p = placeholders();
    p.filename = None;
    p.language = None;
    assert_eq!(p.replace("{filename} / {language:u} / {git_branch}"), "filename / Language / git_branch");
    assert_eq!(p.replace("{line_number} {file_size}"), "0 file_size");
}

#[test]
fn expansion_is_a_single_pass() {
    let mut p = placeholders();
    p.filename = Some("{workspace}".to_string());
    assert_eq!(p.replace("{filename}"), "{workspace}");
}

#[test]
fn all_recognised_names_expand_without_braces() {
    let p = Placeholders {
        filename: Some("main.rs".to_string()),
        workspace: "proj".to_string(),
        language: Some("rust".to_string()),
        base_icons_url: "https://icons".to_string(),
        relative_file_path: Some("src/main.rs".to_string()),
        folder_and_file: Some("src/main.rs".to_string()),
        directory_name: Some("src".to_string()),
        full_directory_name: Some("/home/proj/src".to_string()),
        line_number: Some(41),
        git_branch: Some("main".to_string()),
        file_size: Some(2048),
    };
    let out = p.replace(
        "{filename}{workspace}{language:u}{base_icons_url}{relative_file_path}{folder_and_file}\
         {directory_name:lo}{full_directory_name}{line_number}{git_branch}{file_size}",
    );
    assert!(!out.contains('{') && !out.contains('}'));
    assert_eq!(
        out,
        "main.rsprojRusthttps://iconssrc/main.rssrc/main.rssrc/home/proj/src42main2.0 KB"
    );
}

#[test]
fn file_size_formatting() {
    assert_eq!(format_file_size(0), "0 bytes");
    assert_eq!(format_file_size(1), "1 byte");
    assert_eq!(format_file_size(1023), "1023 bytes");
    assert_eq!(format_file_size(1024), "1.0 KB");
    assert_eq!(format_file_size(1536), "1.5 KB");
    assert_eq!(format_file_size(1048576), "1.0 MB");
    assert_eq!(format_file_size(5 * 1048576 + 104858), "5.1 MB");
    assert_eq!(format_file_size(u64::MAX), "17592186044416.0 MB");
}

#[test]
fn set_optional_field_applies_only_a_value() {
    let add = |acc: String, v: &str| acc + v;
    assert_eq!(set_optional_field("a".to_string(), Some("b"), add), "ab");
    assert_eq!(set_optional_field("a".to_string(), None, add), "a");
}
