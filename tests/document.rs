use presence_lsp::{get_language, Document, LanguageTable, PresenceError};
use tower_lsp::lsp_types::Url;

fn table() -> LanguageTable {
    LanguageTable::new(vec![
        ("Makefile".to_string(), "makefile".to_string()),
        ("regex:^dockerfile".to_string(), "dockerfile".to_string()),
        ("regex:\\.blade\\.php$".to_string(), "blade".to_string()),
        (".php".to_string(), "php".to_string()),
        (".rs".to_string(), "rust".to_string()),
    ])
}

#[test]
fn test_document_creation() {
    let url = Url::parse("file:///home/user/test.rs").unwrap();
    let doc = Document::new(url.path(), "/home/user", None, None);

    assert_eq!(doc.get_filename().unwrap(), "test.rs");
    assert_eq!(doc.get_extension(), "rs");
}

#[test]
fn test_document_with_encoded_filename() {
    let url = Url::parse("file:///home/user/test%20file.rs").unwrap();
    let doc = Document::new(url.path(), "/home/user", None, None);

    assert_eq!(doc.get_filename().unwrap(), "test file.rs");
}

#[test]
fn test_unicode_perl() {
    let url = Url::parse("file:///home/user/project/file.php").unwrap();
    let workspace_root = "/home/user/project";

    let document = Document::new(url.path(), workspace_root, None, None);
    let lang = get_language(&table(), &document);
    assert_eq!(lang, "php");
}

#[test]
fn language_by_name_pattern_extension_and_default() {
    let t = table();
    let doc = |p: &str| Document::new(p, "/w", None, None);
    assert_eq!(get_language(&t, &doc("/w/Makefile")), "makefile");
    assert_eq!(get_language(&t, &doc("/w/Dockerfile.dev")), "dockerfile");
    assert_eq!(get_language(&t, &doc("/w/view.blade.php")), "blade");
    assert_eq!(get_language(&t, &doc("/w/main.rs")), "rust");
    assert_eq!(get_language(&t, &doc("/w/notes.txt")), "text");
    assert_eq!(get_language(&t, &doc("/w/")), "text");
}

#[test]
fn invalid_pattern_is_skipped() {
    let t = LanguageTable::new(vec![
        ("regex:(".to_string(), "broken".to_string()),
        (".rs".to_string(), "rust".to_string()),
    ]);
    assert_eq!(get_language(&t, &Document::new("/w/a.rs", "/w", None, None)), "rust");
}

#[test]
fn filename_errors() {
    let no_name = Document::new("/home/user/", "/home/user", None, None);
    assert!(matches!(no_name.get_filename(), Err(PresenceError::Document(_))));
    let dots = Document::new("/home/user/..", "/home/user", None, None);
    assert!(dots.get_filename().is_err());
    let bad = Document::new("/home/user/%FF.rs", "/home/user", None, None);
    assert!(matches!(bad.get_filename(), Err(PresenceError::Document(_))));
    assert_eq!(bad.get_extension(), "rs");
}

#[test]
fn extension_rules() {
    let ext = |p: &str| Document::new(p, "/", None, None).get_extension();
    assert_eq!(ext("/a/.bashrc"), "");
    assert_eq!(ext("/a/archive.tar.gz"), "gz");
    assert_eq!(ext("/a/README"), "");
    assert_eq!(ext("/a/file."), "");
}

#[test]
fn paths_below_the_workspace() {
    let doc = Document::new("/home/user/project/src/my%20file.rs", "/home/user/project", Some(3), None);
    assert_eq!(doc.get_relative_path().unwrap(), "src/my file.rs");
    assert_eq!(doc.get_directory_name().unwrap(), "src");
    assert_eq!(doc.get_full_directory_name().unwrap(), "/home/user/project/src");
    let with_slash = Document::new("/home/user/project/a.rs", "/home/user/project/", None, None);
    assert_eq!(with_slash.get_relative_path().unwrap(), "a.rs");
    let outside = Document::new("/home/user/projectile/a.rs", "/home/user/project", None, None);
    assert!(matches!(outside.get_relative_path(), Err(PresenceError::Document(_))));
    let elsewhere = Document::new("/tmp/a.rs", "/home/user/project", None, None);
    assert!(elsewhere.get_relative_path().is_err());
}

#[test]
fn workspace_name_is_the_last_segment() {
    assert_eq!(presence_lsp::workspace_name("/home/user/project"), "project");
    assert_eq!(presence_lsp::workspace_name("project"), "project");
}

#[test]
fn error_messages() {
    let doc = Document::new("/home/user/", "/home/user", None, None);
    match doc.get_filename() {
        Err(e) => assert_eq!(e.message(), "No filename found"),
        Ok(_) => panic!("expected an error"),
    }
}
