use presence_lsp::{main_remote_url, transform_url};

#[test]
fn transform_url_forms() {
    assert_eq!(transform_url("https://github.com/a/b.git".to_string()), "https://github.com/a/b.git");
    assert_eq!(transform_url("git@github.com:a/b.git".to_string()), "https://github.com/a/b.git");
    assert_eq!(transform_url("ssh://host/path".to_string()), "ssh://host/path");
    assert_eq!(transform_url("user@host".to_string()), "user@host");
}

#[test]
fn origin_first_then_first_remote() {
    let s = |x: &str| Some(x.to_string());
    assert_eq!(main_remote_url(Some(s("git@h:o/r")), s("https://x")), s("https://h/o/r"));
    assert_eq!(main_remote_url(Some(None), s("https://x")), None);
    assert_eq!(main_remote_url(None, s("git@h:f/r")), s("https://h/f/r"));
    assert_eq!(main_remote_url(None, None), None);
}
