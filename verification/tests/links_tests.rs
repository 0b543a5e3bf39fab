use gbrowse::links::{parse_url, join_url, url_scheme, join_if_relative, Scheme};

#[test]
fn absolute_urls_parse() {
    assert_eq!(parse_url("http://example.com").unwrap(), "http://example.com/");
    assert_eq!(parse_url("gemini://a.b/c").unwrap(), "gemini://a.b/c");
    assert!(parse_url("no scheme").unwrap_err().relative);
    assert!(!parse_url("http://[::1").unwrap_err().relative);
}

#[test]
fn relative_links_join_to_the_page() {
    assert_eq!(join_if_relative("gemini://a.b/c/d", "e").unwrap(), "gemini://a.b/c/e");
    assert_eq!(join_if_relative("gemini://a.b/c/d", "/e").unwrap(), "gemini://a.b/e");
    assert_eq!(join_if_relative("gemini://a.b/c/d", "gemini://x.y/").unwrap(), "gemini://x.y/");
    assert!(join_if_relative("gemini://a.b/c/d", "http://[::1").is_err());
}

#[test]
fn joining_changes_the_url() {
    assert_eq!(join_url("http://example.com/a/b", "c").unwrap(), "http://example.com/a/c");
    assert_eq!(join_url("gemini://a.b/c", "?x%20y").unwrap(), "gemini://a.b/c?x%20y");
}

#[test]
fn schemes() {
    assert_eq!(url_scheme("gemini://a.b").unwrap(), "gemini");
    assert!(matches!(Scheme::from_str("gemini://a.b"), Ok(Scheme::Gemini)));
    assert!(matches!(Scheme::from_str("https://a.b"), Ok(Scheme::Https)));
    assert!(matches!(Scheme::from_str("foo:bar"), Ok(Scheme::Unknown(ref n)) if n == "foo"));
    assert!(Scheme::from_str("relative/path").is_err());
    assert_eq!(Scheme::Gopher.to_string(), "gopher");
    assert_eq!(Scheme::Unknown("irc".to_string()).to_string(), "irc");
}
