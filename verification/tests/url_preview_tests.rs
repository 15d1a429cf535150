use pulse_server::url_preview::extract_first_url;

#[test]
fn test_extract_first_url_basic() {
    let content = "Check out https://example.com for more info";
    let url = extract_first_url(content);
    assert_eq!(url, Some("https://example.com".to_string()));
}

#[test]
fn test_extract_first_url_with_path() {
    let content = "Visit https://example.com/path/to/page.html";
    let url = extract_first_url(content);
    assert_eq!(url, Some("https://example.com/path/to/page.html".to_string()));
}

#[test]
fn test_extract_first_url_with_query() {
    let content = "Link: https://example.com/search?q=test&page=1";
    let url = extract_first_url(content);
    assert_eq!(url, Some("https://example.com/search?q=test&page=1".to_string()));
}

#[test]
fn test_extract_first_url_with_fragment() {
    let content = "See https://example.com/page#section-1";
    let url = extract_first_url(content);
    assert_eq!(url, Some("https://example.com/page#section-1".to_string()));
}

#[test]
fn test_extract_first_url_multiple_urls() {
    let content = "First https://first.com and second https://second.com";
    let url = extract_first_url(content);
    assert_eq!(url, Some("https://first.com".to_string()));
}

#[test]
fn test_extract_first_url_no_url() {
    let content = "This message has no URL";
    let url = extract_first_url(content);
    assert_eq!(url, None);
}

#[test]
fn test_extract_first_url_http_ignored() {
    let content = "Not secure: http://example.com";
    let url = extract_first_url(content);
    assert_eq!(url, None);
}

#[test]
fn test_extract_first_url_subdomain() {
    let content = "Visit https://sub.domain.example.com/page";
    let url = extract_first_url(content);
    assert_eq!(url, Some("https://sub.domain.example.com/page".to_string()));
}

#[test]
fn test_extract_first_url_with_port() {
    let content = "Local: https://localhost:8080/api";
    let url = extract_first_url(content);
    assert_eq!(url, Some("https://localhost:8080/api".to_string()));
}

#[test]
fn test_extract_first_url_encoded_chars() {
    let content = "Encoded: https://example.com/path%20with%20spaces";
    let url = extract_first_url(content);
    assert_eq!(url, Some("https://example.com/path%20with%20spaces".to_string()));
}

#[test]
fn test_extract_first_url_github() {
    let content = "Check the repo: https://github.com/user/repo/blob/main/README.md";
    let url = extract_first_url(content);
    assert_eq!(url, Some("https://github.com/user/repo/blob/main/README.md".to_string()));
}

#[test]
fn test_extract_first_url_youtube() {
    let content = "Watch this: https://www.youtube.com/watch?v=dQw4w9WgXcQ";
    let url = extract_first_url(content);
    assert_eq!(url, Some("https://www.youtube.com/watch?v=dQw4w9WgXcQ".to_string()));
}

#[test]
fn test_extract_first_url_at_start() {
    let content = "https://example.com is a great site";
    let url = extract_first_url(content);
    assert_eq!(url, Some("https://example.com".to_string()));
}

#[test]
fn test_extract_first_url_at_end() {
    let content = "Check out https://example.com";
    let url = extract_first_url(content);
    assert_eq!(url, Some("https://example.com".to_string()));
}

#[test]
fn test_extract_first_url_multiline() {
    let content = "First line\nhttps://example.com\nLast line";
    let url = extract_first_url(content);
    assert_eq!(url, Some("https://example.com".to_string()));
}

#[test]
fn extract_first_url_wants_something_after_the_scheme() {
    assert_eq!(extract_first_url("https://"), None);
    assert_eq!(extract_first_url("https:// example.com"), None);
    assert_eq!(extract_first_url("https://\u{e9}.com https://b.c"), Some("https://b.c".to_string()));
    assert_eq!(extract_first_url("https://a"), Some("https://a".to_string()));
    assert_eq!(extract_first_url(""), None);
    assert_eq!(extract_first_url("HTTPS://example.com"), None);
}

#[test]
fn extract_first_url_stops_at_the_first_other_character() {
    assert_eq!(extract_first_url("<https://example.com/a>b"), Some("https://example.com/a".to_string()));
    assert_eq!(extract_first_url("\"https://example.com\""), Some("https://example.com".to_string()));
    assert_eq!(extract_first_url("https://ex\u{e4}mple.com"), Some("https://ex".to_string()));
    assert_eq!(
        extract_first_url("https://a-._~:/?#[]@!$&'()*+,;=%Z9 rest"),
        Some("https://a-._~:/?#[]@!$&'()*+,;=%Z9".to_string())
    );
    assert_eq!(extract_first_url("https://a{b}"), Some("https://a".to_string()));
    assert_eq!(extract_first_url("https://https://x"), Some("https://https://x".to_string()));
    assert_eq!(extract_first_url("hhttps://x|y"), Some("https://x".to_string()));
}
