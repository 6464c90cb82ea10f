use tachys::location::{BrowserUrl, Location, LocationError, RequestUrl, Url, UrlSnapshot};

#[test]
fn request_url_from_path_is_parsed() {
    let url = RequestUrl::from_path("foo").try_to_url().unwrap();
    assert_eq!(url.origin, "http://leptos.dev");
    assert_eq!(url.pathname, "/foo");
    assert_eq!(url.search, "");
    assert_eq!(url.hash, "");
}

#[test]
fn request_url_keeps_the_query() {
    let url = RequestUrl::from_path("a/b?x=1").try_into_url().unwrap();
    assert_eq!(url.pathname, "/a/b");
    assert_eq!(url.search, "x=1");
}

#[test]
fn default_request_url_is_the_root() {
    let url = RequestUrl::default().try_to_url().unwrap();
    assert_eq!(url.pathname, "/");
}

#[test]
fn url_default_is_empty() {
    let url = Url::default();
    assert_eq!(url, Url { origin: String::new(), pathname: String::new(), search: String::new(), hash: String::new() });
}

#[test]
fn browser_url_strips_the_question_mark() {
    let url = tachys::location::BrowserUrl::url_from_parts(
        "https://example.com".to_string(),
        "/a".to_string(),
        "?q=1".to_string(),
        "#top".to_string(),
    );
    assert_eq!(url.search, "q=1");
    assert_eq!(url.pathname, "/a");
    assert_eq!(url.hash, "#top");
    let url = tachys::location::BrowserUrl::url_from_parts(
        String::new(),
        "/".to_string(),
        "q".to_string(),
        String::new(),
    );
    assert_eq!(url.search, "");
}

#[test]
fn a_snapshot_gives_the_url_it_holds() {
    let url = BrowserUrl::url_from_parts(
        "https://example.com".to_string(),
        "/posts/3".to_string(),
        "?a=1".to_string(),
        "#top".to_string(),
    );
    let snapshot = UrlSnapshot(url.clone());
    assert_eq!(snapshot.try_to_url(), Ok(url));
    let odd = UrlSnapshot(Url {
        origin: String::new(),
        pathname: "posts".to_string(),
        search: String::new(),
        hash: String::new(),
    });
    assert_eq!(odd.try_to_url(), Err(LocationError::InvalidUrl));
}
