use bing_wallpaper::url_base::{derive_site_root, resolve, AbsoluteUrl, SiteBase, UrlError};

fn url(text: &str) -> AbsoluteUrl {
    AbsoluteUrl::parse(text).expect("an absolute URL")
}

fn base_for(text: &str) -> SiteBase {
    derive_site_root(&url(text)).expect("a site root")
}

#[test]
fn parse_gives_the_serialisation() {
    assert_eq!(url("https://example.com").as_str(), "https://example.com/");
    assert_eq!(url("HTTPS://Example.COM/a/../b?x=1#f").as_str(), "https://example.com/b?x=1#f");
    assert_eq!(url("mailto:me@example.com").as_str(), "mailto:me@example.com");
}

#[test]
fn parse_rejects_what_is_no_absolute_url() {
    assert_eq!(AbsoluteUrl::parse(""), Err(UrlError::Unparseable));
    assert_eq!(AbsoluteUrl::parse("img/pic.jpg"), Err(UrlError::Unparseable));
    assert_eq!(AbsoluteUrl::parse("/th?id=abc.jpg"), Err(UrlError::Unparseable));
    assert_eq!(AbsoluteUrl::parse("https://"), Err(UrlError::Unparseable));
    assert_eq!(AbsoluteUrl::parse("https://example.com:99999/"), Err(UrlError::Unparseable));
}

#[test]
fn site_root_of_a_page() {
    let base = base_for("https://example.com/a/b?x=1");
    assert_eq!(base.as_str(), "https://example.com/");
    assert_eq!(base.to_url(), url("https://example.com"));
}

#[test]
fn site_root_keeps_scheme_host_and_port() {
    assert_eq!(base_for("http://example.com:8080/a/b/c.html?x=1&y=2").as_str(), "http://example.com:8080/");
    assert_eq!(base_for("https://user:pw@example.com/a?x").as_str(), "https://user:pw@example.com/");
    assert_eq!(base_for("ftp://files.example.org/pub/readme.txt").as_str(), "ftp://files.example.org/");
    assert_eq!(base_for("https://www.bing.com").as_str(), "https://www.bing.com/");
}

#[test]
fn site_root_keeps_the_fragment() {
    assert_eq!(base_for("https://example.com/a/b?x=1#top").as_str(), "https://example.com/#top");
}

#[test]
fn site_root_of_urls_without_authority() {
    assert_eq!(base_for("unix:/run/foo.socket?x").as_str(), "unix:/");
    assert_eq!(base_for("file:///home/user/page.html").as_str(), "file:///");
    assert_eq!(base_for("web+demo:/.//not-a-host/more").as_str(), "web+demo:/");
}

#[test]
fn site_root_of_a_url_with_an_empty_path() {
    assert_eq!(base_for("foo://host?q=1").as_str(), "foo://host");
}

#[test]
fn site_root_is_idempotent() {
    for page in [
        "https://example.com/a/b?x=1",
        "http://example.com:8080/a/b/c.html?x=1&y=2#f",
        "unix:/run/foo.socket?x",
        "file:///home/user/page.html",
        "web+demo:/.//not-a-host/more",
        "foo://host?q=1",
    ] {
        let once = base_for(page);
        let twice = derive_site_root(&once.to_url()).expect("a site root");
        assert_eq!(once, twice);
        assert_eq!(once.as_str(), twice.as_str());
    }
}

#[test]
fn site_root_needs_a_hierarchical_scheme() {
    assert_eq!(derive_site_root(&url("mailto:me@example.com")), Err(UrlError::NonSegmentableScheme));
    assert_eq!(derive_site_root(&url("data:text/plain,Stuff")), Err(UrlError::NonSegmentableScheme));
}

#[test]
fn resolve_relative_reference() {
    let base = base_for("https://example.com/page");
    assert_eq!(resolve(&base, "img/pic.jpg").expect("a URL").as_str(), "https://example.com/img/pic.jpg");
    assert_eq!(resolve(&base, "/th?id=abc.jpg").expect("a URL").as_str(), "https://example.com/th?id=abc.jpg");
    assert_eq!(resolve(&base, "").expect("a URL").as_str(), "https://example.com/");
}

#[test]
fn resolve_absolute_reference_unchanged() {
    let base = base_for("https://example.com/page");
    assert_eq!(resolve(&base, "http://eve.com/b").expect("a URL").as_str(), "http://eve.com/b");
    assert_eq!(
        resolve(&base, "https://cdn.example.net/img/pic.jpg?w=1#x").expect("a URL").as_str(),
        "https://cdn.example.net/img/pic.jpg?w=1#x"
    );
    assert_eq!(resolve(&base, "http://eve.com/b"), Ok(url("http://eve.com/b")));
}

#[test]
fn resolve_scheme_relative_reference() {
    let base = base_for("https://alice.com/a");
    assert_eq!(resolve(&base, "//eve.com/b").expect("a URL").as_str(), "https://eve.com/b");
}

#[test]
fn resolve_reference_with_the_scheme_of_the_base_and_no_host() {
    let base = base_for("https://example.com/page");
    assert_eq!(resolve(&base, "https:img.png").expect("a URL").as_str(), "https://example.com/img.png");
    assert_eq!(url("https:img.png").as_str(), "https://img.png/");
}

#[test]
fn resolve_rejects_invalid_reference() {
    let base = base_for("https://example.com/page");
    assert_eq!(resolve(&base, "https://exa mple.com/"), Err(UrlError::Unparseable));
    assert_eq!(resolve(&base, "http://example.com:99999/"), Err(UrlError::Unparseable));
    assert_eq!(resolve(&base, "//"), Err(UrlError::Unparseable));
}

#[test]
fn urls_can_be_cloned() {
    let page = url("https://example.com/a");
    assert_eq!(page.clone(), page);
    let base = base_for("https://example.com/a");
    assert_eq!(base.clone(), base);
}

#[test]
fn url_parts() {
    let page = url("https://user:pw@example.com:8080/a/b?x=1#top");
    assert_eq!(page.scheme(), "https");
    assert_eq!(page.host(), Some("example.com".to_string()));
    assert_eq!(page.port(), Some(8080));
    assert_eq!(page.path(), "/a/b");
    assert_eq!(page.query(), Some("x=1".to_string()));

    let plain = url("https://example.com:443");
    assert_eq!(plain.port(), None);
    assert_eq!(plain.path(), "/");
    assert_eq!(plain.query(), None);

    let mail = url("mailto:me@example.com");
    assert_eq!(mail.scheme(), "mailto");
    assert_eq!(mail.host(), None);
    assert_eq!(mail.path(), "me@example.com");
}

#[test]
fn site_root_keeps_the_parts_before_the_path() {
    for text in [
        "https://user:pw@example.com:8080/a/b?x=1#top",
        "http://example.com/a/b/c.html?x=1&y=2",
        "ftp://files.example.org/pub/readme.txt",
        "file://host/a/C:/x",
        "unix:/run/foo.socket?x",
        "web+demo:/.//not-a-host/more?q",
    ] {
        let page = url(text);
        let base = derive_site_root(&page).expect("a site root").to_url();
        assert_eq!(base.scheme(), page.scheme());
        assert_eq!(base.host(), page.host());
        assert_eq!(base.port(), page.port());
        assert_eq!(base.path(), "/");
        assert_eq!(base.query(), None);
    }
}

#[test]
fn site_root_of_an_empty_path_has_an_empty_path() {
    let page = url("foo://host?q=1");
    assert_eq!(page.path(), "");
    let base = derive_site_root(&page).expect("a site root").to_url();
    assert_eq!(base.path(), "");
    assert_eq!(base.host(), Some("host".to_string()));
    assert_eq!(base.query(), None);
}

#[test]
fn parse_refuses_a_url_that_its_serialisation_does_not_stand_for() {
    assert_eq!(AbsoluteUrl::parse("file://host//C:/x"), Err(UrlError::Unparseable));
    assert_eq!(url("file://host/C:/x").as_str(), "file:///C:/x");
    assert_eq!(url("file://host/a/C:/x").as_str(), "file://host/a/C:/x");
}

#[test]
fn resolve_refuses_a_url_that_its_serialisation_does_not_stand_for() {
    let base = base_for("https://example.com/page");
    assert_eq!(resolve(&base, "file://host//C:/x"), Err(UrlError::Unparseable));
    assert_eq!(resolve(&base, "file://host/C:/x").expect("a URL").as_str(), "file:///C:/x");
}
