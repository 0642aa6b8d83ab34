use std::any::Any;
use std::any::TypeId;

use shortlink::LinkError;
use shortlink::ParsedUrl;
use shortlink::Url;

#[test]
fn test_type_works() {
    let myurl = Url {
        origin: ParsedUrl::parse("https://www.example.com").unwrap(),
        shortcut: String::from("example"),
    };

    assert_eq!(myurl.type_id(), TypeId::of::<Url>(), "Type not matched");
}

#[test]
fn test_shorten() {
    let mut myurl = Url {
        origin: ParsedUrl::parse("https://www.example.com").unwrap(),
        shortcut: String::from("example"),
    };
    let result: bool = match myurl.shorten() {
        Ok(val) => val,
        Err(e) => {
            println!("Error: {:#?}", e);
            false
        }
    };

    assert!(result);
}

#[test]
fn test_shorten_new() {
    let myurl = Url {
        origin: ParsedUrl::parse("https://www.example.com").unwrap(),
        shortcut: String::from("example"),
    };
    let expect = ParsedUrl::parse("https://www.example.com").unwrap();

    assert!(
        expect == myurl,
        "got '{}' instead of '{}'",
        myurl.render(),
        expect.text
    );

    // Identity is the origin alone, so an origin with another host is a
    // different record.
    let expect = ParsedUrl::parse("https://www.example.co").unwrap();

    assert!(
        !(expect == myurl),
        "got '{}' equal to '{}'",
        myurl.render(),
        expect.text
    );
}

#[test]
fn shorten_takes_the_whole_hostname() {
    let origin = ParsedUrl::parse("https://www.example.com/path").unwrap();
    let mut url = Url::new(origin);
    assert_eq!(url.shorten(), Ok(true));
    assert_eq!(url.shortcut, "www.example.com");
}

#[test]
fn shorten_strips_userinfo_from_the_host() {
    let origin = ParsedUrl::parse("ftp://rms@example.com").unwrap();
    let mut url = Url::new(origin);
    assert_eq!(url.shorten(), Ok(true));
    assert_eq!(url.shortcut, "example.com");
}

#[test]
fn shorten_is_idempotent_for_a_fixed_origin() {
    let origin = ParsedUrl::parse("https://www.example.com/path").unwrap();
    let mut url = Url::new(origin);
    assert_eq!(url.shorten(), Ok(true));
    assert_eq!(url.shorten(), Ok(true));
    assert_eq!(url.shortcut, "www.example.com");
}

#[test]
fn hostless_url_reports_the_error_and_keeps_the_shortcut_empty() {
    let origin = ParsedUrl::parse("data:text/plain,hello").unwrap();
    let mut url = Url::new(origin);
    assert_eq!(url.shorten(), Err(LinkError::HostlessUrl));
    assert_eq!(url.shortcut, "");
}

#[test]
fn unix_scheme_url_has_no_host() {
    let origin = ParsedUrl::parse("unix:/run/foo.socket").unwrap();
    assert_eq!(origin.host, None);
    let mut url = Url::new(origin);
    assert_eq!(url.shorten(), Err(LinkError::HostlessUrl));
    assert_eq!(url.shortcut, "");
}

#[test]
fn relative_url_is_rejected_by_parse() {
    assert!(ParsedUrl::parse("/a/relative/path").is_none());
    assert!(ParsedUrl::parse("not a url at all").is_none());
}

#[test]
fn parse_normalizes_the_serialization() {
    let parsed = ParsedUrl::parse("https://example.com").unwrap();
    assert_eq!(parsed.text, "https://example.com/");
    assert_eq!(parsed.host.as_deref(), Some("example.com"));
}

#[test]
fn render_shows_the_origin() {
    let origin = ParsedUrl::parse("https://www.example.com/path").unwrap();
    let mut url = Url::new(origin);
    url.shorten().unwrap();
    assert_eq!(url.render(), "https://www.example.com/path");
}

#[test]
fn origin_is_compares_the_serialization_only() {
    let origin = ParsedUrl::parse("https://www.example.com/path").unwrap();
    let mut url = Url::new(origin);
    url.shorten().unwrap();
    assert!(url.origin_is("https://www.example.com/path"));
    assert!(!url.origin_is("https://www.example.com/other"));
    assert!(!url.origin_is("www.example.com"));
}

#[test]
fn url_turns_into_its_origin_string() {
    let origin = ParsedUrl::parse("https://www.example.com/path").unwrap();
    let url = Url::new(origin);
    let s = String::from(url);
    assert_eq!(s, "https://www.example.com/path");
}

#[test]
fn shortcut_takes_no_part_in_url_equality() {
    let a = Url {
        origin: ParsedUrl::parse("https://www.example.com").unwrap(),
        shortcut: String::from("one"),
    };
    let b = Url {
        origin: ParsedUrl::parse("https://www.example.com").unwrap(),
        shortcut: String::from("another"),
    };
    assert!(a == b);
}
