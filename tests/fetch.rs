use fetch_gate::dispatch::{complete, prepare, Outbound};
use fetch_gate::error::{ErrorKind, FetchError, PolicyList};
use fetch_gate::method::{parse_method, Method};
use fetch_gate::policy::{parse_list, port_of, AccessPolicy};
use fetch_gate::resolve::{get_url_options, resolve, FetchOptions, RequestOptions, Resource};
use fetch_gate::text::{ends_with_text, same_text, split_entries};

fn options(url: Option<&str>, method: Option<&str>) -> FetchOptions {
    FetchOptions {
        url: url.map(String::from),
        method: Ok(method.map(String::from)),
        headers: None,
        body: None,
    }
}

fn open_policy() -> AccessPolicy {
    AccessPolicy::from_sources(None, None)
}

fn request(url: &str) -> RequestOptions {
    resolve(Resource::Url(url.to_string()), None)
}

fn ua() -> String {
    "agent 1.0".to_string()
}

#[test]
fn every_supported_method_parses() {
    let cases = [
        ("GET", Method::Get),
        ("POST", Method::Post),
        ("PUT", Method::Put),
        ("CONNECT", Method::Connect),
        ("HEAD", Method::Head),
        ("PATCH", Method::Patch),
        ("DELETE", Method::Delete),
    ];
    for (text, m) in cases {
        assert_eq!(parse_method(Some(text)).unwrap(), m);
        assert_eq!(m.as_str(), text);
    }
}

#[test]
fn absent_method_is_get() {
    assert_eq!(parse_method(None).unwrap(), Method::Get);
}

#[test]
fn other_method_text_is_named_in_the_error() {
    for text in ["get", "OPTIONS", "Post", "TRACE "] {
        match parse_method(Some(text)) {
            Err(FetchError::InvalidMethod { shown }) => assert_eq!(shown, text),
            other => panic!("unexpected {:?}", other),
        }
    }
}

#[test]
fn empty_method_text_shows_placeholder() {
    match parse_method(Some("")) {
        Err(FetchError::InvalidMethod { shown }) => assert_eq!(shown, "{empty}"),
        other => panic!("unexpected {:?}", other),
    }
}

#[test]
fn text_argument_alone_gives_url_and_get() {
    let r = resolve(Resource::Url("https://example.com/a".to_string()), None);
    assert_eq!(r.url.as_deref(), Some("https://example.com/a"));
    assert_eq!(r.method.unwrap(), Method::Get);
    assert!(r.headers.is_none());
    assert!(r.body.unwrap().is_empty());
}

#[test]
fn options_argument_ignores_second_object() {
    let r = resolve(
        Resource::Options(options(Some("https://a"), Some("POST"))),
        Some(options(Some("https://b"), Some("PUT"))),
    );
    assert_eq!(r.url.as_deref(), Some("https://a"));
    assert_eq!(r.method.unwrap(), Method::Post);
}

#[test]
fn second_object_overrides_text_url() {
    let r = resolve(
        Resource::Url("https://a".to_string()),
        Some(options(Some("https://b"), None)),
    );
    assert_eq!(r.url.as_deref(), Some("https://b"));
    assert_eq!(r.method.unwrap(), Method::Get);
}

#[test]
fn second_object_without_url_keeps_text_url() {
    let r = resolve(
        Resource::Url("https://a".to_string()),
        Some(options(None, Some("DELETE"))),
    );
    assert_eq!(r.url.as_deref(), Some("https://a"));
    assert_eq!(r.method.unwrap(), Method::Delete);
}

#[test]
fn ignored_second_object_raises_no_conversion_error() {
    let bad = FetchOptions {
        url: None,
        method: Err(FetchError::Conversion { reason: "m".to_string() }),
        headers: Some(Err(FetchError::Conversion { reason: "h".to_string() })),
        body: Some(Err(FetchError::Conversion { reason: "b".to_string() })),
    };
    let r = resolve(Resource::Options(options(Some("https://example.com/"), None)), Some(bad));
    let out = prepare(&open_policy(), r, ua()).unwrap();
    assert_eq!(out.method, Method::Get);
}

#[test]
fn url_options_split() {
    let (u, o) = get_url_options(Resource::Url("https://x".to_string()));
    assert_eq!(u.as_deref(), Some("https://x"));
    assert!(o.is_none());
    let (u, o) = get_url_options(Resource::Options(options(Some("https://y"), None)));
    assert!(u.is_none());
    assert_eq!(o.unwrap().url.as_deref(), Some("https://y"));
    let (u, o) = get_url_options(Resource::Other);
    assert!(u.is_none() && o.is_none());
}

#[test]
fn missing_url_fails_before_any_check() {
    let policy = AccessPolicy::from_sources(Some("https://allowed.org"), Some("https://example.com"));
    let r = resolve(Resource::Other, Some(options(None, Some("BAD"))));
    let e = prepare(&policy, r, ua()).unwrap_err();
    assert!(matches!(e, FetchError::MissingUrl));
    assert_eq!(e.kind(), ErrorKind::Argument);
}

#[test]
fn malformed_deny_list_fails_every_call() {
    let policy = AccessPolicy::from_sources(None, Some("https://ok.org http://a:1:2"));
    assert!(matches!(policy.deny, Some(Err(_))));
    let first = policy.check_config().unwrap_err();
    for r in [
        request("https://example.com/"),
        request("https://ok.org/"),
        resolve(Resource::Other, None),
        request(""),
    ] {
        let e = prepare(&policy, r, ua()).unwrap_err();
        match (&e, &first) {
            (
                FetchError::Config { list, reason },
                FetchError::Config { list: l0, reason: r0 },
            ) => {
                assert_eq!(*list, PolicyList::Deny);
                assert_eq!(*l0, PolicyList::Deny);
                assert_eq!(reason, r0);
            },
            other => panic!("unexpected {:?}", other),
        }
        assert_eq!(e.kind(), ErrorKind::Configuration);
    }
}

#[test]
fn malformed_allow_list_is_reported_first() {
    let policy = AccessPolicy::from_sources(Some("http://[::1"), Some("http://a:1:2"));
    match policy.check_config() {
        Err(FetchError::Config { list, .. }) => assert_eq!(list, PolicyList::Allow),
        other => panic!("unexpected {:?}", other),
    }
}

#[test]
fn deny_takes_precedence_over_allow() {
    let policy = AccessPolicy::from_sources(Some("https://example.com"), Some("https://example.com"));
    let e = prepare(&policy, request("https://api.example.com/x"), ua()).unwrap_err();
    match &e {
        FetchError::Denied { url } => assert_eq!(url, "https://api.example.com/x"),
        other => panic!("unexpected {:?}", other),
    }
    assert_eq!(e.kind(), ErrorKind::AccessControl);
}

#[test]
fn url_outside_allow_list_is_rejected() {
    let policy = AccessPolicy::from_sources(Some("https://other.org"), None);
    let e = prepare(&policy, request("https://example.com/"), ua()).unwrap_err();
    assert!(matches!(e, FetchError::NotAllowed { .. }));
    let ok = prepare(&policy, request("https://www.other.org/p"), ua());
    assert!(ok.is_ok());
}

#[test]
fn ports_must_agree() {
    let policy = AccessPolicy::from_sources(None, Some("http://example.com"));
    assert!(prepare(&policy, request("https://example.com/"), ua()).is_ok());
    let e = prepare(&policy, request("http://example.com/"), ua()).unwrap_err();
    assert!(matches!(e, FetchError::Denied { .. }));
    let e = prepare(&policy, request("https://example.com:80/"), ua()).unwrap_err();
    assert!(matches!(e, FetchError::Denied { .. }));
}

#[test]
fn list_entries_are_parsed() {
    let policy = AccessPolicy::from_sources(Some("https://example.com:8443, http://b.org"), None);
    let list = match policy.allow {
        Some(Ok(l)) => l,
        other => panic!("unexpected {:?}", other),
    };
    assert_eq!(list.len(), 2);
    assert_eq!(list[0].scheme.as_deref(), Some("https"));
    assert_eq!(list[0].host.as_deref(), Some("example.com"));
    assert_eq!(list[0].port, Some(8443));
    assert_eq!(port_of(&list[0]), 8443);
    assert_eq!(list[1].host.as_deref(), Some("b.org"));
    assert_eq!(list[1].port, None);
    assert_eq!(port_of(&list[1]), 80);
    assert!(parse_list("").unwrap().is_empty());
    assert!(parse_list("http://a:1:2").is_err());
}

#[test]
fn unparseable_url_is_an_argument_error() {
    let e = prepare(&open_policy(), request(""), ua()).unwrap_err();
    assert!(matches!(e, FetchError::InvalidUrl { .. }));
    assert_eq!(e.kind(), ErrorKind::Argument);
}

#[test]
fn invalid_method_surfaces_at_dispatch() {
    let r = resolve(Resource::Options(options(Some("https://example.com/"), Some("get"))), None);
    assert!(r.method.is_err());
    let e = prepare(&open_policy(), r, ua()).unwrap_err();
    assert!(matches!(e, FetchError::InvalidMethod { .. }));
}

#[test]
fn deferred_header_and_body_errors_surface_at_dispatch() {
    let mut o = options(Some("https://example.com/"), None);
    o.headers = Some(Err(FetchError::Conversion { reason: "headers".to_string() }));
    let e = prepare(&open_policy(), resolve(Resource::Options(o), None), ua()).unwrap_err();
    match &e {
        FetchError::Conversion { reason } => assert_eq!(reason, "headers"),
        other => panic!("unexpected {:?}", other),
    }
    assert_eq!(e.kind(), ErrorKind::Conversion);
    let mut o = options(Some("https://example.com/"), None);
    o.body = Some(Err(FetchError::Conversion { reason: "body".to_string() }));
    match prepare(&open_policy(), resolve(Resource::Options(o), None), ua()) {
        Err(FetchError::Conversion { reason }) => assert_eq!(reason, "body"),
        other => panic!("unexpected {:?}", other),
    }
}

#[test]
fn outbound_request_carries_fixed_headers_first() {
    let mut o = options(Some("https://example.com/p"), Some("PATCH"));
    o.headers = Some(Ok(vec![("x-a".to_string(), "1".to_string()), ("accept".to_string(), "text/plain".to_string())]));
    o.body = Some(Ok(vec![1, 2, 3]));
    let out = prepare(&open_policy(), resolve(Resource::Options(o), None), ua()).unwrap();
    assert_eq!(out.method, Method::Patch);
    assert_eq!(out.url, "https://example.com/p");
    assert_eq!(out.body, vec![1, 2, 3]);
    let names: Vec<(&str, &str)> = out.headers.iter().map(|(k, v)| (k.as_str(), v.as_str())).collect();
    assert_eq!(
        names,
        vec![
            ("user-agent", "agent 1.0"),
            ("accept", "*/*"),
            ("x-a", "1"),
            ("accept", "text/plain"),
        ]
    );
}

fn outbound(method: Method, url: &str) -> Outbound {
    Outbound { method, url: url.to_string(), headers: Vec::new(), body: Vec::new() }
}

#[test]
fn handle_reports_method_and_url_sent() {
    let h = complete(outbound(Method::Post, "https://example.com/a"), Ok::<u8, String>(7), 1500).unwrap();
    assert_eq!(h.raw, 7);
    assert_eq!(h.method_text(), "POST");
    assert_eq!(h.url_text(), "https://example.com/a");
    assert_eq!(h.elapsed, 1500);
}

#[test]
fn failed_exchange_is_a_transport_error() {
    let e = complete(outbound(Method::Get, "https://example.com/"), Err::<u8, String>("reset".to_string()), 3).unwrap_err();
    match &e {
        FetchError::Transport { reason } => assert_eq!(reason, "reset"),
        other => panic!("unexpected {:?}", other),
    }
    assert_eq!(e.kind(), ErrorKind::Transport);
}

#[test]
fn entries_split_on_whitespace_and_commas() {
    assert_eq!(split_entries("a  b,c\n\td "), vec!["a", "b", "c", "d"]);
    assert!(split_entries("").is_empty());
    assert!(split_entries(" ,\n").is_empty());
    assert_eq!(split_entries("one"), vec!["one"]);
}

#[test]
fn text_helpers() {
    assert!(same_text("abc", "abc"));
    assert!(!same_text("abc", "abd"));
    assert!(!same_text("abc", "ab"));
    assert!(ends_with_text("api.example.com", "example.com"));
    assert!(ends_with_text("x", ""));
    assert!(!ends_with_text("example.com", "api.example.com"));
    assert!(!ends_with_text("example.org", "example.com"));
}

fn with_headers(hs: Vec<(&str, &str)>) -> FetchOptions {
    let mut o = options(Some("https://example.com/"), Some("POST"));
    o.headers = Some(Ok(hs.into_iter().map(|(k, v)| (k.to_string(), v.to_string())).collect()));
    o
}

#[test]
fn invalid_header_name_is_refused_before_sending() {
    let o = with_headers(vec![("x-ok", "1"), ("bad name", "2"), ("also bad", "3")]);
    let e = prepare(&open_policy(), resolve(Resource::Options(o), None), ua()).unwrap_err();
    match &e {
        FetchError::InvalidHeader { name } => assert_eq!(name, "bad name"),
        other => panic!("unexpected {:?}", other),
    }
    assert_eq!(e.kind(), ErrorKind::Conversion);
}

#[test]
fn invalid_header_value_is_refused_before_sending() {
    let o = with_headers(vec![("x-a", "line\nbreak")]);
    match prepare(&open_policy(), resolve(Resource::Options(o), None), ua()) {
        Err(FetchError::InvalidHeader { name }) => assert_eq!(name, "x-a"),
        other => panic!("unexpected {:?}", other),
    }
}

#[test]
fn body_failure_comes_before_header_validity() {
    let mut o = with_headers(vec![("bad name", "1")]);
    o.body = Some(Err(FetchError::Conversion { reason: "body".to_string() }));
    match prepare(&open_policy(), resolve(Resource::Options(o), None), ua()) {
        Err(FetchError::Conversion { reason }) => assert_eq!(reason, "body"),
        other => panic!("unexpected {:?}", other),
    }
}

#[test]
fn relative_url_is_refused_before_access_checks() {
    let policy = AccessPolicy::from_sources(None, Some("https://example.com"));
    for url in ["/path", "example.com"] {
        let e = prepare(&policy, request(url), ua()).unwrap_err();
        assert!(matches!(e, FetchError::InvalidUrl { .. }), "{}", url);
    }
}
