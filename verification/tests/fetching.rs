use link_preview::errors::PreviewError;
use link_preview::fetch::{
    append_body_chunk, decide_hop, metadata_from_body, parse_and_validate_redirect_target,
    plan_pinned_request, HopAction, LocationHeader, RequestPlan,
};
use link_preview::address::{Ipv4Address, Ipv6Address};
use link_preview::target::{
    ensure_url_shape_is_allowed, parse_preview_url, HostKind, TargetUrl,
};
use url::{Host, Url};

fn target(url: &Url) -> TargetUrl {
    let host = match url.host() {
        None => HostKind::Absent,
        Some(Host::Domain(_)) => HostKind::Domain,
        Some(Host::Ipv4(a)) => HostKind::Ipv4(Ipv4Address::from_octets(a.octets())),
        Some(Host::Ipv6(a)) => HostKind::Ipv6(Ipv6Address::from_segments(a.segments())),
    };
    TargetUrl {
        href: url.to_string(),
        scheme: url.scheme().to_string(),
        host_text: url.host_str().map(String::from),
        host,
        port: url.port(),
        known_port: url.port_or_known_default(),
    }
}

fn location(value: &str) -> LocationHeader {
    LocationHeader::Value(value.to_string())
}

#[test]
fn redirect_target_resolves_relative_location() {
    let current = Url::parse("http://93.184.216.34/start").expect("valid URL");

    let redirected = current.join("/next").expect("relative redirect resolves");
    ensure_url_shape_is_allowed(&target(&redirected))
        .expect("public redirect target should be allowed");

    let followed = parse_and_validate_redirect_target(&target(&current), &location("/next"))
        .expect("public redirect target should be allowed");
    assert_eq!(followed.href, "http://93.184.216.34/next");
    assert_eq!(format!("{:?}", followed), format!("{:?}", target(&redirected)));
}

#[test]
fn redirect_to_blocked_address_fails_the_fetch() {
    let current = parse_preview_url("https://example.com/start").expect("valid URL");
    for target in ["http://127.0.0.1/admin", "http://[::ffff:10.0.0.1]/", "http://localhost/"] {
        match decide_hop(&current, 0, 4, 302, &location(target)) {
            HopAction::Fail(_) => {}
            other => panic!("{:?}", other),
        }
    }
    match decide_hop(&current, 1, 4, 301, &location("http://169.254.169.254/latest")) {
        HopAction::Fail(e) => assert_eq!(e, PreviewError::AddressBlocked),
        other => panic!("{:?}", other),
    }
    match decide_hop(&current, 0, 4, 302, &location("ftp://example.com/file")) {
        HopAction::Fail(e) => assert_eq!(e, PreviewError::SchemeNotAllowed),
        other => panic!("{:?}", other),
    }
}

#[test]
fn hops_follow_read_or_fail() {
    let current = parse_preview_url("https://example.com/a/b").expect("valid URL");
    match decide_hop(&current, 0, 4, 302, &location("../c")) {
        HopAction::Follow(next) => assert_eq!(next.href, "https://example.com/c"),
        other => panic!("{:?}", other),
    }
    match decide_hop(&current, 3, 4, 307, &location("https://other.example/")) {
        HopAction::Follow(next) => assert_eq!(next.href, "https://other.example/"),
        other => panic!("{:?}", other),
    }
    match decide_hop(&current, 4, 4, 302, &location("/c")) {
        HopAction::Fail(e) => assert_eq!(e, PreviewError::TooManyRedirects),
        other => panic!("{:?}", other),
    }
    match decide_hop(&current, 0, 4, 302, &LocationHeader::Missing) {
        HopAction::Fail(e) => assert_eq!(e, PreviewError::RedirectWithoutLocation),
        other => panic!("{:?}", other),
    }
    match decide_hop(&current, 0, 4, 302, &LocationHeader::Unreadable) {
        HopAction::Fail(e) => assert_eq!(e, PreviewError::InvalidRedirectLocation),
        other => panic!("{:?}", other),
    }
    match decide_hop(&current, 0, 4, 302, &location("https://")) {
        HopAction::Fail(e) => assert_eq!(e, PreviewError::InvalidRedirectLocation),
        other => panic!("{:?}", other),
    }
    for status in [404u16, 500, 199, 400, 600] {
        match decide_hop(&current, 0, 4, status, &LocationHeader::Missing) {
            HopAction::Fail(e) => assert_eq!(e, PreviewError::NonSuccessResponse),
            other => panic!("{:?}", other),
        }
    }
    for status in [200u16, 204, 299] {
        assert!(matches!(
            decide_hop(&current, 0, 4, status, &LocationHeader::Missing),
            HopAction::ReadBody
        ));
    }
}

#[test]
fn request_plans() {
    let name = parse_preview_url("https://example.com/a").expect("valid URL");
    match plan_pinned_request(&name).expect("plan") {
        RequestPlan::Resolve { host, port } => {
            assert_eq!(host, "example.com");
            assert_eq!(port, 443);
        }
        other => panic!("{:?}", other),
    }
    let named_port = parse_preview_url("http://example.com:8080/a").expect("valid URL");
    match plan_pinned_request(&named_port).expect("plan") {
        RequestPlan::Resolve { host, port } => {
            assert_eq!(host, "example.com");
            assert_eq!(port, 8080);
        }
        other => panic!("{:?}", other),
    }
    let literal = parse_preview_url("http://93.184.216.34/a").expect("valid URL");
    assert!(matches!(plan_pinned_request(&literal), Ok(RequestPlan::Direct)));
    let mut odd_scheme = literal.clone();
    odd_scheme.scheme = "gopher".to_string();
    assert_eq!(plan_pinned_request(&odd_scheme).unwrap_err(), PreviewError::SchemeNotAllowed);
    let mut no_port = name.clone();
    no_port.known_port = None;
    assert_eq!(plan_pinned_request(&no_port).unwrap_err(), PreviewError::PortRequired);
}

#[test]
fn body_is_capped() {
    let mut body: Vec<u8> = Vec::new();
    assert_eq!(append_body_chunk(&mut body, b"hello", 8), Ok(()));
    assert_eq!(body, b"hello");
    assert_eq!(append_body_chunk(&mut body, b"abc", 8), Ok(()));
    assert_eq!(body, b"helloabc");
    assert_eq!(append_body_chunk(&mut body, b"x", 8), Err(PreviewError::BodyTooLarge));
    assert_eq!(body, b"helloabc");
    assert_eq!(append_body_chunk(&mut body, b"", 8), Ok(()));
    let mut other: Vec<u8> = Vec::new();
    assert_eq!(append_body_chunk(&mut other, b"toolong", 3), Err(PreviewError::BodyTooLarge));
    assert!(other.is_empty());
}

#[test]
fn body_is_decoded_leniently() {
    let url = parse_preview_url("https://example.com/page").expect("valid URL");
    let mut body: Vec<u8> = b"<html><head><title>Caf".to_vec();
    body.push(0xff);
    body.extend_from_slice(b" menu</title></head></html>");
    let fetched = metadata_from_body(&body, &url);
    assert_eq!(fetched.resolved_url.href, "https://example.com/page");
    assert_eq!(fetched.metadata.title.as_deref(), Some("Caf\u{fffd} menu"));
    assert_eq!(fetched.metadata.description, None);
    assert_eq!(fetched.metadata.image, None);
}
