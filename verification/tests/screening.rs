use link_preview::address::{
    collect_validated_resolved_ips, is_disallowed_ip, is_documentation_ipv6,
    normalize_ip_for_policy, pinned_attempts, IpAddress, Ipv4Address, Ipv6Address, SocketAddress,
};
use link_preview::errors::PreviewError;
use link_preview::target::{
    ensure_url_shape_is_allowed, parse_preview_url, resolve_maybe_relative_url, HostKind,
    TargetUrl,
};
use url::{Host, Url};

fn target(url: &Url) -> TargetUrl {
    let host = match url.host() {
        None => HostKind::Absent,
        Some(Host::Domain(_)) => HostKind::Domain,
        Some(Host::Ipv4(a)) => HostKind::Ipv4(Ipv4Address::from_octets(a.octets())),
        Some(Host::Ipv6(a)) => HostKind::Ipv6(Ipv6Address::from_segments(a.segments())),
    };
    TargetUrl {
        href: url.to_string(),
        scheme: url.scheme().to_string(),
        host_text: url.host_str().map(String::from),
        host,
        port: url.port(),
        known_port: url.port_or_known_default(),
    }
}

fn address(host: Host<String>) -> IpAddress {
    match host {
        Host::Ipv4(a) => IpAddress::V4(Ipv4Address::from_octets(a.octets())),
        Host::Ipv6(a) => IpAddress::V6(Ipv6Address::from_segments(a.segments())),
        Host::Domain(name) => panic!("{name} is no address"),
    }
}

fn v4(a: u8, b: u8, c: u8, d: u8) -> IpAddress {
    IpAddress::V4(Ipv4Address { a, b, c, d })
}

fn v6(s: [u16; 8]) -> IpAddress {
    IpAddress::V6(Ipv6Address::from_segments(s))
}

#[test]
fn blocked_private_target_is_rejected() {
    let blocked = Url::parse("http://127.0.0.1/private").expect("valid URL");

    let result = ensure_url_shape_is_allowed(&target(&blocked));
    assert!(result.is_err());
    assert_eq!(result, Err(PreviewError::AddressBlocked));
    assert_eq!(
        parse_preview_url("http://127.0.0.1/private").unwrap_err(),
        PreviewError::AddressBlocked
    );
}

#[test]
fn blocked_ipv4_mapped_ipv6_target_is_rejected() {
    let blocked = Url::parse("http://[::ffff:127.0.0.1]/private").expect("valid URL");

    let result = ensure_url_shape_is_allowed(&target(&blocked));
    assert!(result.is_err());
    assert_eq!(result, Err(PreviewError::AddressBlocked));
    assert_eq!(
        parse_preview_url("http://[::ffff:127.0.0.1]/private").unwrap_err(),
        PreviewError::AddressBlocked
    );
}

#[test]
fn collect_validated_resolved_ips_returns_multiple_unique_public_ips() {
    let resolved = vec![
        SocketAddress { ip: address(Host::parse("93.184.216.34").expect("valid ip")), port: 80 },
        SocketAddress {
            ip: address(Host::parse("[2606:2800:220:1:248:1893:25c8:1946]").expect("valid ip")),
            port: 80,
        },
        SocketAddress { ip: address(Host::parse("93.184.216.34").expect("valid ip")), port: 80 },
    ];

    let ips = collect_validated_resolved_ips(&resolved).expect("public addresses should pass");
    assert_eq!(ips.len(), 2);
    assert_eq!(
        ips,
        vec![
            v4(93, 184, 216, 34),
            v6([0x2606, 0x2800, 0x220, 0x1, 0x248, 0x1893, 0x25c8, 0x1946])
        ]
    );
}

#[test]
fn parsing_reads_what_the_url_holds() {
    for raw in [
        "http://93.184.216.34/start",
        "https://Example.com:8443/a/../b?q=1#f",
        "https://[2606:2800:220:1:248:1893:25c8:1946]/",
        "http://example.com:80/",
    ] {
        let expected = target(&Url::parse(raw).expect("valid URL"));
        let parsed = parse_preview_url(raw).expect("public URL");
        assert_eq!(format!("{:?}", parsed), format!("{:?}", expected));
    }
}

#[test]
fn resolved_set_with_one_blocked_address_is_refused() {
    let resolved = vec![
        SocketAddress { ip: v4(93, 184, 216, 34), port: 443 },
        SocketAddress { ip: v4(10, 0, 0, 7), port: 443 },
    ];
    assert_eq!(collect_validated_resolved_ips(&resolved), Err(PreviewError::AddressBlocked));
    assert_eq!(collect_validated_resolved_ips(&Vec::new()), Err(PreviewError::UnresolvableHost));
}

#[test]
fn pinned_attempts_are_capped() {
    let ips = vec![v4(1, 1, 1, 1), v4(8, 8, 8, 8), v4(9, 9, 9, 9)];
    assert_eq!(pinned_attempts(&ips, 2), vec![v4(1, 1, 1, 1), v4(8, 8, 8, 8)]);
    assert_eq!(pinned_attempts(&ips, 10), ips);
    assert_eq!(pinned_attempts(&ips, 0), Vec::new());
}

#[test]
fn non_public_ipv4_ranges_are_disallowed() {
    let blocked = [
        v4(10, 1, 2, 3),
        v4(172, 16, 0, 1),
        v4(172, 31, 255, 255),
        v4(192, 168, 1, 1),
        v4(127, 0, 0, 1),
        v4(169, 254, 10, 10),
        v4(224, 0, 0, 1),
        v4(239, 255, 255, 255),
        v4(255, 255, 255, 255),
        v4(192, 0, 2, 5),
        v4(198, 51, 100, 5),
        v4(203, 0, 113, 5),
        v4(0, 0, 0, 0),
        v4(0, 1, 2, 3),
    ];
    for ip in blocked {
        assert!(is_disallowed_ip(ip), "{:?}", ip);
    }
    let public = [
        v4(93, 184, 216, 34),
        v4(8, 8, 8, 8),
        v4(172, 15, 0, 1),
        v4(172, 32, 0, 1),
        v4(192, 169, 0, 1),
        v4(223, 255, 255, 255),
        v4(240, 0, 0, 1),
        v4(192, 0, 3, 1),
    ];
    for ip in public {
        assert!(!is_disallowed_ip(ip), "{:?}", ip);
    }
}

#[test]
fn non_public_ipv6_ranges_are_disallowed() {
    let blocked = [
        v6([0, 0, 0, 0, 0, 0, 0, 1]),
        v6([0, 0, 0, 0, 0, 0, 0, 0]),
        v6([0xfc00, 0, 0, 0, 0, 0, 0, 1]),
        v6([0xfdff, 0, 0, 0, 0, 0, 0, 1]),
        v6([0xfe80, 0, 0, 0, 0, 0, 0, 1]),
        v6([0xfebf, 0, 0, 0, 0, 0, 0, 1]),
        v6([0xff02, 0, 0, 0, 0, 0, 0, 1]),
        v6([0x2001, 0x0db8, 0, 0, 0, 0, 0, 1]),
        v6([0, 0, 0, 0, 0, 0xffff, 0x7f00, 0x0001]),
        v6([0, 0, 0, 0, 0, 0xffff, 0x0a00, 0x0001]),
        v6([0, 0, 0, 0, 0, 0, 0xc0a8, 0x0101]),
    ];
    for ip in blocked {
        assert!(is_disallowed_ip(ip), "{:?}", ip);
    }
    let public = [
        v6([0x2606, 0x2800, 0x220, 0x1, 0x248, 0x1893, 0x25c8, 0x1946]),
        v6([0x2001, 0x0db9, 0, 0, 0, 0, 0, 1]),
        v6([0, 0, 0, 0, 0, 0xffff, 0x5db8, 0xd822]),
        v6([0xfec0, 0, 0, 0, 0, 0, 0, 1]),
    ];
    for ip in public {
        assert!(!is_disallowed_ip(ip), "{:?}", ip);
    }
}

#[test]
fn embedded_ipv4_is_normalised() {
    assert_eq!(
        normalize_ip_for_policy(v6([0, 0, 0, 0, 0, 0xffff, 0x5db8, 0xd822])),
        v4(93, 184, 216, 34)
    );
    assert_eq!(normalize_ip_for_policy(v6([0, 0, 0, 0, 0, 0, 0x0102, 0x0304])), v4(1, 2, 3, 4));
    let plain = v6([0x2606, 0, 0, 0, 0, 0xffff, 1, 2]);
    assert_eq!(normalize_ip_for_policy(plain), plain);
    assert_eq!(normalize_ip_for_policy(v4(1, 2, 3, 4)), v4(1, 2, 3, 4));
    assert!(is_documentation_ipv6(Ipv6Address::from_segments([0x2001, 0xdb8, 1, 2, 3, 4, 5, 6])));
    assert!(!is_documentation_ipv6(Ipv6Address::from_segments([0x2001, 0xdb7, 0, 0, 0, 0, 0, 0])));
}

#[test]
fn url_rules_give_each_error() {
    assert_eq!(parse_preview_url("not a url").unwrap_err(), PreviewError::InvalidUrl);
    assert_eq!(parse_preview_url("ftp://example.com/").unwrap_err(), PreviewError::SchemeNotAllowed);
    assert_eq!(parse_preview_url("http://localhost/").unwrap_err(), PreviewError::LocalAddress);
    assert_eq!(parse_preview_url("http://LOCALHOST:8080/").unwrap_err(), PreviewError::LocalAddress);
    assert_eq!(parse_preview_url("https://api.localhost/x").unwrap_err(), PreviewError::LocalAddress);
    assert_eq!(parse_preview_url("http://0177.0.0.1/").unwrap_err(), PreviewError::AddressBlocked);
    assert_eq!(parse_preview_url("http://0.1.2.3/").unwrap_err(), PreviewError::AddressBlocked);
    assert_eq!(parse_preview_url("http://[::1]/").unwrap_err(), PreviewError::AddressBlocked);
    assert_eq!(parse_preview_url("http://[fd00::1]/").unwrap_err(), PreviewError::AddressBlocked);
    assert_eq!(parse_preview_url("http://192.168.0.1/").unwrap_err(), PreviewError::AddressBlocked);
    let no_host = TargetUrl {
        href: "http:/x".to_string(),
        scheme: "http".to_string(),
        host_text: None,
        host: HostKind::Absent,
        port: None,
        known_port: Some(80),
    };
    assert_eq!(ensure_url_shape_is_allowed(&no_host), Err(PreviewError::HostRequired));
}

#[test]
fn public_urls_are_accepted_and_normalised() {
    let url = parse_preview_url("HTTP://Example.COM:80/a/../b?q=1").expect("valid URL");
    assert_eq!(url.href, "http://example.com/b?q=1");
    assert_eq!(url.scheme, "http");
    assert_eq!(url.host_text.as_deref(), Some("example.com"));
    assert_eq!(url.host, HostKind::Domain);
    assert_eq!(url.port, None);
    assert_eq!(url.known_port, Some(80));
    let literal = parse_preview_url("https://93.184.216.34:8443/start").expect("valid URL");
    assert_eq!(literal.host, HostKind::Ipv4(Ipv4Address { a: 93, b: 184, c: 216, d: 34 }));
    assert_eq!(literal.port, Some(8443));
    assert!(ensure_url_shape_is_allowed(&literal).is_ok());
    let six = parse_preview_url("http://[2606:2800:220:1:248:1893:25c8:1946]/").expect("valid URL");
    assert_eq!(
        six.host,
        HostKind::Ipv6(Ipv6Address::from_segments([
            0x2606, 0x2800, 0x220, 0x1, 0x248, 0x1893, 0x25c8, 0x1946
        ]))
    );
}

#[test]
fn references_are_made_absolute() {
    let base = parse_preview_url("https://example.com/posts/one").expect("valid URL");
    assert_eq!(
        resolve_maybe_relative_url(&base, "/img/a.png").as_deref(),
        Some("https://example.com/img/a.png")
    );
    assert_eq!(
        resolve_maybe_relative_url(&base, "b.png").as_deref(),
        Some("https://example.com/posts/b.png")
    );
    assert_eq!(
        resolve_maybe_relative_url(&base, "https://cdn.example.org/c.png").as_deref(),
        Some("https://cdn.example.org/c.png")
    );
    assert_eq!(resolve_maybe_relative_url(&base, "https://").as_deref(), None);
    for absolute in [
        "https://cdn.test",
        "HTTPS://CDN.test/a/../b.png",
        "http://cdn.test:80/x y.png",
        "data:image/png;base64,AAAA",
    ] {
        assert_eq!(resolve_maybe_relative_url(&base, absolute).as_deref(), Some(absolute));
    }
}

#[test]
fn error_messages_are_fixed() {
    assert_eq!(PreviewError::InvalidUrl.message(), "invalid URL");
    assert_eq!(PreviewError::SchemeNotAllowed.message(), "URL scheme must be http or https");
    assert_eq!(PreviewError::HostRequired.message(), "URL host is required");
    assert_eq!(PreviewError::LocalAddress.message(), "local addresses are not allowed");
    assert_eq!(PreviewError::AddressBlocked.message(), "host address is blocked");
    assert_eq!(PreviewError::PortRequired.message(), "URL port is required");
    assert_eq!(PreviewError::ClientSetup.message(), "failed to prepare request client");
    assert_eq!(PreviewError::FetchFailed.message(), "failed to fetch URL");
    assert_eq!(PreviewError::LookupTimedOut.message(), "host lookup timed out");
    assert_eq!(PreviewError::UnresolvableHost.message(), "unable to resolve host");
    assert_eq!(PreviewError::TooManyRedirects.message(), "too many redirects");
    assert_eq!(
        PreviewError::RedirectWithoutLocation.message(),
        "received redirect without location"
    );
    assert_eq!(
        PreviewError::InvalidRedirectLocation.message(),
        "received invalid redirect location"
    );
    assert_eq!(PreviewError::NonSuccessResponse.message(), "received non-success response");
    assert_eq!(PreviewError::BodyReadFailed.message(), "failed reading response body");
    assert_eq!(PreviewError::BodyTooLarge.message(), "response body too large");
}
