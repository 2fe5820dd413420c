//! Preview targets: URLs taken apart into the plain values that the safety
//! rules read, and the rules themselves.

use vstd::prelude::*;
use crate::address::{is_disallowed_ip, IpAddress, Ipv4Address, Ipv6Address};
use crate::errors::PreviewError;
use crate::text::{
    chars_of,
    copy_text,
    ends_with,
    eq_ignore_ascii_case,
    lowered,
    same_text,
    text_view,
};

verus! {

/// What kind of host a URL names.
#[derive(Clone, Copy, Debug, PartialEq, Eq, Structural)]
pub enum HostKind {
    /// The URL has no host.
    Absent,
    /// A registered or opaque name.
    Domain,
    /// A literal IPv4 address.
    Ipv4(Ipv4Address),
    /// A literal IPv6 address.
    Ipv6(Ipv6Address),
}

/// A parsed URL, reduced to what the library reads of it.
#[derive(Clone, Debug)]
pub struct TargetUrl {
    /// The normalised serialisation; the key under which results are cached.
    pub href: String,
    /// The scheme, in lower case and without the colon.
    pub scheme: String,
    /// The host as written in the serialisation.
    pub host_text: Option<String>,
    /// The kind of host, with the address where it is a literal one.
    pub host: HostKind,
    /// The port, where the URL names one that is not the scheme's default.
    pub port: Option<u16>,
    /// The port named, or else the scheme's default.
    pub known_port: Option<u16>,
}

/// The mathematical value of a `TargetUrl`.
pub struct UrlParts {
    pub href: Seq<char>,
    pub scheme: Seq<char>,
    pub host_text: Option<Seq<char>>,
    pub host: HostKind,
    pub port: Option<u16>,
    pub known_port: Option<u16>,
}

impl View for TargetUrl {
    type V = UrlParts;

    open spec fn view(&self) -> UrlParts {
        UrlParts {
            href: self.href@,
            scheme: self.scheme@,
            host_text: text_view(self.host_text),
            host: self.host,
            port: self.port,
            known_port: self.known_port,
        }
    }
}

impl TargetUrl {
    /// A copy with the same value.
    pub fn duplicate(&self) -> (copy: TargetUrl)
        ensures
            copy@ == self@,
    {
        TargetUrl {
            href: self.href.clone(),
            scheme: self.scheme.clone(),
            host_text: copy_text(&self.host_text),
            host: self.host,
            port: self.port,
            known_port: self.known_port,
        }
    }
}

/// The view of an optional target.
pub open spec fn target_view(o: Option<TargetUrl>) -> Option<UrlParts> {
    match o {
        Some(u) => Some(u@),
        None => None,
    }
}

/// What `url::Url::parse` makes of a text: the parts of the URL, or `None`
/// where the text is not a URL.
pub uninterp spec fn url_parse(raw: Seq<char>) -> Option<UrlParts>;

/// What `url::Url::join` makes of a reference against the URL with the
/// serialisation `base`.
pub uninterp spec fn url_join(base: Seq<char>, reference: Seq<char>) -> Option<UrlParts>;

/// Calls `url::Url::parse` and reads the result through `Url::to_string`,
/// `scheme`, `host`, `host_str`, `port` and `port_or_known_default`. The
/// contract claims only that the outcome is a function of the text: which
/// texts are URLs, and what their parts are, is the `url` crate's to say.
#[verifier::external_body]
pub(crate) fn parse_url(raw: &str) -> (parsed: Option<TargetUrl>)
    ensures
        target_view(parsed) == url_parse(raw@),
{
    let u = url::Url::parse(raw).ok()?;
    let host = match u.host() {
        None => HostKind::Absent,
        Some(url::Host::Domain(_)) => HostKind::Domain,
        Some(url::Host::Ipv4(a)) => HostKind::Ipv4(Ipv4Address::from_octets(a.octets())),
        Some(url::Host::Ipv6(a)) => HostKind::Ipv6(Ipv6Address::from_segments(a.segments())),
    };
    let (port, known_port) = (u.port(), u.port_or_known_default());
    let host_text = u.host_str().map(String::from);
    Some(TargetUrl { href: u.to_string(), scheme: u.scheme().to_string(), host_text, host, port, known_port })
}

/// Calls `url::Url::join` on the URL that `base` serialises, and reads the
/// result through the same accessors as `parse_url`. The contract claims
/// only that the outcome is a function of the two texts.
#[verifier::external_body]
pub(crate) fn join_url(base: &str, reference: &str) -> (joined: Option<TargetUrl>)
    ensures
        target_view(joined) == url_join(base@, reference@),
{
    let u = url::Url::parse(base).ok()?.join(reference).ok()?;
    let host = match u.host() {
        None => HostKind::Absent,
        Some(url::Host::Domain(_)) => HostKind::Domain,
        Some(url::Host::Ipv4(a)) => HostKind::Ipv4(Ipv4Address::from_octets(a.octets())),
        Some(url::Host::Ipv6(a)) => HostKind::Ipv6(Ipv6Address::from_segments(a.segments())),
    };
    let (port, known_port) = (u.port(), u.port_or_known_default());
    let host_text = u.host_str().map(String::from);
    Some(TargetUrl { href: u.to_string(), scheme: u.scheme().to_string(), host_text, host, port, known_port })
}

/// Whether the host text is `localhost` in any ASCII case, or ends in
/// `.localhost`.
pub open spec fn is_local_name(host: Seq<char>) -> bool {
    lowered(host) == lowered("localhost"@) || ".localhost"@.is_suffix_of(host)
}

/// The address of a literal host, if the host is one.
pub open spec fn literal_address(host: HostKind) -> Option<IpAddress> {
    match host {
        HostKind::Ipv4(v4) => Some(IpAddress::V4(v4)),
        HostKind::Ipv6(v6) => Some(IpAddress::V6(v6)),
        _ => None,
    }
}

/// Whether the scheme is `http` or `https`.
pub open spec fn is_http(u: UrlParts) -> bool {
    u.scheme == "http"@ || u.scheme == "https"@
}

/// The verdict of the safety rules on a URL, first failing rule first.
pub open spec fn shape_verdict(u: UrlParts) -> Result<(), PreviewError> {
    if !is_http(u) {
        Err(PreviewError::SchemeNotAllowed)
    } else if u.host_text is None {
        Err(PreviewError::HostRequired)
    } else if is_local_name(u.host_text->0) {
        Err(PreviewError::LocalAddress)
    } else if literal_address(u.host) is Some && literal_address(u.host)->0.is_blocked() {
        Err(PreviewError::AddressBlocked)
    } else {
        Ok(())
    }
}

/// What parsing and screening make of a raw text.
pub open spec fn preview_url_verdict(raw: Seq<char>) -> Result<UrlParts, PreviewError> {
    match url_parse(raw) {
        None => Err(PreviewError::InvalidUrl),
        Some(parts) => match shape_verdict(parts) {
            Err(e) => Err(e),
            Ok(_) => Ok(parts),
        },
    }
}

/// The view of a screening result.
pub open spec fn verdict_view(r: Result<TargetUrl, PreviewError>) -> Result<
    UrlParts,
    PreviewError,
> {
    match r {
        Ok(u) => Ok(u@),
        Err(e) => Err(e),
    }
}

/// Whether the URL's scheme is `http` or `https`.
pub fn has_http_scheme(url: &TargetUrl) -> (yes: bool)
    ensures
        yes == is_http(url@),
{
    same_text(url.scheme.as_str(), "http") || same_text(url.scheme.as_str(), "https")
}

/// Applies the safety rules to a URL: the scheme must be `http` or `https`,
/// a host must be present and must not be `localhost` or under it, and a
/// literal address must be publicly routable.
pub fn ensure_url_shape_is_allowed(url: &TargetUrl) -> (verdict: Result<(), PreviewError>)
    ensures
        verdict == shape_verdict(url@),
{
    if !has_http_scheme(url) {
        return Err(PreviewError::SchemeNotAllowed);
    }
    let host = match &url.host_text {
        Some(host) => host,
        None => {
            return Err(PreviewError::HostRequired);
        },
    };
    let host_chars = chars_of(host.as_str());
    let suffix = chars_of(".localhost");
    if eq_ignore_ascii_case(host.as_str(), "localhost") || ends_with(&host_chars, &suffix) {
        return Err(PreviewError::LocalAddress);
    }
    match url.host {
        HostKind::Ipv4(v4) => {
            if is_disallowed_ip(IpAddress::V4(v4)) {
                return Err(PreviewError::AddressBlocked);
            }
        },
        HostKind::Ipv6(v6) => {
            if is_disallowed_ip(IpAddress::V6(v6)) {
                return Err(PreviewError::AddressBlocked);
            }
        },
        _ => {},
    }
    Ok(())
}

/// Parses a raw text and screens the URL it denotes.
pub fn parse_preview_url(raw_url: &str) -> (parsed: Result<TargetUrl, PreviewError>)
    ensures
        verdict_view(parsed) == preview_url_verdict(raw_url@),
{
    match parse_url(raw_url) {
        None => Err(PreviewError::InvalidUrl),
        Some(url) => match ensure_url_shape_is_allowed(&url) {
            Err(e) => Err(e),
            Ok(_) => Ok(url),
        },
    }
}

/// `value` itself where it is a URL by itself, else the serialisation of
/// `value` joined to the base, else nothing.
pub open spec fn resolved_reference(base: Seq<char>, value: Seq<char>) -> Option<Seq<char>> {
    match url_parse(value) {
        Some(_) => Some(value),
        None => match url_join(base, value) {
            Some(parts) => Some(parts.href),
            None => None,
        },
    }
}

/// Makes a reference found in a page absolute: an absolute URL passes
/// through unchanged, anything else is joined to the base.
pub fn resolve_maybe_relative_url(base_url: &TargetUrl, value: &str) -> (absolute: Option<String>)
    ensures
        text_view(absolute) == resolved_reference(base_url@.href, value@),
{
    match parse_url(value) {
        Some(_) => Some(value.to_owned()),
        None => match join_url(base_url.href.as_str(), value) {
            Some(joined) => Some(joined.href),
            None => None,
        },
    }
}

/// A literal address that the policy blocks is refused whatever else the
/// URL holds.
pub proof fn lemma_blocked_literal_is_refused(u: UrlParts)
    requires
        literal_address(u.host) is Some,
        literal_address(u.host)->0.is_blocked(),
    ensures
        shape_verdict(u) is Err,
{
}

/// A literal address that the policy does not block is accepted, provided
/// the scheme is `http` or `https` and the host text is present and not a
/// local name.
pub proof fn lemma_public_literal_is_accepted(u: UrlParts)
    requires
        is_http(u),
        u.host_text is Some,
        !is_local_name(u.host_text->0),
        literal_address(u.host) is Some,
        !literal_address(u.host)->0.is_blocked(),
    ensures
        shape_verdict(u) == Ok::<(), PreviewError>(()),
{
}

} // verus!
