//! The reasons for which a preview URL or its fetch is refused.

use vstd::prelude::*;

verus! {

/// Why a URL was refused or a page could not be fetched.
#[derive(Clone, Copy, Debug, PartialEq, Eq, Structural)]
pub enum PreviewError {
    /// The text is not a URL.
    InvalidUrl,
    /// The scheme is neither `http` nor `https`.
    SchemeNotAllowed,
    /// The URL names no host.
    HostRequired,
    /// The host is `localhost` or lies under it.
    LocalAddress,
    /// The host, or an address it resolves to, is not publicly routable.
    AddressBlocked,
    /// The URL has no port and its scheme has no default one.
    PortRequired,
    /// The HTTP client could not be set up.
    ClientSetup,
    /// No connection attempt produced a response.
    FetchFailed,
    /// The name lookup exceeded its time limit.
    LookupTimedOut,
    /// The name did not resolve to any address.
    UnresolvableHost,
    /// The redirect limit was exhausted.
    TooManyRedirects,
    /// A redirect response carried no `Location` header.
    RedirectWithoutLocation,
    /// The `Location` header could not be read or joined.
    InvalidRedirectLocation,
    /// The final response was neither a success nor a redirect.
    NonSuccessResponse,
    /// The body stream failed.
    BodyReadFailed,
    /// The body exceeded the byte limit.
    BodyTooLarge,
}

impl PreviewError {
    /// The message of this error, as a view.
    pub open spec fn text(self) -> Seq<char> {
        match self {
            PreviewError::InvalidUrl => "invalid URL"@,
            PreviewError::SchemeNotAllowed => "URL scheme must be http or https"@,
            PreviewError::HostRequired => "URL host is required"@,
            PreviewError::LocalAddress => "local addresses are not allowed"@,
            PreviewError::AddressBlocked => "host address is blocked"@,
            PreviewError::PortRequired => "URL port is required"@,
            PreviewError::ClientSetup => "failed to prepare request client"@,
            PreviewError::FetchFailed => "failed to fetch URL"@,
            PreviewError::LookupTimedOut => "host lookup timed out"@,
            PreviewError::UnresolvableHost => "unable to resolve host"@,
            PreviewError::TooManyRedirects => "too many redirects"@,
            PreviewError::RedirectWithoutLocation => "received redirect without location"@,
            PreviewError::InvalidRedirectLocation => "received invalid redirect location"@,
            PreviewError::NonSuccessResponse => "received non-success response"@,
            PreviewError::BodyReadFailed => "failed reading response body"@,
            PreviewError::BodyTooLarge => "response body too large"@,
        }
    }

    /// The message shown to callers and written to logs.
    pub fn message(self) -> (m: &'static str)
        ensures
            m@ == self.text(),
    {
        match self {
            PreviewError::InvalidUrl => "invalid URL",
            PreviewError::SchemeNotAllowed => "URL scheme must be http or https",
            PreviewError::HostRequired => "URL host is required",
            PreviewError::LocalAddress => "local addresses are not allowed",
            PreviewError::AddressBlocked => "host address is blocked",
            PreviewError::PortRequired => "URL port is required",
            PreviewError::ClientSetup => "failed to prepare request client",
            PreviewError::FetchFailed => "failed to fetch URL",
            PreviewError::LookupTimedOut => "host lookup timed out",
            PreviewError::UnresolvableHost => "unable to resolve host",
            PreviewError::TooManyRedirects => "too many redirects",
            PreviewError::RedirectWithoutLocation => "received redirect without location",
            PreviewError::InvalidRedirectLocation => "received invalid redirect location",
            PreviewError::NonSuccessResponse => "received non-success response",
            PreviewError::BodyReadFailed => "failed reading response body",
            PreviewError::BodyTooLarge => "response body too large",
        }
    }
}

} // verus!
