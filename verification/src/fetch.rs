//! The decisions of the pinned fetcher: how a URL is requested, what a
//! response means for the redirect chain, and how much of a body is read.

use vstd::prelude::*;
use crate::errors::PreviewError;
use crate::metadata::{
    description_of,
    document_meta_tags,
    document_title_text,
    extract_metadata,
    image_of,
    title_of,
    ExtractedMetadata,
};
use crate::target::{
    ensure_url_shape_is_allowed,
    join_url,
    literal_address,
    shape_verdict,
    url_join,
    verdict_view,
    HostKind,
    TargetUrl,
    UrlParts,
};
use crate::text::text_view;

verus! {

/// The `Location` header of a response.
#[derive(Clone, Debug)]
pub enum LocationHeader {
    /// The response has none.
    Missing,
    /// The header is there but is not text.
    Unreadable,
    /// The header's value.
    Value(String),
}

/// How a URL is to be requested.
#[derive(Clone, Debug)]
pub enum RequestPlan {
    /// The host is a literal address that passed screening: connect to it.
    Direct,
    /// The host is a name: resolve it, screen every address, and connect to
    /// one of them while sending the name.
    Resolve { host: String, port: u16 },
}

/// The mathematical value of a request plan.
pub enum RequestPlanView {
    Direct,
    Resolve { host: Seq<char>, port: u16 },
}

impl View for RequestPlan {
    type V = RequestPlanView;

    open spec fn view(&self) -> RequestPlanView {
        match *self {
            RequestPlan::Direct => RequestPlanView::Direct,
            RequestPlan::Resolve { host, port } => RequestPlanView::Resolve { host: host@, port },
        }
    }
}

/// The view of a planning result.
pub open spec fn plan_view(r: Result<RequestPlan, PreviewError>) -> Result<
    RequestPlanView,
    PreviewError,
> {
    match r {
        Ok(p) => Ok(p@),
        Err(e) => Err(e),
    }
}

/// How a URL is requested: not at all where the safety rules refuse it or
/// it lacks a host or a port; directly where its host is a literal
/// address; else after resolving the name.
pub open spec fn request_plan_for(u: UrlParts) -> Result<RequestPlanView, PreviewError> {
    match shape_verdict(u) {
        Err(e) => Err(e),
        Ok(_) => if u.host_text is None {
            Err(PreviewError::HostRequired)
        } else if u.known_port is None {
            Err(PreviewError::PortRequired)
        } else if literal_address(u.host) is Some {
            Ok(RequestPlanView::Direct)
        } else {
            Ok(RequestPlanView::Resolve { host: u.host_text->0, port: u.known_port->0 })
        },
    }
}

/// Screens a URL once more and decides how to request it.
pub fn plan_pinned_request(target_url: &TargetUrl) -> (plan: Result<RequestPlan, PreviewError>)
    ensures
        plan_view(plan) == request_plan_for(target_url@),
{
    match ensure_url_shape_is_allowed(target_url) {
        Err(e) => {
            return Err(e);
        },
        Ok(_) => {},
    }
    let host = match &target_url.host_text {
        Some(host) => host,
        None => {
            return Err(PreviewError::HostRequired);
        },
    };
    let port = match target_url.known_port {
        Some(port) => port,
        None => {
            return Err(PreviewError::PortRequired);
        },
    };
    match target_url.host {
        HostKind::Ipv4(_) => Ok(RequestPlan::Direct),
        HostKind::Ipv6(_) => Ok(RequestPlan::Direct),
        _ => Ok(RequestPlan::Resolve { host: host.clone(), port }),
    }
}

/// The view of a `Location` header.
pub open spec fn location_view(location: LocationHeader) -> Option<Option<Seq<char>>> {
    match location {
        LocationHeader::Missing => None,
        LocationHeader::Unreadable => Some(None),
        LocationHeader::Value(v) => Some(Some(v@)),
    }
}

/// Where a redirect leads: the header's value joined to the current URL,
/// provided the safety rules accept the result.
pub open spec fn redirect_target(current: UrlParts, location: LocationHeader) -> Result<
    UrlParts,
    PreviewError,
> {
    match location {
        LocationHeader::Missing => Err(PreviewError::RedirectWithoutLocation),
        LocationHeader::Unreadable => Err(PreviewError::InvalidRedirectLocation),
        LocationHeader::Value(v) => match url_join(current.href, v@) {
            None => Err(PreviewError::InvalidRedirectLocation),
            Some(next) => match shape_verdict(next) {
                Err(e) => Err(e),
                Ok(_) => Ok(next),
            },
        },
    }
}

/// Finds and screens the target of a redirect.
pub fn parse_and_validate_redirect_target(current_url: &TargetUrl, location: &LocationHeader) -> (next:
    Result<TargetUrl, PreviewError>)
    ensures
        verdict_view(next) == redirect_target(current_url@, *location),
{
    let value = match location {
        LocationHeader::Missing => {
            return Err(PreviewError::RedirectWithoutLocation);
        },
        LocationHeader::Unreadable => {
            return Err(PreviewError::InvalidRedirectLocation);
        },
        LocationHeader::Value(v) => v,
    };
    let next_url = match join_url(current_url.href.as_str(), value.as_str()) {
        Some(next_url) => next_url,
        None => {
            return Err(PreviewError::InvalidRedirectLocation);
        },
    };
    match ensure_url_shape_is_allowed(&next_url) {
        Err(e) => Err(e),
        Ok(_) => Ok(next_url),
    }
}

/// What to do after a response.
#[derive(Clone, Debug)]
pub enum HopAction {
    /// Request this URL next.
    Follow(TargetUrl),
    /// The response is the page: read its body.
    ReadBody,
    /// Give the fetch up.
    Fail(PreviewError),
}

/// The mathematical value of a hop action.
pub enum HopActionView {
    Follow(UrlParts),
    ReadBody,
    Fail(PreviewError),
}

impl View for HopAction {
    type V = HopActionView;

    open spec fn view(&self) -> HopActionView {
        match *self {
            HopAction::Follow(u) => HopActionView::Follow(u@),
            HopAction::ReadBody => HopActionView::ReadBody,
            HopAction::Fail(e) => HopActionView::Fail(e),
        }
    }
}

/// Whether the status is a redirection (3xx).
pub open spec fn is_redirection(status: u16) -> bool {
    300 <= status <= 399
}

/// Whether the status is a success (2xx).
pub open spec fn is_success(status: u16) -> bool {
    200 <= status <= 299
}

/// What a response means at hop number `hop`, counted from zero: a
/// redirect is followed to its screened target unless the limit is
/// reached or the target is refused; any other status but a success ends
/// the fetch; a success is the page.
pub open spec fn hop_decision(
    current: UrlParts,
    hop: usize,
    max_redirects: usize,
    status: u16,
    location: LocationHeader,
) -> HopActionView {
    if is_redirection(status) {
        if hop >= max_redirects {
            HopActionView::Fail(PreviewError::TooManyRedirects)
        } else {
            match redirect_target(current, location) {
                Ok(next) => HopActionView::Follow(next),
                Err(e) => HopActionView::Fail(e),
            }
        }
    } else if !is_success(status) {
        HopActionView::Fail(PreviewError::NonSuccessResponse)
    } else {
        HopActionView::ReadBody
    }
}

/// Decides what to do after the response to the request at hop `hop`.
pub fn decide_hop(
    current_url: &TargetUrl,
    hop: usize,
    max_redirects: usize,
    status: u16,
    location: &LocationHeader,
) -> (action: HopAction)
    ensures
        action@ == hop_decision(current_url@, hop, max_redirects, status, *location),
{
    if 300 <= status && status <= 399 {
        if hop >= max_redirects {
            return HopAction::Fail(PreviewError::TooManyRedirects);
        }
        return match parse_and_validate_redirect_target(current_url, location) {
            Ok(next) => HopAction::Follow(next),
            Err(e) => HopAction::Fail(e),
        };
    }
    if !(200 <= status && status <= 299) {
        return HopAction::Fail(PreviewError::NonSuccessResponse);
    }
    HopAction::ReadBody
}

/// A redirect whose target the safety rules refuse ends the fetch with
/// that refusal, whatever the URL that the chain began with; it is never
/// followed and never read as the page.
pub proof fn lemma_refused_redirect_fails(
    current: UrlParts,
    hop: usize,
    max_redirects: usize,
    status: u16,
    location: LocationHeader,
    next: UrlParts,
)
    requires
        is_redirection(status),
        location is Value,
        url_join(current.href, location->Value_0@) == Some(next),
        shape_verdict(next) is Err,
    ensures
        hop_decision(current, hop, max_redirects, status, location) is Fail,
        hop < max_redirects ==> hop_decision(current, hop, max_redirects, status, location)
            == HopActionView::Fail(shape_verdict(next)->Err_0),
{
}

/// A redirect is followed only to a URL that the safety rules accept.
pub proof fn lemma_followed_target_is_allowed(
    current: UrlParts,
    hop: usize,
    max_redirects: usize,
    status: u16,
    location: LocationHeader,
)
    requires
        hop_decision(current, hop, max_redirects, status, location) is Follow,
    ensures
        shape_verdict(hop_decision(current, hop, max_redirects, status, location)->Follow_0)
            == Ok::<(), PreviewError>(()),
        hop < max_redirects,
        is_redirection(status),
{
}

/// One response in a chain of requests: its status and its `Location`
/// header.
pub type HopResponse = (u16, LocationHeader);

/// The URL that is requested at hop `hop` of the chain that starts at
/// `start` and meets the given responses in order, if the chain gets that
/// far.
pub open spec fn chain_url(
    start: UrlParts,
    max_redirects: usize,
    responses: Seq<HopResponse>,
    hop: usize,
) -> Option<UrlParts>
    decreases hop,
{
    if hop == 0 {
        Some(start)
    } else if hop > responses.len() {
        None
    } else {
        match chain_url(start, max_redirects, responses, (hop - 1) as usize) {
            None => None,
            Some(previous) => match hop_decision(
                previous,
                (hop - 1) as usize,
                max_redirects,
                responses[hop - 1].0,
                responses[hop - 1].1,
            ) {
                HopActionView::Follow(next) => Some(next),
                _ => None,
            },
        }
    }
}

/// How the chain ends at hop `hop`, if it gets there and the response
/// there ends it: with the page at the URL requested, or with an error.
pub open spec fn chain_end(
    start: UrlParts,
    max_redirects: usize,
    responses: Seq<HopResponse>,
    hop: usize,
) -> Option<Result<UrlParts, PreviewError>> {
    if hop >= responses.len() {
        None
    } else {
        match chain_url(start, max_redirects, responses, hop) {
            None => None,
            Some(current) => match hop_decision(
                current,
                hop,
                max_redirects,
                responses[hop as int].0,
                responses[hop as int].1,
            ) {
                HopActionView::Follow(_) => None,
                HopActionView::ReadBody => Some(Ok(current)),
                HopActionView::Fail(e) => Some(Err(e)),
            },
        }
    }
}

/// Every URL that a chain requests after the first has passed the safety
/// rules, and the chain never goes beyond the redirect limit.
pub proof fn lemma_chain_requests_only_allowed_urls(
    start: UrlParts,
    max_redirects: usize,
    responses: Seq<HopResponse>,
    hop: usize,
)
    requires
        hop > 0,
        chain_url(start, max_redirects, responses, hop) is Some,
    ensures
        shape_verdict(chain_url(start, max_redirects, responses, hop)->0) == Ok::<
            (),
            PreviewError,
        >(()),
        hop <= max_redirects,
        hop <= responses.len(),
{
}

/// A chain that is redirected to a URL that the safety rules refuse fails
/// as a whole: it ends at that hop, with an error, however many public
/// URLs it went through before.
pub proof fn lemma_chain_to_refused_url_fails(
    start: UrlParts,
    max_redirects: usize,
    responses: Seq<HopResponse>,
    hop: usize,
)
    requires
        hop < responses.len(),
        chain_url(start, max_redirects, responses, hop) is Some,
        is_redirection(responses[hop as int].0),
        redirect_target(
            chain_url(start, max_redirects, responses, hop)->0,
            responses[hop as int].1,
        ) is Err,
    ensures
        chain_end(start, max_redirects, responses, hop) is Some,
        chain_end(start, max_redirects, responses, hop)->0 is Err,
        hop < usize::MAX ==> chain_url(start, max_redirects, responses, (hop + 1) as usize) is None,
{
}

/// Adds a chunk to the body read so far, unless the body would then exceed
/// the limit; in that case nothing is added and the fetch is to be given
/// up.
pub fn append_body_chunk(body: &mut Vec<u8>, chunk: &[u8], max_response_bytes: usize) -> (added:
    Result<(), PreviewError>)
    ensures
        old(body)@.len() + chunk@.len() > max_response_bytes ==> added == Err::<
            (),
            PreviewError,
        >(PreviewError::BodyTooLarge) && final(body)@ == old(body)@,
        old(body)@.len() + chunk@.len() <= max_response_bytes ==> added == Ok::<(), PreviewError>(
            (),
        ) && final(body)@ == old(body)@ + chunk@,
{
    if chunk.len() > max_response_bytes || body.len() > max_response_bytes - chunk.len() {
        return Err(PreviewError::BodyTooLarge);
    }
    body.extend_from_slice(chunk);
    Ok(())
}

/// The text that `String::from_utf8_lossy` reads from bytes: valid UTF-8
/// as it is, every invalid sequence as U+FFFD.
pub uninterp spec fn utf8_lossy(bytes: Seq<u8>) -> Seq<char>;

/// Calls `String::from_utf8_lossy`. The contract claims only that the text
/// is a function of the bytes.
#[verifier::external_body]
pub(crate) fn decode_lossy(bytes: &[u8]) -> (text: String)
    ensures
        text@ == utf8_lossy(bytes@),
{
    String::from_utf8_lossy(bytes).into_owned()
}

/// A page that was fetched: where the redirect chain ended, and what the
/// page says of itself.
#[derive(Clone, Debug)]
pub struct FetchedPreviewMetadata {
    pub resolved_url: TargetUrl,
    pub metadata: ExtractedMetadata,
}

/// Reads the body of the final response as text and extracts the metadata
/// of the page.
pub fn metadata_from_body(body: &Vec<u8>, current_url: &TargetUrl) -> (fetched:
    FetchedPreviewMetadata)
    ensures
        fetched.resolved_url@ == current_url@,
        text_view(fetched.metadata.title) == title_of(
            document_meta_tags(utf8_lossy(body@), "property"@),
            document_meta_tags(utf8_lossy(body@), "name"@),
            document_title_text(utf8_lossy(body@)),
        ),
        text_view(fetched.metadata.description) == description_of(
            document_meta_tags(utf8_lossy(body@), "property"@),
            document_meta_tags(utf8_lossy(body@), "name"@),
        ),
        text_view(fetched.metadata.image) == image_of(
            document_meta_tags(utf8_lossy(body@), "property"@),
            document_meta_tags(utf8_lossy(body@), "name"@),
            current_url@.href,
        ),
{
    let text = decode_lossy(body.as_slice());
    let metadata = extract_metadata(text.as_str(), current_url);
    FetchedPreviewMetadata { resolved_url: current_url.duplicate(), metadata }
}

} // verus!
