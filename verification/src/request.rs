//! The steps of a preview request and of a batch refresh that need no
//! network: request identifiers, authorisation, the cache lookup, and the
//! assembly of the payload.

use vstd::prelude::*;
use crate::cache::{lookup, purged, read_from_cache, PreviewCache};
use crate::config::{non_empty, parse_env_non_empty_string, UrlLogMode};
use crate::errors::PreviewError;
use crate::fetch::FetchedPreviewMetadata;
use crate::metadata::ExtractedMetadata;
use crate::payload::{PayloadView, PreviewPayload};
use crate::refresh::{
    clean_refresh_urls,
    cleaned,
    texts,
    FallbackOutcomeView,
    RefreshUrlConfig,
    ScreenshotFallbackOutcome,
};
use crate::target::{parse_preview_url, preview_url_verdict, TargetUrl, UrlParts};
use crate::text::{
    chars_of,
    copy_text,
    decimal,
    decimal_text,
    same_text,
    slice_of,
    starts_with,
    text_of,
    text_view,
    trim,
    trimmed,
};

verus! {

/// The identifier that a request gets where it brings none.
pub open spec fn generated_id(now_millis: u128, counter: u64) -> Seq<char> {
    "req-"@ + decimal(now_millis as nat) + "-"@ + decimal(counter as nat)
}

/// Makes a request identifier from the time in milliseconds since the Unix
/// epoch and a counter.
pub fn generate_request_id(now_millis: u128, counter: u64) -> (id: String)
    ensures
        id@ == generated_id(now_millis, counter),
{
    let mut id = "req-".to_owned();
    id.append(decimal_text(now_millis).as_str());
    id.append("-");
    id.append(decimal_text(counter as u128).as_str());
    id
}

/// The identifier of a request: the one it brought in its header, trimmed,
/// or a generated one where that is absent or blank.
pub fn resolve_request_id(inbound: &Option<String>, now_millis: u128, counter: u64) -> (id: String)
    ensures
        id@ == match non_empty(text_view(*inbound)) {
            Some(given) => given,
            None => generated_id(now_millis, counter),
        },
{
    match parse_env_non_empty_string(inbound) {
        Some(given) => given,
        None => generate_request_id(now_millis, counter),
    }
}

/// The identifier of the `index`-th refresh of a batch.
pub fn scheduled_refresh_child_request_id(parent_request_id: &str, index: usize) -> (id: String)
    ensures
        id@ == parent_request_id@ + "-scheduled-"@ + decimal(index as nat),
{
    let mut id = parent_request_id.to_owned();
    id.append("-scheduled-");
    id.append(decimal_text(index as u128).as_str());
    id
}

/// The value of the `Cache-Control` header of a successful preview.
pub fn cache_control_value(cache_ttl_seconds: u64) -> (value: String)
    ensures
        value@ == "public, max-age="@ + decimal(cache_ttl_seconds as nat),
{
    let mut value = "public, max-age=".to_owned();
    value.append(decimal_text(cache_ttl_seconds as u128).as_str());
    value
}

/// What a log event shows of a URL.
pub open spec fn logged_url(u: UrlParts, mode: UrlLogMode) -> Seq<char> {
    match mode {
        UrlLogMode::Full => u.href,
        UrlLogMode::Host => match u.host_text {
            None => "unknown"@,
            Some(host) => match u.port {
                Some(port) => host + ":"@ + decimal(port as nat),
                None => host,
            },
        },
    }
}

/// The text that stands for a URL in log events: the whole URL, or its
/// host with the port where it names one.
pub fn value_for_url_logging(url: &TargetUrl, mode: UrlLogMode) -> (shown: String)
    ensures
        shown@ == logged_url(url@, mode),
{
    match mode {
        UrlLogMode::Full => url.href.clone(),
        UrlLogMode::Host => match &url.host_text {
            None => "unknown".to_owned(),
            Some(host) => match url.port {
                Some(port) => {
                    let mut shown = host.clone();
                    shown.append(":");
                    shown.append(decimal_text(port as u128).as_str());
                    shown
                },
                None => host.clone(),
            },
        },
    }
}

/// The token of an `Authorization` header: what follows `Bearer `, trimmed.
pub open spec fn bearer_token(value: Seq<char>) -> Option<Seq<char>> {
    if "Bearer "@.is_prefix_of(value) {
        Some(trimmed(value.skip("Bearer "@.len() as int)))
    } else {
        None
    }
}

/// Reads the bearer token of an `Authorization` header.
pub fn read_bearer_token(authorization: &str) -> (token: Option<String>)
    ensures
        text_view(token) == bearer_token(authorization@),
{
    let chars = chars_of(authorization);
    let prefix = chars_of("Bearer ");
    if !starts_with(&chars, &prefix) {
        return None;
    }
    let rest = slice_of(&chars, prefix.len(), chars.len());
    assert(rest@ =~= authorization@.skip("Bearer "@.len() as int));
    Some(trim(text_of(&rest).as_str()))
}

/// Whether the header carries the configured token: a token must be
/// configured, and the header's bearer token must be non-empty and equal
/// to it.
pub open spec fn refresh_authorized(authorization: Option<Seq<char>>, expected: Option<Seq<char>>)
    -> bool {
    &&& expected is Some
    &&& authorization is Some
    &&& bearer_token(authorization->0) is Some
    &&& bearer_token(authorization->0)->0.len() > 0
    &&& bearer_token(authorization->0)->0 == expected->0
}

/// Checks the `Authorization` header of a refresh request.
pub fn is_refresh_authorized(authorization: &Option<String>, expected_token: &Option<String>) -> (ok:
    bool)
    ensures
        ok == refresh_authorized(text_view(*authorization), text_view(*expected_token)),
{
    let expected = match expected_token {
        Some(expected) => expected,
        None => {
            return false;
        },
    };
    let header = match authorization {
        Some(header) => header,
        None => {
            return false;
        },
    };
    match read_bearer_token(header.as_str()) {
        Some(provided) => !provided.as_str().is_empty() && same_text(
            provided.as_str(),
            expected.as_str(),
        ),
        None => false,
    }
}

/// Why a batch refresh does not run.
#[derive(Clone, Copy, Debug, PartialEq, Eq, Structural)]
pub enum RefreshRefusal {
    /// No refresh token is configured: the endpoint is unavailable.
    NotConfigured,
    /// The request does not carry the configured token.
    Unauthorized,
    /// The configured list of URLs cannot be read.
    UrlListUnreadable,
}

impl RefreshRefusal {
    /// The HTTP status that answers the request.
    pub fn status(self) -> (code: u16)
        ensures
            code == match self {
                RefreshRefusal::NotConfigured => 503u16,
                RefreshRefusal::Unauthorized => 401u16,
                RefreshRefusal::UrlListUnreadable => 400u16,
            },
    {
        match self {
            RefreshRefusal::NotConfigured => 503,
            RefreshRefusal::Unauthorized => 401,
            RefreshRefusal::UrlListUnreadable => 400,
        }
    }

    /// The message that answers the request.
    pub fn message(self) -> (message: &'static str)
        ensures
            message@ == match self {
                RefreshRefusal::NotConfigured => "refresh token is not configured"@,
                RefreshRefusal::Unauthorized => "unauthorized"@,
                RefreshRefusal::UrlListUnreadable => "unable to read configured URL list"@,
            },
    {
        match self {
            RefreshRefusal::NotConfigured => "refresh token is not configured",
            RefreshRefusal::Unauthorized => "unauthorized",
            RefreshRefusal::UrlListUnreadable => "unable to read configured URL list",
        }
    }

    /// The class of the refusal in log events.
    pub fn error_class(self) -> (class: &'static str)
        ensures
            class@ == match self {
                RefreshRefusal::NotConfigured => "config_missing"@,
                RefreshRefusal::Unauthorized => "auth_failed"@,
                RefreshRefusal::UrlListUnreadable => "config_invalid"@,
            },
    {
        match self {
            RefreshRefusal::NotConfigured => "config_missing",
            RefreshRefusal::Unauthorized => "auth_failed",
            RefreshRefusal::UrlListUnreadable => "config_invalid",
        }
    }
}

/// Whether a batch refresh may run: not without a configured token, and
/// not for a request that does not carry it.
pub open spec fn refresh_gate(authorization: Option<Seq<char>>, expected: Option<Seq<char>>)
    -> Result<(), RefreshRefusal> {
    if expected is None {
        Err(RefreshRefusal::NotConfigured)
    } else if refresh_authorized(authorization, expected) {
        Ok(())
    } else {
        Err(RefreshRefusal::Unauthorized)
    }
}

/// Decides whether a batch refresh may run.
pub fn authorize_refresh(authorization: &Option<String>, expected_token: &Option<String>) -> (gate:
    Result<(), RefreshRefusal>)
    ensures
        gate == refresh_gate(text_view(*authorization), text_view(*expected_token)),
{
    if expected_token.is_none() {
        Err(RefreshRefusal::NotConfigured)
    } else if is_refresh_authorized(authorization, expected_token) {
        Ok(())
    } else {
        Err(RefreshRefusal::Unauthorized)
    }
}

/// The URLs that a list gives in either of its forms.
pub open spec fn listed(config: RefreshUrlConfig) -> Vec<String> {
    match config {
        RefreshUrlConfig::Bare(urls) => urls,
        RefreshUrlConfig::Wrapped { urls } => urls,
    }
}

/// The URLs to refresh, given what was read from the configured list:
/// trimmed, without the empty ones; a list that could not be read refuses
/// the request.
pub fn read_refresh_urls_from_config(parsed: Option<RefreshUrlConfig>) -> (urls: Result<
    Vec<String>,
    RefreshRefusal,
>)
    ensures
        match parsed {
            None => urls == Err::<Vec<String>, RefreshRefusal>(RefreshRefusal::UrlListUnreadable),
            Some(config) => urls is Ok && texts(urls->Ok_0@) == cleaned(texts(listed(config)@)),
        },
{
    match parsed {
        None => Err(RefreshRefusal::UrlListUnreadable),
        Some(config) => {
            let raw = config.into_urls();
            Ok(clean_refresh_urls(&raw))
        },
    }
}

/// The mathematical value of extracted metadata.
pub struct MetadataView {
    pub title: Option<Seq<char>>,
    pub description: Option<Seq<char>>,
    pub image: Option<Seq<char>>,
}

/// The view of extracted metadata.
pub open spec fn metadata_view(m: ExtractedMetadata) -> MetadataView {
    MetadataView {
        title: text_view(m.title),
        description: text_view(m.description),
        image: text_view(m.image),
    }
}

/// The title that stands in for a page that could not be fetched: the host
/// without a leading `www.`, or the whole URL where it has no host.
pub open spec fn host_title(u: UrlParts) -> Seq<char> {
    match u.host_text {
        Some(host) => if "www."@.is_prefix_of(host) {
            host.skip("www."@.len() as int)
        } else {
            host
        },
        None => u.href,
    }
}

/// The metadata of a page of which only the URL is known.
pub open spec fn minimal_metadata(u: UrlParts) -> MetadataView {
    MetadataView { title: Some(host_title(u)), description: None, image: None }
}

/// The metadata that stands in for a page that could not be fetched.
pub fn minimal_metadata_from_url(url: &TargetUrl) -> (metadata: ExtractedMetadata)
    ensures
        metadata_view(metadata) == minimal_metadata(url@),
{
    let host_title = match &url.host_text {
        Some(host) => {
            let chars = chars_of(host.as_str());
            let prefix = chars_of("www.");
            if starts_with(&chars, &prefix) {
                let rest = slice_of(&chars, prefix.len(), chars.len());
                assert(rest@ =~= host@.skip("www."@.len() as int));
                text_of(&rest)
            } else {
                host.clone()
            }
        },
        None => url.href.clone(),
    };
    ExtractedMetadata { title: Some(host_title), description: None, image: None }
}

/// A preview before its image is settled.
#[derive(Clone, Debug)]
pub struct PreviewDraft {
    /// The URL that the preview describes.
    pub resolved_url: TargetUrl,
    /// What is known of the page.
    pub metadata: ExtractedMetadata,
    /// Why the page could not be fetched, where it could not.
    pub metadata_fetch_error: Option<PreviewError>,
}

/// The mathematical value of a draft.
pub struct DraftView {
    pub resolved_url: UrlParts,
    pub metadata: MetadataView,
    pub metadata_fetch_error: Option<PreviewError>,
}

impl View for PreviewDraft {
    type V = DraftView;

    open spec fn view(&self) -> DraftView {
        DraftView {
            resolved_url: self.resolved_url@,
            metadata: metadata_view(self.metadata),
            metadata_fetch_error: self.metadata_fetch_error,
        }
    }
}

/// The view of a fetch result.
pub open spec fn fetched_view(fetched: Result<FetchedPreviewMetadata, PreviewError>) -> Result<
    (UrlParts, MetadataView),
    PreviewError,
> {
    match fetched {
        Ok(page) => Ok((page.resolved_url@, metadata_view(page.metadata))),
        Err(e) => Err(e),
    }
}

/// The draft for a fetch result: the page's own data where it was fetched;
/// else the target with minimal metadata, and the error kept for the log.
pub open spec fn draft_for(fetched: Result<(UrlParts, MetadataView), PreviewError>, target: UrlParts)
    -> DraftView {
    match fetched {
        Ok(page) => DraftView {
            resolved_url: page.0,
            metadata: page.1,
            metadata_fetch_error: None,
        },
        Err(e) => DraftView {
            resolved_url: target,
            metadata: minimal_metadata(target),
            metadata_fetch_error: Some(e),
        },
    }
}

/// Whether the draft has no image of its own, so that a screenshot is to
/// be looked for.
pub open spec fn needs_screenshot(draft: DraftView) -> bool {
    draft.metadata.image is None
}

/// The payload of a draft, with the image of the screenshot fallback where
/// the draft has none.
pub open spec fn payload_for(draft: DraftView, fallback_image: Option<Seq<char>>) -> PayloadView {
    PayloadView {
        ok: true,
        url: Some(draft.resolved_url.href),
        title: draft.metadata.title,
        description: draft.metadata.description,
        image: match draft.metadata.image {
            Some(image) => Some(image),
            None => fallback_image,
        },
        error: None,
    }
}

/// Starts a preview from the result of the fetch. A failed fetch does not
/// fail the preview.
pub fn draft_preview(fetched: Result<FetchedPreviewMetadata, PreviewError>, target_url: TargetUrl)
    -> (draft: PreviewDraft)
    ensures
        draft@ == draft_for(fetched_view(fetched), target_url@),
{
    match fetched {
        Ok(page) => PreviewDraft {
            resolved_url: page.resolved_url,
            metadata: page.metadata,
            metadata_fetch_error: None,
        },
        Err(e) => {
            let metadata = minimal_metadata_from_url(&target_url);
            PreviewDraft { resolved_url: target_url, metadata, metadata_fetch_error: Some(e) }
        },
    }
}

/// Whether a screenshot is to be looked for.
pub fn needs_screenshot_fallback(draft: &PreviewDraft) -> (needed: bool)
    ensures
        needed == needs_screenshot(draft@),
{
    draft.metadata.image.is_none()
}

/// A finished preview with what is logged about it.
#[derive(Clone, Debug)]
pub struct PreviewFetchOutcome {
    pub payload: PreviewPayload,
    pub og_metadata_found_image: bool,
    pub screenshot_fallback: Option<ScreenshotFallbackOutcome>,
    pub metadata_fetch_error: Option<PreviewError>,
}

/// The view of an optional fallback outcome.
pub open spec fn fallback_view(o: Option<ScreenshotFallbackOutcome>) -> Option<FallbackOutcomeView> {
    match o {
        Some(f) => Some(f@),
        None => None,
    }
}

/// The image that a fallback brought.
pub open spec fn fallback_image(o: Option<FallbackOutcomeView>) -> Option<Seq<char>> {
    match o {
        Some(f) => f.image,
        None => None,
    }
}

/// Assembles the payload of a preview. The screenshot fallback counts only
/// where the draft has no image of its own.
pub fn build_preview_payload_from_metadata_result(
    draft: PreviewDraft,
    screenshot_fallback: Option<ScreenshotFallbackOutcome>,
) -> (outcome: PreviewFetchOutcome)
    ensures
        outcome.og_metadata_found_image == !needs_screenshot(draft@),
        outcome.metadata_fetch_error == draft@.metadata_fetch_error,
        fallback_view(outcome.screenshot_fallback) == if needs_screenshot(draft@) {
            fallback_view(screenshot_fallback)
        } else {
            None
        },
        outcome.payload@ == payload_for(
            draft@,
            fallback_image(fallback_view(outcome.screenshot_fallback)),
        ),
{
    let og_metadata_found_image = draft.metadata.image.is_some();
    let used_fallback = if og_metadata_found_image {
        None
    } else {
        screenshot_fallback
    };
    let fallback_image = match &used_fallback {
        Some(fallback) => copy_text(&fallback.image),
        None => None,
    };
    let image = match draft.metadata.image {
        Some(image) => Some(image),
        None => fallback_image,
    };
    PreviewFetchOutcome {
        payload: PreviewPayload {
            ok: true,
            url: Some(draft.resolved_url.href),
            title: draft.metadata.title,
            description: draft.metadata.description,
            image,
            error: None,
        },
        og_metadata_found_image,
        screenshot_fallback: used_fallback,
        metadata_fetch_error: draft.metadata_fetch_error,
    }
}

/// A page that cannot be fetched still gets a preview: the payload is ok,
/// carries the target's URL and a title made from its host, has no
/// description, and takes whatever image the screenshot fallback brings,
/// which is always looked for.
pub proof fn lemma_failed_fetch_still_previews(
    error: PreviewError,
    target: UrlParts,
    fallback_image: Option<Seq<char>>,
)
    ensures
        needs_screenshot(draft_for(Err(error), target)),
        draft_for(Err(error), target).metadata_fetch_error == Some(error),
        payload_for(draft_for(Err(error), target), fallback_image) == (PayloadView {
            ok: true,
            url: Some(target.href),
            title: Some(host_title(target)),
            description: None,
            image: fallback_image,
            error: None,
        }),
{
}

/// How a preview request begins.
#[derive(Clone, Debug)]
pub enum PreviewStart {
    /// The URL is refused: answer with the error payload.
    Rejected(PreviewError, PreviewPayload),
    /// The preview of the URL is cached: answer with it.
    Hit(TargetUrl, PreviewPayload),
    /// Nothing is cached: fetch the URL.
    Miss(TargetUrl),
}

/// The payload that reports an error.
pub open spec fn error_payload(message: Seq<char>) -> PayloadView {
    PayloadView {
        ok: false,
        url: None,
        title: None,
        description: None,
        image: None,
        error: Some(message),
    }
}

/// Begins a preview request: parses and screens the URL, then looks its
/// normalised form up in the cache. A refused URL and a hit leave the
/// cache as it is; a miss removes its expired entries.
pub fn start_preview(cache: &mut PreviewCache, raw_url: &str, now: u64) -> (start: PreviewStart)
    requires
        old(cache).wf(),
    ensures
        final(cache).wf(),
        match preview_url_verdict(raw_url@) {
            Err(e) => start is Rejected && start->Rejected_0 == e && start->Rejected_1@
                == error_payload(e.text()) && final(cache)@ == old(cache)@,
            Ok(url) => match lookup(old(cache)@, url.href, now) {
                Some(payload) => start is Hit && start->Hit_0@ == url && start->Hit_1@ == payload
                    && final(cache)@ == old(cache)@,
                None => start is Miss && start->Miss_0@ == url && final(cache)@ == purged(
                    old(cache)@,
                    now,
                ),
            },
        },
{
    let url = match parse_preview_url(raw_url) {
        Ok(url) => url,
        Err(e) => {
            return PreviewStart::Rejected(e, PreviewPayload::error(e.message()));
        },
    };
    match read_from_cache(cache, url.href.as_str(), now) {
        Some(payload) => PreviewStart::Hit(url, payload),
        None => PreviewStart::Miss(url),
    }
}

/// Looks a preview up as `start_preview` does, without touching the cache,
/// so that readers need not wait for one another. After a miss,
/// `start_preview` sweeps the cache and looks once more.
pub fn peek_preview(cache: &PreviewCache, raw_url: &str, now: u64) -> (start: PreviewStart)
    requires
        cache.wf(),
    ensures
        match preview_url_verdict(raw_url@) {
            Err(e) => start is Rejected && start->Rejected_0 == e && start->Rejected_1@
                == error_payload(e.text()),
            Ok(url) => match lookup(cache@, url.href, now) {
                Some(payload) => start is Hit && start->Hit_0@ == url && start->Hit_1@ == payload,
                None => start is Miss && start->Miss_0@ == url,
            },
        },
{
    let url = match parse_preview_url(raw_url) {
        Ok(url) => url,
        Err(e) => {
            return PreviewStart::Rejected(e, PreviewPayload::error(e.message()));
        },
    };
    match cache.peek(url.href.as_str(), now) {
        Some(payload) => PreviewStart::Hit(url, payload),
        None => PreviewStart::Miss(url),
    }
}

} // verus!
