//! Refreshing screenshots: reading the capture worker's reply, recording
//! the result in the screenshot cache, choosing between a cached image and
//! a refresh, and the bookkeeping of a batch refresh.

use vstd::prelude::*;
use crate::screenshot::{
    decide_screenshot_cache_action,
    decision_for,
    inserted,
    read_screenshot_cache_entry,
    stored,
    update_screenshot_cache_error,
    with_error,
    write_screenshot_cache_entry,
    EntryView,
    IndexedView,
    ScreenshotCacheDecision,
    ScreenshotCacheEntry,
    ScreenshotCacheStore,
};
use crate::target::{
    join_url,
    parse_preview_url,
    preview_url_verdict,
    url_join,
    TargetUrl,
    UrlParts,
};
use crate::text::{normalize_text, normalized, text_view, trim, trimmed};

verus! {

/// The class of a failure in log events.
#[derive(Clone, Copy, Debug, PartialEq, Eq, Structural)]
pub enum ErrorClass {
    /// No capture worker is configured.
    WorkerUnconfigured,
    /// The capture worker did not deliver.
    WorkerFailed,
    /// The image was captured but the index could not be persisted.
    CacheWriteFailed,
}

impl ErrorClass {
    /// The name of the class in log events.
    pub fn as_str(self) -> (name: &'static str)
        ensures
            name@ == match self {
                ErrorClass::WorkerUnconfigured => "screenshot_worker_unconfigured"@,
                ErrorClass::WorkerFailed => "screenshot_worker_failed"@,
                ErrorClass::CacheWriteFailed => "cache_write_failed"@,
            },
    {
        match self {
            ErrorClass::WorkerUnconfigured => "screenshot_worker_unconfigured",
            ErrorClass::WorkerFailed => "screenshot_worker_failed",
            ErrorClass::CacheWriteFailed => "cache_write_failed",
        }
    }
}

/// The hundred that an HTTP status lies in.
#[derive(Clone, Copy, Debug, PartialEq, Eq, Structural)]
pub enum StatusClass {
    Informational,
    Success,
    Redirection,
    ClientError,
    ServerError,
    Unknown,
}

impl StatusClass {
    /// The name of the class in log events.
    pub fn as_str(self) -> (name: &'static str)
        ensures
            name@ == match self {
                StatusClass::Informational => "1xx"@,
                StatusClass::Success => "2xx"@,
                StatusClass::Redirection => "3xx"@,
                StatusClass::ClientError => "4xx"@,
                StatusClass::ServerError => "5xx"@,
                StatusClass::Unknown => "unknown"@,
            },
    {
        match self {
            StatusClass::Informational => "1xx",
            StatusClass::Success => "2xx",
            StatusClass::Redirection => "3xx",
            StatusClass::ClientError => "4xx",
            StatusClass::ServerError => "5xx",
            StatusClass::Unknown => "unknown",
        }
    }
}

/// The cause of a capture failure, for observability.
#[derive(Clone, Copy, Debug, PartialEq, Eq, Structural)]
pub enum FailureReason {
    /// The worker refused the credentials (401 or 403).
    Auth,
    /// The request was at fault: another 4xx, or a worker URL that cannot
    /// be used.
    Validation,
    /// Anything else.
    Upstream,
}

impl FailureReason {
    /// The name of the reason in log events.
    pub fn as_str(self) -> (name: &'static str)
        ensures
            name@ == match self {
                FailureReason::Auth => "auth"@,
                FailureReason::Validation => "validation"@,
                FailureReason::Upstream => "upstream"@,
            },
    {
        match self {
            FailureReason::Auth => "auth",
            FailureReason::Validation => "validation",
            FailureReason::Upstream => "upstream",
        }
    }
}

/// The class of a status code.
pub open spec fn status_class_of(status: u16) -> StatusClass {
    if 100 <= status <= 199 {
        StatusClass::Informational
    } else if 200 <= status <= 299 {
        StatusClass::Success
    } else if 300 <= status <= 399 {
        StatusClass::Redirection
    } else if 400 <= status <= 499 {
        StatusClass::ClientError
    } else if 500 <= status <= 599 {
        StatusClass::ServerError
    } else {
        StatusClass::Unknown
    }
}

/// The reason behind a worker's failure status.
pub open spec fn failure_reason_of(status: u16) -> FailureReason {
    if status == 401 || status == 403 {
        FailureReason::Auth
    } else if 400 <= status <= 499 {
        FailureReason::Validation
    } else {
        FailureReason::Upstream
    }
}

/// Names the hundred that a status code lies in.
pub fn http_status_class(status: u16) -> (class: StatusClass)
    ensures
        class == status_class_of(status),
{
    if 100 <= status && status <= 199 {
        StatusClass::Informational
    } else if 200 <= status && status <= 299 {
        StatusClass::Success
    } else if 300 <= status && status <= 399 {
        StatusClass::Redirection
    } else if 400 <= status && status <= 499 {
        StatusClass::ClientError
    } else if 500 <= status && status <= 599 {
        StatusClass::ServerError
    } else {
        StatusClass::Unknown
    }
}

/// Classifies a worker's failure status: 401 and 403 are `Auth`, other
/// client errors `Validation`, the rest `Upstream`.
pub fn classify_worker_failure_reason(status: u16) -> (reason: FailureReason)
    ensures
        reason == failure_reason_of(status),
{
    if status == 401 || status == 403 {
        FailureReason::Auth
    } else if 400 <= status && status <= 499 {
        FailureReason::Validation
    } else {
        FailureReason::Upstream
    }
}

/// Why a capture failed.
#[derive(Clone, Copy, Debug, PartialEq, Eq, Structural)]
pub struct ScreenshotWorkerFailure {
    pub error_class: ErrorClass,
    pub status_code: Option<u16>,
    pub status_class: Option<StatusClass>,
    pub failure_reason: Option<FailureReason>,
}

/// A failure without a status.
pub open spec fn plain_failure(error_class: ErrorClass, reason: FailureReason)
    -> ScreenshotWorkerFailure {
    ScreenshotWorkerFailure {
        error_class,
        status_code: None,
        status_class: None,
        failure_reason: Some(reason),
    }
}

/// The failure that a status outside 2xx stands for.
pub open spec fn status_failure(status: u16) -> ScreenshotWorkerFailure {
    ScreenshotWorkerFailure {
        error_class: ErrorClass::WorkerFailed,
        status_code: Some(status),
        status_class: Some(status_class_of(status)),
        failure_reason: Some(failure_reason_of(status)),
    }
}

/// The body of a worker's reply.
#[derive(Clone, Debug)]
pub struct WorkerPayload {
    pub ok: bool,
    pub image: Option<String>,
    pub image_data_url: Option<String>,
}

/// What came back from the capture worker.
#[derive(Clone, Debug)]
pub enum WorkerReply {
    /// No response: the client could not be set up or the request failed.
    Unreachable,
    /// A response, with its body where that was the expected JSON.
    Answered { status: u16, payload: Option<WorkerPayload> },
}

/// The image that a payload offers: `image`, else `image_data_url`,
/// normalised.
pub open spec fn offered_image(payload: WorkerPayload) -> Option<Seq<char>> {
    match payload.image {
        Some(image) => normalized(image@),
        None => match payload.image_data_url {
            Some(image) => normalized(image@),
            None => None,
        },
    }
}

/// What a reply amounts to: no response, a status outside 2xx, a body
/// that is not the expected JSON, and `ok: false` are failures; otherwise
/// the offered image, if any.
pub open spec fn reply_meaning(reply: WorkerReply) -> Result<
    Option<Seq<char>>,
    ScreenshotWorkerFailure,
> {
    match reply {
        WorkerReply::Unreachable => Err(
            plain_failure(ErrorClass::WorkerFailed, FailureReason::Upstream),
        ),
        WorkerReply::Answered { status, payload } => if !(200 <= status <= 299) {
            Err(status_failure(status))
        } else {
            match payload {
                None => Err(plain_failure(ErrorClass::WorkerFailed, FailureReason::Upstream)),
                Some(p) => if !p.ok {
                    Err(plain_failure(ErrorClass::WorkerFailed, FailureReason::Upstream))
                } else {
                    Ok(offered_image(p))
                },
            }
        },
    }
}

/// The view of a capture result.
pub open spec fn capture_view(capture: Result<Option<String>, ScreenshotWorkerFailure>) -> Result<
    Option<Seq<char>>,
    ScreenshotWorkerFailure,
> {
    match capture {
        Ok(image) => Ok(text_view(image)),
        Err(failure) => Err(failure),
    }
}

/// Reads the capture worker's reply.
pub fn interpret_worker_reply(reply: WorkerReply) -> (capture: Result<
    Option<String>,
    ScreenshotWorkerFailure,
>)
    ensures
        capture_view(capture) == reply_meaning(reply),
{
    let upstream = ScreenshotWorkerFailure {
        error_class: ErrorClass::WorkerFailed,
        status_code: None,
        status_class: None,
        failure_reason: Some(FailureReason::Upstream),
    };
    match reply {
        WorkerReply::Unreachable => Err(upstream),
        WorkerReply::Answered { status, payload } => {
            if !(200 <= status && status <= 299) {
                return Err(
                    ScreenshotWorkerFailure {
                        error_class: ErrorClass::WorkerFailed,
                        status_code: Some(status),
                        status_class: Some(http_status_class(status)),
                        failure_reason: Some(classify_worker_failure_reason(status)),
                    },
                );
            }
            match payload {
                None => Err(upstream),
                Some(p) => {
                    if !p.ok {
                        return Err(upstream);
                    }
                    match p.image {
                        Some(image) => Ok(normalize_text(image)),
                        None => match p.image_data_url {
                            Some(image) => Ok(normalize_text(image)),
                            None => Ok(None),
                        },
                    }
                },
            }
        },
    }
}

/// The view of a capture endpoint or the failure to have one.
pub open spec fn endpoint_view(r: Result<TargetUrl, ScreenshotWorkerFailure>) -> Result<
    UrlParts,
    ScreenshotWorkerFailure,
> {
    match r {
        Ok(u) => Ok(u@),
        Err(f) => Err(f),
    }
}

/// The capture endpoint of a worker: `capture` joined to its base URL.
pub open spec fn endpoint_for(worker: Option<UrlParts>) -> Result<
    UrlParts,
    ScreenshotWorkerFailure,
> {
    match worker {
        None => Err(plain_failure(ErrorClass::WorkerUnconfigured, FailureReason::Validation)),
        Some(base) => match url_join(base.href, "capture"@) {
            None => Err(plain_failure(ErrorClass::WorkerFailed, FailureReason::Validation)),
            Some(joined) => Ok(joined),
        },
    }
}

/// The URL to ask for a capture, or the failure where no worker is
/// configured or its URL cannot be extended.
pub fn capture_endpoint(worker_base_url: &Option<TargetUrl>) -> (endpoint: Result<
    TargetUrl,
    ScreenshotWorkerFailure,
>)
    ensures
        endpoint_view(endpoint) == endpoint_for(
            match *worker_base_url {
                Some(u) => Some(u@),
                None => None,
            },
        ),
{
    match worker_base_url {
        None => Err(
            ScreenshotWorkerFailure {
                error_class: ErrorClass::WorkerUnconfigured,
                status_code: None,
                status_class: None,
                failure_reason: Some(FailureReason::Validation),
            },
        ),
        Some(base) => match join_url(base.href.as_str(), "capture") {
            None => Err(
                ScreenshotWorkerFailure {
                    error_class: ErrorClass::WorkerFailed,
                    status_code: None,
                    status_class: None,
                    failure_reason: Some(FailureReason::Validation),
                },
            ),
            Some(joined) => Ok(joined),
        },
    }
}

/// When a capture made at `captured_at` stops being fresh.
pub open spec fn fresh_until(captured_at: u64, ttl_seconds: u64) -> u64 {
    if captured_at + ttl_seconds > u64::MAX {
        u64::MAX
    } else {
        (captured_at + ttl_seconds) as u64
    }
}

/// The index after a refresh: a captured image becomes the entry of the
/// URL, without an error; anything else is noted on the entry that is
/// there, which keeps its image.
pub open spec fn recorded(
    s: Seq<IndexedView>,
    url: Seq<char>,
    source: Seq<char>,
    captured_at: u64,
    ttl_seconds: u64,
    capture: Result<Option<Seq<char>>, ScreenshotWorkerFailure>,
) -> Seq<IndexedView> {
    match capture {
        Ok(Some(image)) => inserted(
            s,
            url,
            EntryView {
                image,
                captured_at,
                expires_at: fresh_until(captured_at, ttl_seconds),
                source,
                last_error: None,
            },
        ),
        _ => with_error(s, url, "failed to capture screenshot"@),
    }
}

/// Records the result of a refresh in the screenshot cache.
pub fn record_screenshot_refresh(
    store: &mut ScreenshotCacheStore,
    key: &str,
    source: &str,
    captured_at: u64,
    ttl_seconds: u64,
    capture: &Result<Option<String>, ScreenshotWorkerFailure>,
)
    requires
        old(store).wf(),
    ensures
        final(store)@ == recorded(
            old(store)@,
            key@,
            source@,
            captured_at,
            ttl_seconds,
            capture_view(*capture),
        ),
        final(store).wf(),
        final(store).path() == old(store).path(),
{
    match capture {
        Ok(Some(image)) => {
            let entry = ScreenshotCacheEntry {
                image: image.clone(),
                captured_at,
                expires_at: captured_at.saturating_add(ttl_seconds),
                source: source.to_owned(),
                last_error: None,
            };
            write_screenshot_cache_entry(store, key.to_owned(), entry);
        },
        _ => {
            update_screenshot_cache_error(store, key, "failed to capture screenshot");
        },
    }
}

/// What a refresh achieved.
#[derive(Clone, Debug)]
pub struct ScreenshotRefreshOutcome {
    pub image: Option<String>,
    pub cache_write_ok: Option<bool>,
    pub error_class: Option<ErrorClass>,
    pub worker_status_code: Option<u16>,
    pub worker_status_class: Option<StatusClass>,
    pub worker_failure_reason: Option<FailureReason>,
}

/// The mathematical value of a refresh outcome.
pub struct RefreshOutcomeView {
    pub image: Option<Seq<char>>,
    pub cache_write_ok: Option<bool>,
    pub error_class: Option<ErrorClass>,
    pub worker_status_code: Option<u16>,
    pub worker_status_class: Option<StatusClass>,
    pub worker_failure_reason: Option<FailureReason>,
}

impl View for ScreenshotRefreshOutcome {
    type V = RefreshOutcomeView;

    open spec fn view(&self) -> RefreshOutcomeView {
        RefreshOutcomeView {
            image: text_view(self.image),
            cache_write_ok: self.cache_write_ok,
            error_class: self.error_class,
            worker_status_code: self.worker_status_code,
            worker_status_class: self.worker_status_class,
            worker_failure_reason: self.worker_failure_reason,
        }
    }
}

/// The outcome of a refresh, given what the worker delivered and whether
/// the index could be persisted afterwards.
pub open spec fn refresh_outcome_for(
    capture: Result<Option<Seq<char>>, ScreenshotWorkerFailure>,
    cache_write_ok: bool,
) -> RefreshOutcomeView {
    match capture {
        Ok(Some(image)) => RefreshOutcomeView {
            image: Some(image),
            cache_write_ok: Some(cache_write_ok),
            error_class: if cache_write_ok {
                None
            } else {
                Some(ErrorClass::CacheWriteFailed)
            },
            worker_status_code: None,
            worker_status_class: None,
            worker_failure_reason: None,
        },
        Ok(None) => RefreshOutcomeView {
            image: None,
            cache_write_ok: Some(cache_write_ok),
            error_class: Some(ErrorClass::WorkerFailed),
            worker_status_code: None,
            worker_status_class: None,
            worker_failure_reason: Some(FailureReason::Upstream),
        },
        Err(failure) => RefreshOutcomeView {
            image: None,
            cache_write_ok: Some(cache_write_ok),
            error_class: Some(failure.error_class),
            worker_status_code: failure.status_code,
            worker_status_class: failure.status_class,
            worker_failure_reason: failure.failure_reason,
        },
    }
}

/// Describes a refresh once its result is recorded and persisted.
pub fn screenshot_refresh_outcome(
    capture: Result<Option<String>, ScreenshotWorkerFailure>,
    cache_write_ok: bool,
) -> (outcome: ScreenshotRefreshOutcome)
    ensures
        outcome@ == refresh_outcome_for(capture_view(capture), cache_write_ok),
{
    match capture {
        Ok(Some(image)) => ScreenshotRefreshOutcome {
            image: Some(image),
            cache_write_ok: Some(cache_write_ok),
            error_class: if cache_write_ok {
                None
            } else {
                Some(ErrorClass::CacheWriteFailed)
            },
            worker_status_code: None,
            worker_status_class: None,
            worker_failure_reason: None,
        },
        Ok(None) => ScreenshotRefreshOutcome {
            image: None,
            cache_write_ok: Some(cache_write_ok),
            error_class: Some(ErrorClass::WorkerFailed),
            worker_status_code: None,
            worker_status_class: None,
            worker_failure_reason: Some(FailureReason::Upstream),
        },
        Err(failure) => ScreenshotRefreshOutcome {
            image: None,
            cache_write_ok: Some(cache_write_ok),
            error_class: Some(failure.error_class),
            worker_status_code: failure.status_code,
            worker_status_class: failure.status_class,
            worker_failure_reason: failure.failure_reason,
        },
    }
}

/// How the image of a preview without one of its own was looked for.
#[derive(Clone, Debug)]
pub struct ScreenshotFallbackOutcome {
    pub image: Option<String>,
    pub cache_decision: ScreenshotCacheDecision,
    pub used_cached_image: bool,
    pub worker_attempted: bool,
    pub worker_succeeded: bool,
    pub cache_write_ok: Option<bool>,
    pub error_class: Option<ErrorClass>,
    pub worker_status_code: Option<u16>,
    pub worker_status_class: Option<StatusClass>,
    pub worker_failure_reason: Option<FailureReason>,
}

/// The mathematical value of a fallback outcome.
pub struct FallbackOutcomeView {
    pub image: Option<Seq<char>>,
    pub cache_decision: ScreenshotCacheDecision,
    pub used_cached_image: bool,
    pub worker_attempted: bool,
    pub worker_succeeded: bool,
    pub cache_write_ok: Option<bool>,
    pub error_class: Option<ErrorClass>,
    pub worker_status_code: Option<u16>,
    pub worker_status_class: Option<StatusClass>,
    pub worker_failure_reason: Option<FailureReason>,
}

impl View for ScreenshotFallbackOutcome {
    type V = FallbackOutcomeView;

    open spec fn view(&self) -> FallbackOutcomeView {
        FallbackOutcomeView {
            image: text_view(self.image),
            cache_decision: self.cache_decision,
            used_cached_image: self.used_cached_image,
            worker_attempted: self.worker_attempted,
            worker_succeeded: self.worker_succeeded,
            cache_write_ok: self.cache_write_ok,
            error_class: self.error_class,
            worker_status_code: self.worker_status_code,
            worker_status_class: self.worker_status_class,
            worker_failure_reason: self.worker_failure_reason,
        }
    }
}

/// The outcome of serving a cached image without asking the worker.
pub open spec fn served_from_cache(image: Seq<char>, decision: ScreenshotCacheDecision)
    -> FallbackOutcomeView {
    FallbackOutcomeView {
        image: Some(image),
        cache_decision: decision,
        used_cached_image: true,
        worker_attempted: false,
        worker_succeeded: false,
        cache_write_ok: None,
        error_class: None,
        worker_status_code: None,
        worker_status_class: None,
        worker_failure_reason: None,
    }
}

/// The outcome of a refresh made because nothing usable was cached.
pub open spec fn served_after_refresh(refreshed: RefreshOutcomeView) -> FallbackOutcomeView {
    FallbackOutcomeView {
        image: refreshed.image,
        cache_decision: ScreenshotCacheDecision::MissingOrExpired,
        used_cached_image: false,
        worker_attempted: true,
        worker_succeeded: refreshed.image is Some,
        cache_write_ok: refreshed.cache_write_ok,
        error_class: refreshed.error_class,
        worker_status_code: refreshed.worker_status_code,
        worker_status_class: refreshed.worker_status_class,
        worker_failure_reason: refreshed.worker_failure_reason,
    }
}

/// What to do for a preview that needs a screenshot.
#[derive(Clone, Debug)]
pub enum FallbackPlan {
    /// The cached image is fresh: serve it.
    Serve(ScreenshotFallbackOutcome),
    /// The cached image is stale but within grace: serve it, and refresh it
    /// in the background unless a refresh is already under way.
    ServeAndRefresh(ScreenshotFallbackOutcome),
    /// Nothing usable is cached: refresh now and serve the result.
    RefreshNow,
}

/// The mathematical value of a plan.
pub enum FallbackPlanView {
    Serve(FallbackOutcomeView),
    ServeAndRefresh(FallbackOutcomeView),
    RefreshNow,
}

impl View for FallbackPlan {
    type V = FallbackPlanView;

    open spec fn view(&self) -> FallbackPlanView {
        match *self {
            FallbackPlan::Serve(o) => FallbackPlanView::Serve(o@),
            FallbackPlan::ServeAndRefresh(o) => FallbackPlanView::ServeAndRefresh(o@),
            FallbackPlan::RefreshNow => FallbackPlanView::RefreshNow,
        }
    }
}

/// The plan for a URL given its cached entry.
pub open spec fn plan_for(entry: Option<EntryView>, now_unix: u64, stale_grace_seconds: u64)
    -> FallbackPlanView {
    match decision_for(now_unix, entry, stale_grace_seconds) {
        ScreenshotCacheDecision::Fresh => FallbackPlanView::Serve(
            served_from_cache(entry->0.image, ScreenshotCacheDecision::Fresh),
        ),
        ScreenshotCacheDecision::StaleWithinGrace => FallbackPlanView::ServeAndRefresh(
            served_from_cache(entry->0.image, ScreenshotCacheDecision::StaleWithinGrace),
        ),
        ScreenshotCacheDecision::MissingOrExpired => FallbackPlanView::RefreshNow,
    }
}

/// Chooses between the cached screenshot of a URL and a refresh.
pub fn plan_screenshot_fallback(
    store: &ScreenshotCacheStore,
    key: &str,
    now_unix: u64,
    stale_grace_seconds: u64,
) -> (plan: FallbackPlan)
    requires
        store.wf(),
    ensures
        plan@ == plan_for(stored(store@, key@), now_unix, stale_grace_seconds),
{
    let cached = read_screenshot_cache_entry(store, key);
    let decision = decide_screenshot_cache_action(now_unix, cached.as_ref(), stale_grace_seconds);
    match cached {
        None => FallbackPlan::RefreshNow,
        Some(entry) => {
            let outcome = ScreenshotFallbackOutcome {
                image: Some(entry.image),
                cache_decision: decision,
                used_cached_image: true,
                worker_attempted: false,
                worker_succeeded: false,
                cache_write_ok: None,
                error_class: None,
                worker_status_code: None,
                worker_status_class: None,
                worker_failure_reason: None,
            };
            match decision {
                ScreenshotCacheDecision::Fresh => FallbackPlan::Serve(outcome),
                ScreenshotCacheDecision::StaleWithinGrace => FallbackPlan::ServeAndRefresh(outcome),
                ScreenshotCacheDecision::MissingOrExpired => FallbackPlan::RefreshNow,
            }
        },
    }
}

/// Describes the fallback once the refresh it asked for is done.
pub fn fallback_outcome_after_refresh(refreshed: ScreenshotRefreshOutcome) -> (outcome:
    ScreenshotFallbackOutcome)
    ensures
        outcome@ == served_after_refresh(refreshed@),
{
    let worker_succeeded = refreshed.image.is_some();
    ScreenshotFallbackOutcome {
        image: refreshed.image,
        cache_decision: ScreenshotCacheDecision::MissingOrExpired,
        used_cached_image: false,
        worker_attempted: true,
        worker_succeeded,
        cache_write_ok: refreshed.cache_write_ok,
        error_class: refreshed.error_class,
        worker_status_code: refreshed.worker_status_code,
        worker_status_class: refreshed.worker_status_class,
        worker_failure_reason: refreshed.worker_failure_reason,
    }
}

/// The list of URLs to refresh, in either of its two written forms.
#[derive(Clone, Debug)]
pub enum RefreshUrlConfig {
    /// A bare list.
    Bare(Vec<String>),
    /// A list under the key `urls`.
    Wrapped { urls: Vec<String> },
}

impl RefreshUrlConfig {
    /// The listed URLs.
    pub fn into_urls(self) -> (list: Vec<String>)
        ensures
            list == match self {
                RefreshUrlConfig::Bare(urls) => urls,
                RefreshUrlConfig::Wrapped { urls } => urls,
            },
    {
        match self {
            RefreshUrlConfig::Bare(urls) => urls,
            RefreshUrlConfig::Wrapped { urls } => urls,
        }
    }
}

/// The views of a list of texts.
pub open spec fn texts(list: Seq<String>) -> Seq<Seq<char>> {
    Seq::new(list.len(), |i: int| list[i]@)
}

/// The texts trimmed, without those that are empty afterwards.
pub open spec fn cleaned(list: Seq<Seq<char>>) -> Seq<Seq<char>>
    decreases list.len(),
{
    if list.len() == 0 {
        list
    } else if trimmed(list.last()).len() == 0 {
        cleaned(list.drop_last())
    } else {
        cleaned(list.drop_last()).push(trimmed(list.last()))
    }
}

/// Trims the configured URLs and drops the empty ones.
pub fn clean_refresh_urls(urls: &Vec<String>) -> (kept: Vec<String>)
    ensures
        texts(kept@) == cleaned(texts(urls@)),
{
    let ghost all = texts(urls@);
    let mut kept: Vec<String> = Vec::new();
    let mut i: usize = 0;
    assert(texts(kept@) =~= cleaned(all.take(0)));
    while i < urls.len()
        invariant
            i <= urls.len(),
            all == texts(urls@),
            texts(kept@) == cleaned(all.take(i as int)),
        decreases urls.len() - i,
    {
        proof {
            assert(all.take(i + 1).drop_last() =~= all.take(i as int));
            assert(all.take(i + 1).last() == urls@[i as int]@);
        }
        let value = trim(urls[i].as_str());
        let ghost prev = kept@;
        if !value.as_str().is_empty() {
            kept.push(value);
            assert(texts(kept@) =~= texts(prev).push(value@));
        }
        i += 1;
    }
    assert(all.take(i as int) =~= all);
    kept
}

/// The URLs of a batch that passed screening, and the number that did not.
#[derive(Clone, Debug)]
pub struct RefreshBatch {
    pub valid: Vec<TargetUrl>,
    pub invalid: usize,
}

/// The views of a list of targets.
pub open spec fn target_views(list: Seq<TargetUrl>) -> Seq<UrlParts> {
    Seq::new(list.len(), |i: int| list[i]@)
}

/// The URLs among the texts that parse and pass the safety rules.
pub open spec fn accepted(raw: Seq<Seq<char>>) -> Seq<UrlParts>
    decreases raw.len(),
{
    if raw.len() == 0 {
        Seq::empty()
    } else {
        match preview_url_verdict(raw.last()) {
            Ok(parts) => accepted(raw.drop_last()).push(parts),
            Err(_) => accepted(raw.drop_last()),
        }
    }
}

/// Every text is either accepted or counted as invalid.
pub proof fn lemma_accepted_len(raw: Seq<Seq<char>>)
    ensures
        accepted(raw).len() <= raw.len(),
    decreases raw.len(),
{
    if raw.len() > 0 {
        lemma_accepted_len(raw.drop_last());
    }
}

/// Screens the URLs of a batch: those that parse and pass the safety rules
/// are kept in order, the others are counted.
pub fn screen_refresh_urls(raw_urls: &Vec<String>) -> (batch: RefreshBatch)
    ensures
        target_views(batch.valid@) == accepted(texts(raw_urls@)),
        batch.valid@.len() + batch.invalid == raw_urls@.len(),
{
    let ghost all = texts(raw_urls@);
    let mut valid: Vec<TargetUrl> = Vec::new();
    let mut invalid: usize = 0;
    let mut i: usize = 0;
    assert(target_views(valid@) =~= accepted(all.take(0)));
    while i < raw_urls.len()
        invariant
            i <= raw_urls.len(),
            all == texts(raw_urls@),
            target_views(valid@) == accepted(all.take(i as int)),
            valid@.len() + invalid == i,
        decreases raw_urls.len() - i,
    {
        proof {
            assert(all.take(i + 1).drop_last() =~= all.take(i as int));
            assert(all.take(i + 1).last() == raw_urls@[i as int]@);
        }
        let ghost prev = valid@;
        match parse_preview_url(raw_urls[i].as_str()) {
            Ok(parsed) => {
                valid.push(parsed);
                assert(target_views(valid@) =~= target_views(prev).push(parsed@));
            },
            Err(_) => {
                invalid += 1;
            },
        }
        i += 1;
    }
    assert(all.take(i as int) =~= all);
    RefreshBatch { valid, invalid }
}

/// The result of a batch refresh.
#[derive(Clone, Copy, Debug, PartialEq, Eq, Structural)]
pub struct ScreenshotRefreshSummary {
    pub ok: bool,
    pub requested_urls: usize,
    pub refreshed: usize,
    pub invalid: usize,
    pub failed: usize,
}

/// How many of the refreshes delivered an image.
pub open spec fn count_refreshed(results: Seq<bool>) -> nat
    decreases results.len(),
{
    if results.len() == 0 {
        0
    } else if results.last() {
        count_refreshed(results.drop_last()) + 1
    } else {
        count_refreshed(results.drop_last())
    }
}

/// No more refreshes deliver than were made.
pub proof fn lemma_count_refreshed(results: Seq<bool>)
    ensures
        count_refreshed(results) <= results.len(),
    decreases results.len(),
{
    if results.len() > 0 {
        lemma_count_refreshed(results.drop_last());
    }
}

/// Sums a batch up: each refresh either delivered an image or failed.
pub fn summarize_refresh(requested_urls: usize, invalid: usize, results: &Vec<bool>) -> (summary:
    ScreenshotRefreshSummary)
    ensures
        summary.ok,
        summary.requested_urls == requested_urls,
        summary.invalid == invalid,
        summary.refreshed == count_refreshed(results@),
        summary.refreshed + summary.failed == results@.len(),
{
    let mut refreshed: usize = 0;
    let mut failed: usize = 0;
    let mut i: usize = 0;
    while i < results.len()
        invariant
            i <= results.len(),
            refreshed == count_refreshed(results@.take(i as int)),
            refreshed + failed == i,
        decreases results.len() - i,
    {
        proof {
            assert(results@.take(i + 1).drop_last() =~= results@.take(i as int));
        }
        if results[i] {
            refreshed += 1;
        } else {
            failed += 1;
        }
        i += 1;
    }
    assert(results@.take(i as int) =~= results@);
    ScreenshotRefreshSummary { ok: true, requested_urls, refreshed, invalid, failed }
}

/// A batch accounts for every requested URL: with each accepted URL
/// refreshed once, the invalid, refreshed and failed counts add up to the
/// number requested.
pub proof fn lemma_batch_accounts_for_all(raw: Seq<Seq<char>>, results: Seq<bool>)
    requires
        results.len() == accepted(raw).len(),
    ensures
        (raw.len() - accepted(raw).len()) + count_refreshed(results) + (results.len()
            - count_refreshed(results)) == raw.len(),
        count_refreshed(results) <= results.len() <= raw.len(),
{
    lemma_accepted_len(raw);
    lemma_count_refreshed(results);
}

} // verus!
