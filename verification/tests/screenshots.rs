use link_preview::errors::PreviewError;
use link_preview::refresh::{
    capture_endpoint, classify_worker_failure_reason, clean_refresh_urls,
    fallback_outcome_after_refresh, http_status_class, interpret_worker_reply,
    plan_screenshot_fallback, record_screenshot_refresh, screen_refresh_urls,
    screenshot_refresh_outcome, summarize_refresh, ErrorClass, FailureReason, FallbackPlan,
    RefreshUrlConfig, ScreenshotWorkerFailure, StatusClass, WorkerPayload, WorkerReply,
};
use link_preview::request::{
    build_preview_payload_from_metadata_result, draft_preview, needs_screenshot_fallback,
};
use link_preview::screenshot::{
    decide_screenshot_cache_action, read_screenshot_cache_entry, update_screenshot_cache_error,
    write_screenshot_cache_entry, InFlightSet, IndexedScreenshot, ScreenshotCacheDecision,
    ScreenshotCacheEntry, ScreenshotCacheIndex, ScreenshotCacheStore,
};
use link_preview::address::{Ipv4Address, Ipv6Address};
use link_preview::target::{parse_preview_url, HostKind, TargetUrl};
use url::{Host, Url};

fn target(url: &Url) -> TargetUrl {
    let host = match url.host() {
        None => HostKind::Absent,
        Some(Host::Domain(_)) => HostKind::Domain,
        Some(Host::Ipv4(a)) => HostKind::Ipv4(Ipv4Address::from_octets(a.octets())),
        Some(Host::Ipv6(a)) => HostKind::Ipv6(Ipv6Address::from_segments(a.segments())),
    };
    TargetUrl {
        href: url.to_string(),
        scheme: url.scheme().to_string(),
        host_text: url.host_str().map(String::from),
        host,
        port: url.port(),
        known_port: url.port_or_known_default(),
    }
}

fn entry(image: &str, captured_at: u64, expires_at: u64) -> ScreenshotCacheEntry {
    ScreenshotCacheEntry {
        image: image.to_string(),
        captured_at,
        expires_at,
        source: "scheduled-refresh".to_string(),
        last_error: None,
    }
}

fn empty_store() -> ScreenshotCacheStore {
    ScreenshotCacheStore::load_from_disk("/tmp/test-preview-cache.json".to_string(), None)
}

#[test]
fn screenshot_cache_decision_reports_fresh() {
    let now: u64 = 1_700_000_000;
    let entry = ScreenshotCacheEntry {
        image: "data:image/png;base64,fresh".to_string(),
        captured_at: now.saturating_sub(10),
        expires_at: now.saturating_add(20),
        source: "scheduled-refresh".to_string(),
        last_error: None,
    };

    let decision = decide_screenshot_cache_action(now, Some(&entry), 120);
    assert_eq!(decision, ScreenshotCacheDecision::Fresh);
}

#[test]
fn screenshot_cache_decision_reports_stale_within_grace() {
    let now: u64 = 1_700_000_000;
    let entry = ScreenshotCacheEntry {
        image: "data:image/png;base64,stale".to_string(),
        captured_at: now.saturating_sub(500),
        expires_at: now.saturating_sub(5),
        source: "scheduled-refresh".to_string(),
        last_error: None,
    };

    let decision = decide_screenshot_cache_action(now, Some(&entry), 60);
    assert_eq!(decision, ScreenshotCacheDecision::StaleWithinGrace);
}

#[test]
fn screenshot_cache_decision_reports_missing_or_expired() {
    let now: u64 = 1_700_000_000;
    let entry = ScreenshotCacheEntry {
        image: "data:image/png;base64,expired".to_string(),
        captured_at: now.saturating_sub(500),
        expires_at: now.saturating_sub(120),
        source: "scheduled-refresh".to_string(),
        last_error: None,
    };

    assert_eq!(
        decide_screenshot_cache_action(now, Some(&entry), 60),
        ScreenshotCacheDecision::MissingOrExpired
    );
    assert_eq!(
        decide_screenshot_cache_action(now, None, 60),
        ScreenshotCacheDecision::MissingOrExpired
    );
}

#[test]
fn screenshot_decision_boundaries() {
    let e = entry("img", 900, 1_000);
    assert_eq!(decide_screenshot_cache_action(999, Some(&e), 50), ScreenshotCacheDecision::Fresh);
    assert_eq!(
        decide_screenshot_cache_action(1_000, Some(&e), 50),
        ScreenshotCacheDecision::StaleWithinGrace
    );
    assert_eq!(
        decide_screenshot_cache_action(1_050, Some(&e), 50),
        ScreenshotCacheDecision::StaleWithinGrace
    );
    assert_eq!(
        decide_screenshot_cache_action(1_051, Some(&e), 50),
        ScreenshotCacheDecision::MissingOrExpired
    );
    assert_eq!(
        decide_screenshot_cache_action(1_000, Some(&e), 0),
        ScreenshotCacheDecision::StaleWithinGrace
    );
    assert_eq!(
        decide_screenshot_cache_action(1_001, Some(&e), 0),
        ScreenshotCacheDecision::MissingOrExpired
    );
    let late = entry("img", 0, u64::MAX - 5);
    assert_eq!(
        decide_screenshot_cache_action(u64::MAX, Some(&late), 100),
        ScreenshotCacheDecision::StaleWithinGrace
    );
    assert_eq!(ScreenshotCacheDecision::Fresh.as_str(), "fresh");
    assert_eq!(ScreenshotCacheDecision::StaleWithinGrace.as_str(), "stale");
    assert_eq!(ScreenshotCacheDecision::MissingOrExpired.as_str(), "missing_or_expired");
}

#[test]
fn metadata_fetch_failure_still_uses_screenshot_fallback() {
    let target_url =
        target(&Url::parse("https://www.linkedin.com/in/example").expect("valid URL"));
    let cached_image = "data:image/png;base64,cached-fallback";
    let now: u64 = 1_700_000_000;
    let mut store = empty_store();
    write_screenshot_cache_entry(
        &mut store,
        target_url.href.clone(),
        ScreenshotCacheEntry {
            image: cached_image.to_string(),
            captured_at: now,
            expires_at: now.saturating_add(600),
            source: "test".to_string(),
            last_error: None,
        },
    );

    let draft = draft_preview(Err(PreviewError::NonSuccessResponse), target_url.clone());
    assert!(needs_screenshot_fallback(&draft));
    let fallback = match plan_screenshot_fallback(&store, &draft.resolved_url.href, now, 1_209_600) {
        FallbackPlan::Serve(outcome) => outcome,
        other => panic!("{:?}", other),
    };
    let outcome = build_preview_payload_from_metadata_result(draft, Some(fallback));

    assert_eq!(
        outcome.metadata_fetch_error.map(|e| e.message()),
        Some("received non-success response"),
        "metadata should degrade recoverably when upstream fetch fails"
    );
    assert_eq!(outcome.payload.ok, true);
    assert_eq!(outcome.payload.title.as_deref(), Some("linkedin.com"));
    assert_eq!(outcome.payload.description, None);
    assert_eq!(outcome.payload.image.as_deref(), Some(cached_image));

    let screenshot = outcome
        .screenshot_fallback
        .as_ref()
        .expect("fallback should still run after metadata failure");
    assert_eq!(screenshot.cache_decision, ScreenshotCacheDecision::Fresh);
    assert_eq!(screenshot.used_cached_image, true);
}

#[test]
fn metadata_fetch_failure_no_screenshot_returns_ok_with_minimal_payload() {
    let target_url = target(&Url::parse("https://www.it.tamu.edu/").expect("valid URL"));
    let mut store = empty_store();
    let now: u64 = 1_700_000_000;

    let draft = draft_preview(Err(PreviewError::BodyReadFailed), target_url);
    assert!(needs_screenshot_fallback(&draft));
    assert!(matches!(
        plan_screenshot_fallback(&store, &draft.resolved_url.href, now, 1_209_600),
        FallbackPlan::RefreshNow
    ));
    let capture = match capture_endpoint(&None) {
        Err(failure) => Err(failure),
        Ok(_) => panic!("no worker is configured"),
    };
    record_screenshot_refresh(
        &mut store,
        &draft.resolved_url.href,
        "on-demand-fallback",
        now,
        604_800,
        &capture,
    );
    let refreshed = screenshot_refresh_outcome(capture, true);
    let fallback = fallback_outcome_after_refresh(refreshed);
    let outcome = build_preview_payload_from_metadata_result(draft, Some(fallback));

    assert_eq!(
        outcome.metadata_fetch_error.map(|e| e.message()),
        Some("failed reading response body")
    );
    assert_eq!(outcome.payload.ok, true);
    assert_eq!(outcome.payload.title.as_deref(), Some("it.tamu.edu"));
    assert_eq!(outcome.payload.description, None);
    assert_eq!(outcome.payload.image, None);
    assert_eq!(outcome.payload.url.as_deref(), Some("https://www.it.tamu.edu/"));

    let screenshot = outcome
        .screenshot_fallback
        .as_ref()
        .expect("fallback branch should still execute");
    assert_eq!(screenshot.worker_attempted, true);
    assert_eq!(screenshot.worker_succeeded, false);
    assert_eq!(
        screenshot.error_class.map(|c| c.as_str()),
        Some("screenshot_worker_unconfigured")
    );
    assert_eq!(screenshot.worker_failure_reason, Some(FailureReason::Validation));
    assert_eq!(store.len(), 0);
}

#[test]
fn unreachable_page_with_cached_screenshot() {
    let target_url = parse_preview_url("https://example.test/").expect("valid URL");
    let mut store = empty_store();
    write_screenshot_cache_entry(&mut store, target_url.href.clone(), entry("cached", 100, 700));
    let draft = draft_preview(Err(PreviewError::FetchFailed), target_url);
    let fallback = match plan_screenshot_fallback(&store, "https://example.test/", 200, 50) {
        FallbackPlan::Serve(outcome) => outcome,
        other => panic!("{:?}", other),
    };
    let outcome = build_preview_payload_from_metadata_result(draft, Some(fallback));
    assert!(outcome.payload.ok);
    assert_eq!(outcome.payload.title.as_deref(), Some("example.test"));
    assert_eq!(outcome.payload.image.as_deref(), Some("cached"));
    assert_eq!(outcome.payload.error, None);
    assert!(!outcome.og_metadata_found_image);
}

#[test]
fn stale_entries_are_served_and_refreshed() {
    let mut store = empty_store();
    write_screenshot_cache_entry(&mut store, "https://a.test/".to_string(), entry("old", 0, 100));
    match plan_screenshot_fallback(&store, "https://a.test/", 150, 50) {
        FallbackPlan::ServeAndRefresh(outcome) => {
            assert_eq!(outcome.image.as_deref(), Some("old"));
            assert_eq!(outcome.cache_decision, ScreenshotCacheDecision::StaleWithinGrace);
            assert!(outcome.used_cached_image);
            assert!(!outcome.worker_attempted);
            assert!(!outcome.worker_succeeded);
            assert_eq!(outcome.cache_write_ok, None);
            assert_eq!(outcome.error_class, None);
        }
        other => panic!("{:?}", other),
    }
    assert!(matches!(
        plan_screenshot_fallback(&store, "https://a.test/", 151, 50),
        FallbackPlan::RefreshNow
    ));
    assert!(matches!(
        plan_screenshot_fallback(&store, "https://b.test/", 10, 50),
        FallbackPlan::RefreshNow
    ));
}

#[test]
fn in_flight_refreshes_are_claimed_once() {
    let mut set = InFlightSet::new();
    assert!(set.claim("https://a.test/"));
    assert!(!set.claim("https://a.test/"));
    assert!(set.claim("https://b.test/"));
    assert!(set.contains("https://a.test/"));
    set.release("https://a.test/");
    assert!(!set.contains("https://a.test/"));
    assert!(set.contains("https://b.test/"));
    set.release("https://a.test/");
    assert!(set.claim("https://a.test/"));
}

#[test]
fn failed_refresh_keeps_the_image() {
    let mut store = empty_store();
    let key = "https://a.test/";
    let ok: Result<Option<String>, ScreenshotWorkerFailure> = Ok(Some("img-1".to_string()));
    record_screenshot_refresh(&mut store, key, "scheduled-refresh", 1_000, 60, &ok);
    let first = read_screenshot_cache_entry(&store, key).expect("entry");
    assert_eq!(first.image, "img-1");
    assert_eq!(first.captured_at, 1_000);
    assert_eq!(first.expires_at, 1_060);
    assert_eq!(first.source, "scheduled-refresh");
    assert_eq!(first.last_error, None);

    let nothing: Result<Option<String>, ScreenshotWorkerFailure> = Ok(None);
    record_screenshot_refresh(&mut store, key, "async-stale-refresh", 2_000, 60, &nothing);
    let second = read_screenshot_cache_entry(&store, key).expect("entry");
    assert_eq!(second.image, "img-1");
    assert_eq!(second.captured_at, 1_000);
    assert_eq!(second.expires_at, 1_060);
    assert_eq!(second.source, "scheduled-refresh");
    assert_eq!(second.last_error.as_deref(), Some("failed to capture screenshot"));

    let again: Result<Option<String>, ScreenshotWorkerFailure> = Ok(Some("img-2".to_string()));
    record_screenshot_refresh(&mut store, key, "on-demand-fallback", u64::MAX - 3, 60, &again);
    let third = read_screenshot_cache_entry(&store, key).expect("entry");
    assert_eq!(third.image, "img-2");
    assert_eq!(third.expires_at, u64::MAX);
    assert_eq!(third.source, "on-demand-fallback");
    assert_eq!(third.last_error, None);
    assert_eq!(store.len(), 1);

    update_screenshot_cache_error(&mut store, "https://unknown.test/", "failed");
    assert_eq!(store.len(), 1);
    assert!(read_screenshot_cache_entry(&store, "https://unknown.test/").is_none());
}

#[test]
fn store_is_loaded_from_an_index() {
    let index = ScreenshotCacheIndex {
        entries: vec![
            IndexedScreenshot { url: "https://a.test/".to_string(), entry: entry("a1", 1, 2) },
            IndexedScreenshot { url: "https://b.test/".to_string(), entry: entry("b", 3, 4) },
            IndexedScreenshot { url: "https://a.test/".to_string(), entry: entry("a2", 5, 6) },
        ],
    };
    let store = ScreenshotCacheStore::load_from_disk("/tmp/x.json".to_string(), Some(index));
    assert_eq!(store.file_path(), "/tmp/x.json");
    assert_eq!(store.len(), 2);
    assert_eq!(read_screenshot_cache_entry(&store, "https://a.test/").map(|e| e.image), Some("a2".to_string()));
    let snapshot = store.snapshot();
    assert_eq!(snapshot.entries.len(), 2);
    assert_eq!(snapshot.entries[0].url, "https://a.test/");
    assert_eq!(snapshot.entries[0].entry.image, "a2");
    assert_eq!(snapshot.entries[1].url, "https://b.test/");
    assert_eq!(empty_store().len(), 0);
}

#[test]
fn worker_replies_are_classified() {
    let upstream = ScreenshotWorkerFailure {
        error_class: ErrorClass::WorkerFailed,
        status_code: None,
        status_class: None,
        failure_reason: Some(FailureReason::Upstream),
    };
    assert_eq!(interpret_worker_reply(WorkerReply::Unreachable), Err(upstream));
    assert_eq!(
        interpret_worker_reply(WorkerReply::Answered { status: 200, payload: None }),
        Err(upstream)
    );
    let refused = WorkerPayload { ok: false, image: Some("x".to_string()), image_data_url: None };
    assert_eq!(
        interpret_worker_reply(WorkerReply::Answered { status: 200, payload: Some(refused) }),
        Err(upstream)
    );
    for (status, class, reason) in [
        (401u16, StatusClass::ClientError, FailureReason::Auth),
        (403, StatusClass::ClientError, FailureReason::Auth),
        (404, StatusClass::ClientError, FailureReason::Validation),
        (500, StatusClass::ServerError, FailureReason::Upstream),
        (302, StatusClass::Redirection, FailureReason::Upstream),
        (101, StatusClass::Informational, FailureReason::Upstream),
        (700, StatusClass::Unknown, FailureReason::Upstream),
    ] {
        let payload = WorkerPayload { ok: true, image: Some("x".to_string()), image_data_url: None };
        assert_eq!(
            interpret_worker_reply(WorkerReply::Answered { status, payload: Some(payload) }),
            Err(ScreenshotWorkerFailure {
                error_class: ErrorClass::WorkerFailed,
                status_code: Some(status),
                status_class: Some(class),
                failure_reason: Some(reason),
            })
        );
        assert_eq!(http_status_class(status), class);
        assert_eq!(classify_worker_failure_reason(status), reason);
    }
    assert_eq!(http_status_class(204), StatusClass::Success);
    let both = WorkerPayload {
        ok: true,
        image: Some("  data:a  ".to_string()),
        image_data_url: Some("data:b".to_string()),
    };
    assert_eq!(
        interpret_worker_reply(WorkerReply::Answered { status: 200, payload: Some(both) }),
        Ok(Some("data:a".to_string()))
    );
    let second = WorkerPayload { ok: true, image: None, image_data_url: Some("data:b".to_string()) };
    assert_eq!(
        interpret_worker_reply(WorkerReply::Answered { status: 201, payload: Some(second) }),
        Ok(Some("data:b".to_string()))
    );
    let blank = WorkerPayload {
        ok: true,
        image: Some("   ".to_string()),
        image_data_url: Some("data:b".to_string()),
    };
    assert_eq!(
        interpret_worker_reply(WorkerReply::Answered { status: 200, payload: Some(blank) }),
        Ok(None)
    );
    let none = WorkerPayload { ok: true, image: None, image_data_url: None };
    assert_eq!(
        interpret_worker_reply(WorkerReply::Answered { status: 200, payload: Some(none) }),
        Ok(None)
    );
    assert_eq!(StatusClass::Informational.as_str(), "1xx");
    assert_eq!(StatusClass::Success.as_str(), "2xx");
    assert_eq!(StatusClass::Redirection.as_str(), "3xx");
    assert_eq!(StatusClass::ClientError.as_str(), "4xx");
    assert_eq!(StatusClass::ServerError.as_str(), "5xx");
    assert_eq!(StatusClass::Unknown.as_str(), "unknown");
    assert_eq!(FailureReason::Auth.as_str(), "auth");
    assert_eq!(FailureReason::Validation.as_str(), "validation");
    assert_eq!(FailureReason::Upstream.as_str(), "upstream");
    assert_eq!(ErrorClass::WorkerFailed.as_str(), "screenshot_worker_failed");
    assert_eq!(ErrorClass::CacheWriteFailed.as_str(), "cache_write_failed");
}

#[test]
fn capture_endpoint_is_joined_to_the_worker() {
    let worker = parse_preview_url("https://worker.example/api/").ok();
    assert_eq!(
        capture_endpoint(&worker).map(|u| u.href).ok().as_deref(),
        Some("https://worker.example/api/capture")
    );
    let flat = parse_preview_url("https://worker.example/api").ok();
    assert_eq!(
        capture_endpoint(&flat).map(|u| u.href).ok().as_deref(),
        Some("https://worker.example/capture")
    );
    assert_eq!(
        capture_endpoint(&None).err(),
        Some(ScreenshotWorkerFailure {
            error_class: ErrorClass::WorkerUnconfigured,
            status_code: None,
            status_class: None,
            failure_reason: Some(FailureReason::Validation),
        })
    );
}

#[test]
fn refresh_outcomes() {
    let ok = screenshot_refresh_outcome(Ok(Some("img".to_string())), true);
    assert_eq!(ok.image.as_deref(), Some("img"));
    assert_eq!(ok.cache_write_ok, Some(true));
    assert_eq!(ok.error_class, None);
    let unsaved = screenshot_refresh_outcome(Ok(Some("img".to_string())), false);
    assert_eq!(unsaved.image.as_deref(), Some("img"));
    assert_eq!(unsaved.cache_write_ok, Some(false));
    assert_eq!(unsaved.error_class, Some(ErrorClass::CacheWriteFailed));
    let empty = screenshot_refresh_outcome(Ok(None), true);
    assert_eq!(empty.image, None);
    assert_eq!(empty.error_class, Some(ErrorClass::WorkerFailed));
    assert_eq!(empty.worker_failure_reason, Some(FailureReason::Upstream));
    let failed = screenshot_refresh_outcome(
        Err(ScreenshotWorkerFailure {
            error_class: ErrorClass::WorkerFailed,
            status_code: Some(403),
            status_class: Some(StatusClass::ClientError),
            failure_reason: Some(FailureReason::Auth),
        }),
        false,
    );
    assert_eq!(failed.image, None);
    assert_eq!(failed.cache_write_ok, Some(false));
    assert_eq!(failed.worker_status_code, Some(403));
    assert_eq!(failed.worker_status_class, Some(StatusClass::ClientError));
    assert_eq!(failed.worker_failure_reason, Some(FailureReason::Auth));
    let served = fallback_outcome_after_refresh(ok);
    assert_eq!(served.image.as_deref(), Some("img"));
    assert!(served.worker_attempted && served.worker_succeeded && !served.used_cached_image);
    assert_eq!(served.cache_decision, ScreenshotCacheDecision::MissingOrExpired);
    assert_eq!(served.cache_write_ok, Some(true));
}

#[test]
fn batch_refresh_counts_every_url() {
    let raw = RefreshUrlConfig::Wrapped {
        urls: vec![
            " https://a.test/ ".to_string(),
            "https://b.test/x".to_string(),
            "http://127.0.0.1/".to_string(),
            "   ".to_string(),
            "https://c.test/".to_string(),
            "not a url".to_string(),
            "https://d.test/".to_string(),
            "https://e.test/".to_string(),
        ],
    }
    .into_urls();
    let urls = clean_refresh_urls(&raw);
    assert_eq!(urls.len(), 7);
    assert_eq!(urls[0], "https://a.test/");
    let batch = screen_refresh_urls(&urls);
    assert_eq!(batch.invalid, 2);
    assert_eq!(batch.valid.len(), 5);
    let hrefs: Vec<&str> = batch.valid.iter().map(|u| u.href.as_str()).collect();
    assert_eq!(
        hrefs,
        vec!["https://a.test/", "https://b.test/x", "https://c.test/", "https://d.test/", "https://e.test/"]
    );
    let results = vec![true, false, true, true, false];
    let summary = summarize_refresh(urls.len(), batch.invalid, &results);
    assert!(summary.ok);
    assert_eq!(summary.requested_urls, 7);
    assert_eq!(summary.invalid, 2);
    assert_eq!(summary.refreshed, 3);
    assert_eq!(summary.failed, 2);
    assert_eq!(summary.refreshed + summary.failed, 5);
    assert_eq!(
        RefreshUrlConfig::Bare(vec!["x".to_string()]).into_urls(),
        vec!["x".to_string()]
    );
}
