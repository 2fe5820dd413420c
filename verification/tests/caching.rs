use link_preview::cache::{
    evict_oldest_entry, purge_expired_entries, read_from_cache, write_to_cache, PreviewCache,
};
use link_preview::config::{DEFAULT_PREVIEW_CACHE_MAX_ENTRIES, DEFAULT_PREVIEW_CACHE_TTL_SECONDS};
use link_preview::payload::PreviewPayload;
use link_preview::request::{peek_preview, start_preview, PreviewStart};

fn payload(url: &str, title: &str) -> PreviewPayload {
    PreviewPayload {
        ok: true,
        url: Some(url.to_string()),
        title: Some(title.to_string()),
        description: None,
        image: None,
        error: None,
    }
}

#[test]
fn cache_overwrite_at_capacity_does_not_evict_oldest() {
    let mut cache = PreviewCache::new();
    let now: u64 = 1_000;

    for index in 0..DEFAULT_PREVIEW_CACHE_MAX_ENTRIES {
        let key = format!("key-{index}");
        write_to_cache(
            &mut cache,
            key,
            PreviewPayload {
                ok: true,
                url: Some("https://example.com".to_string()),
                title: Some("title".to_string()),
                description: None,
                image: None,
                error: None,
            },
            now + index as u64,
            10_000,
            DEFAULT_PREVIEW_CACHE_MAX_ENTRIES,
        );
    }

    write_to_cache(
        &mut cache,
        "key-10".to_string(),
        PreviewPayload {
            ok: true,
            url: Some("https://example.com/updated".to_string()),
            title: Some("updated".to_string()),
            description: None,
            image: None,
            error: None,
        },
        now + 300,
        DEFAULT_PREVIEW_CACHE_TTL_SECONDS,
        DEFAULT_PREVIEW_CACHE_MAX_ENTRIES,
    );

    assert_eq!(cache.len(), DEFAULT_PREVIEW_CACHE_MAX_ENTRIES);
    assert!(cache.contains_key("key-0"));
    assert_eq!(
        cache.peek("key-10", now + 300).and_then(|entry| entry.title).as_deref(),
        Some("updated")
    );
}

#[test]
fn one_key_over_capacity_evicts_the_oldest() {
    let capacity: usize = 4;
    let mut cache = PreviewCache::new();
    let created = [30u64, 10, 20, 40];
    for (index, now) in created.iter().enumerate() {
        write_to_cache(&mut cache, format!("k{index}"), payload("u", "t"), *now, 1_000, capacity);
    }
    assert_eq!(cache.len(), 4);
    write_to_cache(&mut cache, "extra".to_string(), payload("u", "extra"), 50, 1_000, capacity);
    assert_eq!(cache.len(), 4);
    assert!(!cache.contains_key("k1"));
    assert!(cache.contains_key("k0"));
    assert!(cache.contains_key("k2"));
    assert!(cache.contains_key("k3"));
    assert!(cache.contains_key("extra"));
}

#[test]
fn eviction_goes_by_creation_not_by_expiry() {
    let mut cache = PreviewCache::new();
    write_to_cache(&mut cache, "old-long".to_string(), payload("u", "a"), 1, 10_000, 2);
    write_to_cache(&mut cache, "new-short".to_string(), payload("u", "b"), 5, 10, 2);
    write_to_cache(&mut cache, "third".to_string(), payload("u", "c"), 6, 100, 2);
    assert!(!cache.contains_key("old-long"));
    assert!(cache.contains_key("new-short"));
    assert!(cache.contains_key("third"));
}

#[test]
fn entries_expire_at_their_expiry_time() {
    let mut cache = PreviewCache::new();
    write_to_cache(&mut cache, "a".to_string(), payload("u", "a"), 100, 50, 8);
    write_to_cache(&mut cache, "b".to_string(), payload("u", "b"), 120, 50, 8);
    assert_eq!(read_from_cache(&mut cache, "a", 149).and_then(|p| p.title), Some("a".to_string()));
    assert_eq!(cache.len(), 2);
    assert!(read_from_cache(&mut cache, "a", 150).is_none());
    assert_eq!(cache.len(), 1);
    assert!(cache.contains_key("b"));
    assert!(read_from_cache(&mut cache, "missing", 169).is_none());
    assert_eq!(cache.len(), 1);
    assert!(read_from_cache(&mut cache, "missing", 170).is_none());
    assert_eq!(cache.len(), 0);
}

#[test]
fn purge_and_evict() {
    let mut cache = PreviewCache::new();
    evict_oldest_entry(&mut cache);
    assert_eq!(cache.len(), 0);
    write_to_cache(&mut cache, "a".to_string(), payload("u", "a"), 10, 5, 8);
    write_to_cache(&mut cache, "b".to_string(), payload("u", "b"), 11, 50, 8);
    write_to_cache(&mut cache, "c".to_string(), payload("u", "c"), 12, 3, 8);
    write_to_cache(&mut cache, "d".to_string(), payload("u", "d"), 11, 50, 8);
    purge_expired_entries(&mut cache, 15);
    assert_eq!(cache.len(), 2);
    assert!(cache.contains_key("b") && cache.contains_key("d"));
    evict_oldest_entry(&mut cache);
    assert!(!cache.contains_key("b"));
    assert!(cache.contains_key("d"));
    write_to_cache(&mut cache, "late".to_string(), payload("u", "l"), u64::MAX - 1, 10, 8);
    assert!(cache.peek("late", u64::MAX - 1).is_some());
    assert!(cache.peek("late", u64::MAX).is_none());
}

#[test]
fn repeated_request_within_ttl_is_served_from_cache() {
    let mut cache = PreviewCache::new();
    let first = start_preview(&mut cache, "https://a.test", 1_000);
    let url = match first {
        PreviewStart::Miss(url) => url,
        other => panic!("{:?}", other),
    };
    assert_eq!(url.href, "https://a.test/");
    let stored = payload("https://a.test/", "A");
    write_to_cache(&mut cache, url.href.clone(), stored.duplicate(), 1_000, 300, 16);
    for now in [1_000u64, 1_001, 1_299] {
        match start_preview(&mut cache, "https://a.test/", now) {
            PreviewStart::Hit(hit_url, hit) => {
                assert_eq!(hit_url.href, "https://a.test/");
                assert_eq!(format!("{:?}", hit), format!("{:?}", stored));
            }
            other => panic!("{:?}", other),
        }
        assert_eq!(cache.len(), 1);
    }
    assert!(matches!(start_preview(&mut cache, "https://a.test/", 1_300), PreviewStart::Miss(_)));
    match start_preview(&mut cache, "http://127.0.0.1/", 1_000) {
        PreviewStart::Rejected(error, body) => {
            assert_eq!(error.message(), "host address is blocked");
            assert!(!body.ok);
            assert_eq!(body.error.as_deref(), Some("host address is blocked"));
            assert_eq!(body.url, None);
        }
        other => panic!("{:?}", other),
    }
}

#[test]
fn peeking_leaves_the_cache_alone() {
    let mut cache = PreviewCache::new();
    write_to_cache(&mut cache, "https://a.test/".to_string(), payload("https://a.test/", "A"), 10, 5, 8);
    write_to_cache(&mut cache, "https://b.test/".to_string(), payload("https://b.test/", "B"), 11, 50, 8);
    match peek_preview(&cache, "https://b.test", 20) {
        PreviewStart::Hit(url, hit) => {
            assert_eq!(url.href, "https://b.test/");
            assert_eq!(hit.title.as_deref(), Some("B"));
        }
        other => panic!("{:?}", other),
    }
    match peek_preview(&cache, "https://a.test/", 15) {
        PreviewStart::Miss(url) => assert_eq!(url.href, "https://a.test/"),
        other => panic!("{:?}", other),
    }
    assert!(matches!(peek_preview(&cache, "https://a.test/", 14), PreviewStart::Hit(_, _)));
    assert_eq!(cache.len(), 2);
    match peek_preview(&cache, "ftp://a.test/", 14) {
        PreviewStart::Rejected(error, body) => {
            assert_eq!(error.message(), "URL scheme must be http or https");
            assert_eq!(body.error.as_deref(), Some("URL scheme must be http or https"));
        }
        other => panic!("{:?}", other),
    }
    assert!(matches!(start_preview(&mut cache, "https://a.test/", 15), PreviewStart::Miss(_)));
    assert_eq!(cache.len(), 1);
}

#[test]
fn error_payload_holds_only_the_message() {
    let p = PreviewPayload::error("invalid URL");
    assert!(!p.ok);
    assert_eq!(p.error.as_deref(), Some("invalid URL"));
    assert_eq!(p.url, None);
    assert_eq!(p.title, None);
    assert_eq!(p.description, None);
    assert_eq!(p.image, None);
}
