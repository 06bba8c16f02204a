//! Signature resolution tests: engine-sourced results, fallback service,
//! expiry, and resolution during shutdown.

use xhs_rs::cache::FallbackCache;
use xhs_rs::errors::SigningError;
use xhs_rs::headers::{SignatureHeaders, SignatureSource};
use xhs_rs::request::{HttpMethod, SignatureRequest};
use xhs_rs::service::{plan_sign, resolve_sign, EngineOutcome};
use xhs_rs::supervisor::{LifecycleState, RestartPolicy, Supervisor};

fn headers(tag: &str) -> SignatureHeaders {
    SignatureHeaders {
        x_s: format!("sig-{tag}"),
        x_t: format!("ts-{tag}"),
        x_s_common: format!("common-{tag}"),
    }
}

fn feed_request(id: u64) -> SignatureRequest {
    SignatureRequest {
        id,
        method: HttpMethod::Post,
        path: "/api/sns/web/v1/feed".to_string(),
        payload: "{\"source_note_id\":\"abc\"}".to_string(),
    }
}

#[test]
fn healthy_engine_result_is_tagged_engine_and_complete() {
    let mut cache = FallbackCache::new(30_000);
    let fp = feed_request(1).fingerprint();
    let r = resolve_sign(
        &mut cache,
        LifecycleState::Healthy,
        fp,
        Some(EngineOutcome::Responded { headers: headers("a") }),
        1_000,
        60_000,
    )
    .expect("healthy engine must sign");
    assert_eq!(r.source, SignatureSource::Engine);
    assert_eq!(r.headers.x_s, "sig-a");
    assert_eq!(r.headers.x_t, "ts-a");
    assert_eq!(r.headers.x_s_common, "common-a");
    assert_eq!(r.issued_at_ms, 1_000);
}

#[test]
fn degraded_with_fresh_entry_serves_fallback() {
    let mut cache = FallbackCache::new(30_000);
    let fp = feed_request(2).fingerprint();
    resolve_sign(
        &mut cache,
        LifecycleState::Healthy,
        fp,
        Some(EngineOutcome::Responded { headers: headers("b") }),
        1_000,
        60_000,
    )
    .unwrap();

    let r = resolve_sign(&mut cache, LifecycleState::Degraded, fp, None, 20_000, 60_000)
        .expect("fresh fallback entry must be served");
    assert_eq!(r.source, SignatureSource::Fallback);
    assert_eq!(r.headers.x_s, "sig-b");
    assert_eq!(r.headers.x_t, "ts-b");
    assert_eq!(r.headers.x_s_common, "common-b");
}

#[test]
fn degraded_without_entry_fails_unavailable() {
    let mut cache = FallbackCache::new(30_000);
    let fp = feed_request(3).fingerprint();
    let r = resolve_sign(&mut cache, LifecycleState::Degraded, fp, None, 1_000, 60_000);
    assert!(matches!(r, Err(SigningError::Unavailable)));
}

#[test]
fn engine_timeout_falls_back_then_unavailable_when_empty() {
    let mut cache = FallbackCache::new(30_000);
    let fp = feed_request(4).fingerprint();
    let r = resolve_sign(
        &mut cache,
        LifecycleState::Healthy,
        fp,
        Some(EngineOutcome::TimedOut),
        1_000,
        60_000,
    );
    assert!(matches!(r, Err(SigningError::Unavailable)));
}

#[test]
fn identical_fingerprint_served_until_ttl_then_unavailable() {
    // scenario: engine signs the feed call, the engine is killed, the
    // same call is served from fallback until the entry expires
    let mut cache = FallbackCache::new(30_000);
    let fp = feed_request(5).fingerprint();
    let fp_again = feed_request(6).fingerprint();
    assert_eq!(fp, fp_again, "same path and payload must fingerprint alike");

    let first = resolve_sign(
        &mut cache,
        LifecycleState::Healthy,
        fp,
        Some(EngineOutcome::Responded { headers: headers("c") }),
        1_000,
        60_000,
    )
    .unwrap();
    assert_eq!(first.source, SignatureSource::Engine);

    let fallback = resolve_sign(&mut cache, LifecycleState::Degraded, fp, None, 30_999, 60_000)
        .expect("still fresh one tick before expiry");
    assert_eq!(fallback.source, SignatureSource::Fallback);
    assert_eq!(fallback.headers.x_s, first.headers.x_s);
    assert_eq!(fallback.headers.x_t, first.headers.x_t);
    assert_eq!(fallback.headers.x_s_common, first.headers.x_s_common);

    let expired = resolve_sign(&mut cache, LifecycleState::Degraded, fp, None, 31_000, 60_000);
    assert!(matches!(expired, Err(SigningError::Unavailable)));
}

#[test]
fn refresh_replaces_the_entry_and_keeps_other_keys() {
    let mut cache = FallbackCache::new(30_000);
    let fp_feed = feed_request(7).fingerprint();
    let other = SignatureRequest {
        id: 8,
        method: HttpMethod::Get,
        path: "/api/sns/web/v1/search/trending".to_string(),
        payload: String::new(),
    };
    let fp_other = other.fingerprint();
    assert_ne!(fp_feed, fp_other);

    cache.insert(fp_feed, headers("old"), 1_000);
    cache.insert(fp_other, headers("other"), 1_000);
    cache.insert(fp_feed, headers("new"), 2_000);

    let feed_hit = cache.get_fresh(fp_feed, 3_000).expect("refreshed entry");
    assert_eq!(feed_hit.x_s, "sig-new");
    let other_hit = cache.get_fresh(fp_other, 3_000).expect("untouched entry");
    assert_eq!(other_hit.x_s, "sig-other");
}

#[test]
fn plan_queries_engine_exactly_when_healthy() {
    assert!(plan_sign(LifecycleState::Healthy));
    assert!(!plan_sign(LifecycleState::Starting));
    assert!(!plan_sign(LifecycleState::Degraded));
    assert!(!plan_sign(LifecycleState::Stopping));
    assert!(!plan_sign(LifecycleState::Stopped));
}

#[test]
fn interrupt_resolves_in_flight_calls_and_terminates_engine() {
    // scenario: two signing calls are in flight when the interrupt
    // arrives; both resolve, and the engine process is confirmed gone
    let mut s = Supervisor::new(RestartPolicy {
        base_delay_ms: 100,
        max_delay_ms: 1000,
        max_attempts: 3,
    });
    s.start();
    s.on_spawned(77);
    s.on_probe_ok();

    let mut cache = FallbackCache::new(30_000);
    let fp_a = feed_request(10).fingerprint();
    let fp_b = SignatureRequest {
        id: 11,
        method: HttpMethod::Get,
        path: "/api/sns/web/v1/user/me".to_string(),
        payload: String::new(),
    }
    .fingerprint();
    cache.insert(fp_a, headers("inflight"), 9_000);

    // interrupt: stop begins, the engine handle goes out for termination
    let released = s.begin_stop();
    assert_eq!(released, Some(77));

    // both in-flight calls now resolve without the engine
    let a = resolve_sign(&mut cache, s.state, fp_a, None, 10_000, 60_000);
    let b = resolve_sign(&mut cache, s.state, fp_b, None, 10_000, 60_000);
    assert!(matches!(
        a.as_ref().map(|r| r.source),
        Ok(SignatureSource::Fallback)
    ));
    assert!(matches!(b, Err(SigningError::Unavailable)));

    s.finish_stop();
    assert_eq!(s.state, LifecycleState::Stopped);
    assert_eq!(s.process, None, "no engine process is left");
}
