//! The payment-provider boundary: the token cache, the webhook
//! verifier and the JSON field readers, run against real bytes.

use course_engine::token_cache::{
    cache_lookup, ingest_token_response, install_token, CachedToken,
};
use course_engine::flows::handle_webhook_event;
use course_engine::webhook::{
    classify_event, collect_signature_headers, verification_succeeded, verify_and_dispatch,
    WebhookEvent, WebhookRejection,
};

#[test]
fn stale_token_forces_refresh() {
    // A token expiring five seconds from now, under a safety margin of
    // sixty seconds, is never served: the next call must refresh.
    let now = 1_000;
    let cache = Some(CachedToken { access_token: "OLD".to_string(), expires_at: now + 5 });
    assert_eq!(cache_lookup(&cache, now, 60), None);
    // Without the margin it would still have been served.
    assert_eq!(cache_lookup(&cache, now, 0), Some("OLD".to_string()));
}

#[test]
fn fresh_token_is_served_without_refresh() {
    let now = 1_000;
    let cache = Some(CachedToken { access_token: "LIVE".to_string(), expires_at: now + 3_600 });
    assert_eq!(cache_lookup(&cache, now, 60), Some("LIVE".to_string()));
    assert!(CachedToken { access_token: "x".to_string(), expires_at: now + 1 }.is_valid(now));
}

#[test]
fn install_discards_redundant_fetch() {
    let now = 1_000;
    // A competing caller installed a fresh token while ours was in
    // flight: the fetched one is discarded and the winner returned.
    let mut cache = Some(CachedToken { access_token: "WINNER".to_string(), expires_at: now + 500 });
    let fetched = CachedToken { access_token: "LOSER".to_string(), expires_at: now + 900 };
    let served = install_token(&mut cache, fetched, now, 60);
    assert_eq!(served, "WINNER");
    assert_eq!(cache.as_ref().unwrap().access_token, "WINNER");

    // A stale cache loses to the fetched token.
    let mut cache = Some(CachedToken { access_token: "STALE".to_string(), expires_at: now + 5 });
    let fetched = CachedToken { access_token: "NEW".to_string(), expires_at: now + 900 };
    let served = install_token(&mut cache, fetched, now, 60);
    assert_eq!(served, "NEW");
    assert_eq!(cache.as_ref().unwrap().access_token, "NEW");
}

#[test]
fn token_response_is_ingested_with_head_start() {
    let now = 10_000;
    let body = br#"{"access_token":"A-1","expires_in":3600}"#;
    let tok = ingest_token_response(body, now).unwrap();
    assert_eq!(tok.access_token, "A-1");
    assert_eq!(tok.expires_at, now + 3600 - 60);

    // A missing lifetime defaults to an hour.
    let body = br#"{"access_token":"A-2"}"#;
    let tok = ingest_token_response(body, now).unwrap();
    assert_eq!(tok.expires_at, now + 3600 - 60);

    // A response without an access token is a provider failure.
    let body = br#"{"error":"invalid_client"}"#;
    assert_eq!(
        ingest_token_response(body, now).unwrap_err(),
        course_engine::errors::ErrorMessage::ProviderAuthError
    );
}

#[test]
fn signature_headers_must_all_be_present() {
    let h = collect_signature_headers(
        Some("tid".to_string()),
        Some("sig".to_string()),
        Some("time".to_string()),
        Some("cert".to_string()),
        Some("algo".to_string()),
    )
    .unwrap();
    assert_eq!(h.transmission_id, "tid");
    assert_eq!(h.auth_algo, "algo");
    let missing = collect_signature_headers(
        Some("tid".to_string()),
        None,
        Some("time".to_string()),
        Some("cert".to_string()),
        Some("algo".to_string()),
    );
    assert_eq!(missing.unwrap_err(), WebhookRejection::MalformedRequest);
}

#[test]
fn verification_answer_is_read_strictly() {
    assert!(verification_succeeded(br#"{"verification_status":"SUCCESS"}"#));
    assert!(!verification_succeeded(br#"{"verification_status":"FAILURE"}"#));
    assert!(!verification_succeeded(br#"{"something":"SUCCESS"}"#));
    assert!(!verification_succeeded(b"not json at all"));
}

#[test]
fn tampered_signature_is_rejected_before_any_row_is_touched() {
    // A well-formed cancellation event whose signature did not verify
    // is rejected outright; no subscription is read or written.
    let mut store = course_engine::store::Store::new();
    let user = store
        .save_user(
            "S".to_string(),
            "s@example.com".to_string(),
            "pw".to_string(),
            "t".to_string(),
            None,
            None,
            10,
        )
        .unwrap();
    store.activate_subscription(user.id, "SUB-9".to_string(), None, 0, None, 20);
    let before = store.get_user_subscriptions(user.id);

    let body = br#"{"event_type":"BILLING.SUBSCRIPTION.CANCELLED","resource":{"id":"SUB-9"}}"#;
    let verdict = handle_webhook_event(&mut store, false, body, Some("SUB-9"), 30);
    assert_eq!(verdict.unwrap_err(), WebhookRejection::InvalidSignature);

    let after = store.get_user_subscriptions(user.id);
    assert_eq!(before, after);
    assert!(after.iter().any(|s| s.status));
}

#[test]
fn verified_cancellation_deactivates_the_subscription() {
    let mut store = course_engine::store::Store::new();
    let user = store
        .save_user(
            "S".to_string(),
            "s@example.com".to_string(),
            "pw".to_string(),
            "t".to_string(),
            None,
            None,
            10,
        )
        .unwrap();
    store.activate_subscription(user.id, "SUB-9".to_string(), None, 0, None, 20);

    let body = br#"{"event_type":"BILLING.SUBSCRIPTION.CANCELLED","resource":{"id":"SUB-9"}}"#;
    let verdict = handle_webhook_event(&mut store, true, body, Some("SUB-9"), 30);
    assert_eq!(verdict.unwrap(), WebhookEvent::SubscriptionCancelled);
    let subs = store.get_user_subscriptions(user.id);
    assert_eq!(subs.len(), 1);
    assert!(!subs[0].status);
    assert_eq!(subs[0].updated_at, 30);

    // An id no stored subscription carries changes nothing.
    let body2 = br#"{"event_type":"BILLING.SUBSCRIPTION.EXPIRED","resource":{"id":"SUB-0"}}"#;
    handle_webhook_event(&mut store, true, body2, Some("SUB-0"), 40).unwrap();
    assert_eq!(store.get_user_subscriptions(user.id), subs);
}

#[test]
fn verified_activation_makes_the_carrier_the_sole_active_one() {
    let mut store = course_engine::store::Store::new();
    let user = store
        .save_user(
            "S".to_string(),
            "s@example.com".to_string(),
            "pw".to_string(),
            "t".to_string(),
            None,
            None,
            10,
        )
        .unwrap();
    let first = store.activate_subscription(user.id, "SUB-A".to_string(), None, 0, None, 20);
    let second = store.activate_subscription(user.id, "SUB-B".to_string(), None, 0, None, 30);
    // The provider reactivates the first one: it becomes the sole
    // active subscription again.
    store.apply_subscription_event(WebhookEvent::SubscriptionActivated, "SUB-A", 40);
    let subs = store.get_user_subscriptions(user.id);
    let active: Vec<_> = subs.iter().filter(|s| s.status).collect();
    assert_eq!(active.len(), 1);
    assert_eq!(active[0].id, first.id);
    assert!(!subs.iter().find(|s| s.id == second.id).unwrap().status);

    // A capture event leaves the subscription table untouched.
    store.apply_subscription_event(WebhookEvent::CaptureCompleted, "SUB-A", 50);
    assert_eq!(store.get_user_subscriptions(user.id), subs);
}

#[test]
fn verified_events_dispatch_by_type() {
    let body = br#"{"event_type":"BILLING.SUBSCRIPTION.CANCELLED"}"#;
    assert_eq!(
        verify_and_dispatch(true, body).unwrap(),
        WebhookEvent::SubscriptionCancelled
    );
    let body = br#"{"event_type":"PAYMENT.CAPTURE.COMPLETED"}"#;
    assert_eq!(verify_and_dispatch(true, body).unwrap(), WebhookEvent::CaptureCompleted);
    // An unknown type is rejected rather than silently accepted.
    let body = br#"{"event_type":"BILLING.SOMETHING.NEW"}"#;
    assert_eq!(
        verify_and_dispatch(true, body).unwrap_err(),
        WebhookRejection::UnsupportedEventType
    );
    // A body without an event type is an invalid payload.
    let body = br#"{"resource":{}}"#;
    assert_eq!(
        verify_and_dispatch(true, body).unwrap_err(),
        WebhookRejection::InvalidPayload
    );
}

#[test]
fn event_classification_covers_the_catalog() {
    assert_eq!(classify_event("PAYMENT.SALE.COMPLETED"), Some(WebhookEvent::SaleCompleted));
    assert_eq!(
        classify_event("BILLING.SUBSCRIPTION.ACTIVATED"),
        Some(WebhookEvent::SubscriptionActivated)
    );
    assert_eq!(
        classify_event("PAYMENT.AUTHORIZATION.VOIDED"),
        Some(WebhookEvent::AuthorizationVoided)
    );
    assert_eq!(classify_event("CHECKOUT.ORDER.APPROVED"), Some(WebhookEvent::OrderApproved));
    assert_eq!(classify_event("payment.capture.completed"), None);
}

#[test]
fn activating_a_subscription_deactivates_the_previous_one() {
    let mut store = course_engine::store::Store::new();
    let user = store
        .save_user(
            "S".to_string(),
            "s@example.com".to_string(),
            "pw".to_string(),
            "t".to_string(),
            None,
            None,
            10,
        )
        .unwrap();
    let first = store.activate_subscription(user.id, "SUB-1".to_string(), None, 0, None, 20);
    let second = store.activate_subscription(user.id, "SUB-2".to_string(), None, 0, None, 30);
    let subs = store.get_user_subscriptions(user.id);
    assert_eq!(subs.len(), 2);
    let active: Vec<_> = subs.iter().filter(|s| s.status).collect();
    assert_eq!(active.len(), 1);
    assert_eq!(active[0].id, second.id);
    assert!(!subs.iter().find(|s| s.id == first.id).unwrap().status);
}
