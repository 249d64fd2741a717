use sniff::channel::Channel;
use sniff::engine::{
    download_query, fallback_query, multi_channel_query, DownloadQuery, QueryAction,
};
use sniff::errors::{ChannelError, CoreError};
use sniff::model::{
    AppDetails, DocumentDetails, DownloadBundle, Item, SerializableDetailsResponse,
};
use sniff::session::{
    AuthEvent, DeliveryEvent, DetailsEvent, SessionRegistry, UpstreamEvent,
};

fn doc(title: &str, version_code: Option<i32>) -> SerializableDetailsResponse {
    SerializableDetailsResponse {
        item: Some(Item {
            id: Some("com.example.app".to_string()),
            sub_id: None,
            item_type: Some(1),
            category_id: None,
            title: Some(title.to_string()),
            creator: Some("Example Inc.".to_string()),
            description_html: None,
            promotional_description: None,
            mature: Some(false),
            available_for_preregistration: None,
            force_shareability: None,
            offer: Vec::new(),
            details: Some(DocumentDetails {
                app_details: Some(AppDetails {
                    developer_name: Some("Example Inc.".to_string()),
                    version_code,
                    version_string: Some("289.20 - Stable".to_string()),
                    info_download_size: Some(1024),
                    developer_email: None,
                    developer_website: None,
                    info_download: None,
                    package_name: Some("com.example.app".to_string()),
                    recent_changes_html: None,
                    info_updated_on: None,
                    target_sdk_version: Some(35),
                }),
            }),
            app_info: None,
        }),
        footer_html: None,
        enable_reviews: Some(true),
    }
}

fn bundle(main: &str) -> DownloadBundle {
    DownloadBundle {
        main_apk_url: Some(main.to_string()),
        splits: vec![("config.arm64_v8a".to_string(), "https://example.test/s1".to_string())],
        additional_files: Vec::new(),
    }
}

fn seeded_registry() -> SessionRegistry {
    let mut reg = SessionRegistry::new();
    reg.store_token(Channel::Stable, "tok-stable".to_string());
    reg.store_token(Channel::Beta, "tok-beta".to_string());
    reg.store_token(Channel::Alpha, "tok-alpha".to_string());
    reg
}

#[test]
fn fallback_returns_beta_when_stable_absent() {
    // package present only in Beta and Alpha; requesting Stable yields Beta
    let mut reg = seeded_registry();
    let script = vec![
        UpstreamEvent::Details(DetailsEvent::NotFound),
        UpstreamEvent::Details(DetailsEvent::Found(doc("Beta App", Some(2)))),
    ];
    let r = fallback_query("com.example.app".to_string(), Channel::Stable, &mut reg, script)
        .expect("script covers the run");
    let (channel, d) = r.expect("no hard error").expect("found");
    assert_eq!(channel, Channel::Beta);
    assert_eq!(d, doc("Beta App", Some(2)));
    // Alpha was never asked: its presence never mattered
}

#[test]
fn fallback_not_found_after_all_absent() {
    let mut reg = seeded_registry();
    let script = vec![
        UpstreamEvent::Details(DetailsEvent::NotFound),
        UpstreamEvent::Details(DetailsEvent::NotFound),
        UpstreamEvent::Details(DetailsEvent::NotFound),
    ];
    let r = fallback_query("com.example.app".to_string(), Channel::Beta, &mut reg, script)
        .expect("script covers the run");
    assert!(matches!(r, Ok(None)));
}

#[test]
fn fallback_fails_fast_on_hard_error() {
    // Stable hard-errors while Beta would have succeeded: the error wins
    let mut reg = seeded_registry();
    let script = vec![
        UpstreamEvent::Details(DetailsEvent::TransportFailure),
        UpstreamEvent::Details(DetailsEvent::Found(doc("Beta App", Some(2)))),
    ];
    let r = fallback_query("com.example.app".to_string(), Channel::Stable, &mut reg, script)
        .expect("script covers the run");
    assert_eq!(r.unwrap_err(), CoreError::Session(ChannelError::TransportError));
}

#[test]
fn multi_channel_partial_success() {
    // Stable succeeds, Beta absent, Alpha hard-errors: Ok with Stable alone
    let mut reg = seeded_registry();
    let script = vec![
        UpstreamEvent::Details(DetailsEvent::Found(doc("Stable App", Some(1)))),
        UpstreamEvent::Details(DetailsEvent::NotFound),
        UpstreamEvent::Details(DetailsEvent::TransportFailure),
    ];
    let r = multi_channel_query("com.example.app".to_string(), &mut reg, script)
        .expect("script covers the run");
    let found = r.expect("at least one channel answered");
    assert_eq!(found, vec![(Channel::Stable, doc("Stable App", Some(1)))]);
}

#[test]
fn multi_channel_empty_map_is_success() {
    let mut reg = seeded_registry();
    let script = vec![
        UpstreamEvent::Details(DetailsEvent::NotFound),
        UpstreamEvent::Details(DetailsEvent::NotFound),
        UpstreamEvent::Details(DetailsEvent::NotFound),
    ];
    let r = multi_channel_query("com.example.app".to_string(), &mut reg, script)
        .expect("script covers the run");
    assert_eq!(r.expect("absence is not an error"), Vec::new());
}

#[test]
fn multi_channel_all_failed_reports_last_error() {
    let mut reg = seeded_registry();
    let script = vec![
        UpstreamEvent::Details(DetailsEvent::TransportFailure),
        UpstreamEvent::Details(DetailsEvent::TransportFailure),
        UpstreamEvent::Details(DetailsEvent::Malformed),
    ];
    let r = multi_channel_query("com.example.app".to_string(), &mut reg, script)
        .expect("script covers the run");
    assert_eq!(
        r.unwrap_err(),
        CoreError::AllChannelsFailed(ChannelError::MalformedResponse)
    );
}

#[test]
fn download_is_channel_isolated() {
    // requesting beta: the result is tagged beta, and an absent beta is
    // final even though stable would have the same version
    let mut reg = seeded_registry();
    let script = vec![
        UpstreamEvent::Details(DetailsEvent::Found(doc("App", Some(42)))),
        UpstreamEvent::Delivery(DeliveryEvent::Granted(bundle("https://example.test/main"))),
    ];
    let r = download_query(
        "com.example.app".to_string(),
        Channel::Beta,
        Some(42),
        &mut reg,
        script,
    )
    .expect("script covers the run");
    let (channel, b) = r.expect("no hard error").expect("granted");
    assert_eq!(channel, Channel::Beta);
    assert_eq!(b, bundle("https://example.test/main"));

    // absent on beta: no fallback to stable
    let mut reg = seeded_registry();
    let script = vec![UpstreamEvent::Details(DetailsEvent::NotFound)];
    let r = download_query(
        "com.example.app".to_string(),
        Channel::Beta,
        Some(42),
        &mut reg,
        script,
    )
    .expect("script covers the run");
    assert!(matches!(r, Ok(None)));
}

#[test]
fn repeated_queries_return_identical_results() {
    // unchanged upstream: the same script answers both runs identically
    let mut reg = seeded_registry();
    let script1 = vec![UpstreamEvent::Details(DetailsEvent::Found(doc("App", Some(7))))];
    let script2 = vec![UpstreamEvent::Details(DetailsEvent::Found(doc("App", Some(7))))];
    let r1 = fallback_query("com.example.app".to_string(), Channel::Alpha, &mut reg, script1)
        .expect("script covers the run");
    let r2 = fallback_query("com.example.app".to_string(), Channel::Alpha, &mut reg, script2)
        .expect("script covers the run");
    assert_eq!(r1, r2);
}

#[test]
fn session_is_reused_across_sequential_calls() {
    // both runs complete on fetch outcomes alone: no authentication
    // exchange happens, and the cached token survives unchanged
    let mut reg = SessionRegistry::new();
    reg.store_token(Channel::Stable, "tok-first".to_string());
    let script1 = vec![UpstreamEvent::Details(DetailsEvent::Found(doc("App", Some(7))))];
    let r1 = fallback_query("com.example.app".to_string(), Channel::Stable, &mut reg, script1)
        .expect("script covers the run");
    assert!(r1.is_ok());
    assert_eq!(reg.token_for(Channel::Stable), Some("tok-first".to_string()));
    let script2 = vec![UpstreamEvent::Details(DetailsEvent::NotFound)];
    // a single fetch outcome satisfies the second run's first channel too
    let r2 = fallback_query("com.example.app".to_string(), Channel::Stable, &mut reg, script2);
    // the run is not complete (it moves on to beta, which needs events),
    // but no authentication exchange was asked for stable
    assert!(r2.is_none());
    assert_eq!(reg.token_for(Channel::Stable), Some("tok-first".to_string()));
}

#[test]
fn cold_registry_authenticates_then_caches() {
    let mut reg = SessionRegistry::new();
    assert_eq!(reg.token_for(Channel::Stable), None);
    let script = vec![
        UpstreamEvent::Auth(AuthEvent::Granted("fresh-token".to_string())),
        UpstreamEvent::Details(DetailsEvent::Found(doc("App", Some(7)))),
    ];
    let r = fallback_query("com.example.app".to_string(), Channel::Stable, &mut reg, script)
        .expect("script covers the run");
    assert!(r.is_ok());
    assert_eq!(reg.token_for(Channel::Stable), Some("fresh-token".to_string()));
}

#[test]
fn rejected_fetch_reauthenticates_once_and_succeeds() {
    let mut reg = SessionRegistry::new();
    reg.store_token(Channel::Stable, "stale".to_string());
    let script = vec![
        UpstreamEvent::Details(DetailsEvent::AuthRejected),
        UpstreamEvent::Auth(AuthEvent::Granted("renewed".to_string())),
        UpstreamEvent::Details(DetailsEvent::Found(doc("App", Some(7)))),
    ];
    let r = fallback_query("com.example.app".to_string(), Channel::Stable, &mut reg, script)
        .expect("script covers the run");
    let (channel, _) = r.expect("no hard error").expect("found");
    assert_eq!(channel, Channel::Stable);
    assert_eq!(reg.token_for(Channel::Stable), Some("renewed".to_string()));
}

#[test]
fn second_rejection_surfaces_authentication_failed_and_evicts() {
    let mut reg = SessionRegistry::new();
    reg.store_token(Channel::Stable, "stale".to_string());
    let script = vec![
        UpstreamEvent::Details(DetailsEvent::AuthRejected),
        UpstreamEvent::Auth(AuthEvent::Rejected),
    ];
    let r = fallback_query("com.example.app".to_string(), Channel::Stable, &mut reg, script)
        .expect("script covers the run");
    assert_eq!(r.unwrap_err(), CoreError::Session(ChannelError::AuthenticationFailed));
    assert_eq!(reg.token_for(Channel::Stable), None);

    // rejected retried fetch after a granted re-authentication fails too
    let mut reg = SessionRegistry::new();
    reg.store_token(Channel::Beta, "stale".to_string());
    let script = vec![
        UpstreamEvent::Details(DetailsEvent::AuthRejected),
        UpstreamEvent::Auth(AuthEvent::Granted("renewed".to_string())),
        UpstreamEvent::Details(DetailsEvent::AuthRejected),
    ];
    let r = fallback_query("com.example.app".to_string(), Channel::Beta, &mut reg, script)
        .expect("script covers the run");
    assert_eq!(r.unwrap_err(), CoreError::Session(ChannelError::AuthenticationFailed));
    assert_eq!(reg.token_for(Channel::Beta), None);
}

#[test]
fn download_without_version_resolves_latest() {
    // the delivery fetch is issued for the version the details carry
    let mut reg = seeded_registry();
    let m = DownloadQuery::start(
        "com.example.app".to_string(),
        Channel::Stable,
        None,
        &reg,
    );
    let m = m.on_event(
        &mut reg,
        UpstreamEvent::Details(DetailsEvent::Found(doc("App", Some(289020)))),
    );
    match m.next_action() {
        QueryAction::FetchDelivery { channel, version_code, .. } => {
            assert_eq!(channel, Channel::Stable);
            assert_eq!(version_code, 289020);
        },
        _ => panic!("expected a delivery fetch"),
    }
    let m = m.on_event(
        &mut reg,
        UpstreamEvent::Delivery(DeliveryEvent::Granted(bundle("https://example.test/m"))),
    );
    assert!(m.finished());
    let r = m.into_result();
    let (channel, b) = r.expect("no hard error").expect("granted");
    assert_eq!(channel, Channel::Stable);
    assert_eq!(b.main_apk_url, Some("https://example.test/m".to_string()));
}

#[test]
fn download_without_any_version_fails_no_version_available() {
    let mut reg = seeded_registry();
    let script = vec![UpstreamEvent::Details(DetailsEvent::Found(doc("App", None)))];
    let r = download_query(
        "com.example.app".to_string(),
        Channel::Stable,
        None,
        &mut reg,
        script,
    )
    .expect("script covers the run");
    assert_eq!(r.unwrap_err(), CoreError::NoVersionAvailable);
}

#[test]
fn delivery_denial_is_absence_not_error() {
    let mut reg = seeded_registry();
    let script = vec![
        UpstreamEvent::Details(DetailsEvent::Found(doc("App", Some(5)))),
        UpstreamEvent::Delivery(DeliveryEvent::NotAvailable),
    ];
    let r = download_query(
        "com.example.app".to_string(),
        Channel::Alpha,
        None,
        &mut reg,
        script,
    )
    .expect("script covers the run");
    assert!(matches!(r, Ok(None)));
}

#[test]
fn malformed_envelope_is_a_hard_error() {
    let mut reg = seeded_registry();
    let script = vec![UpstreamEvent::Details(DetailsEvent::Malformed)];
    let r = fallback_query("com.example.app".to_string(), Channel::Alpha, &mut reg, script)
        .expect("script covers the run");
    assert_eq!(r.unwrap_err(), CoreError::Session(ChannelError::MalformedResponse));
}

#[test]
fn registry_store_and_evict() {
    let mut reg = SessionRegistry::new();
    assert_eq!(reg.token_for(Channel::Beta), None);
    reg.store_token(Channel::Beta, "one".to_string());
    assert_eq!(reg.token_for(Channel::Beta), Some("one".to_string()));
    assert_eq!(reg.token_for(Channel::Stable), None);
    reg.store_token(Channel::Beta, "two".to_string());
    assert_eq!(reg.token_for(Channel::Beta), Some("two".to_string()));
    reg.evict(Channel::Beta);
    assert_eq!(reg.token_for(Channel::Beta), None);
}

#[test]
fn multi_channel_survives_one_channel_auth_failure() {
    // beta's authentication is rejected twice: that channel fails, the
    // query still reports the other channels' outcomes
    let mut reg = SessionRegistry::new();
    reg.store_token(Channel::Stable, "ts".to_string());
    reg.store_token(Channel::Alpha, "ta".to_string());
    let script = vec![
        UpstreamEvent::Details(DetailsEvent::Found(doc("Stable App", Some(1)))),
        UpstreamEvent::Auth(AuthEvent::Rejected),
        UpstreamEvent::Auth(AuthEvent::Rejected),
        UpstreamEvent::Details(DetailsEvent::NotFound),
    ];
    let r = multi_channel_query("com.example.app".to_string(), &mut reg, script)
        .expect("script covers the run");
    assert_eq!(
        r.expect("two channels answered"),
        vec![(Channel::Stable, doc("Stable App", Some(1)))]
    );
    assert_eq!(reg.token_for(Channel::Beta), None);
}

#[test]
fn fallback_authenticates_next_channel_when_needed() {
    // only stable has a cached session; the fallback to beta triggers
    // beta's first authentication exchange
    let mut reg = SessionRegistry::new();
    reg.store_token(Channel::Stable, "ts".to_string());
    let script = vec![
        UpstreamEvent::Details(DetailsEvent::NotFound),
        UpstreamEvent::Auth(AuthEvent::Granted("tb".to_string())),
        UpstreamEvent::Details(DetailsEvent::Found(doc("Beta App", Some(2)))),
    ];
    let r = fallback_query("com.example.app".to_string(), Channel::Stable, &mut reg, script)
        .expect("script covers the run");
    let (channel, _) = r.expect("no hard error").expect("found");
    assert_eq!(channel, Channel::Beta);
    assert_eq!(reg.token_for(Channel::Beta), Some("tb".to_string()));
}

#[test]
fn out_of_turn_script_is_rejected() {
    let mut reg = seeded_registry();
    // a delivery outcome answers nothing a fallback query ever asks
    let script = vec![UpstreamEvent::Delivery(DeliveryEvent::NotAvailable)];
    let r = fallback_query("com.example.app".to_string(), Channel::Stable, &mut reg, script);
    assert!(r.is_none());
}
