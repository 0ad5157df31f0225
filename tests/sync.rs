use base64::Engine;
use lifespan_desktop::{
    bearer, clamp_timestamp, sync_url, wire_event, CryptoManager, EncryptedData, RetryState, RetryStep,
    SendOutcome, ServerConfig, StoredEvent, SyncClient, SyncCompletion, SyncConfig, SyncError, MAX_ATTEMPTS,
};

fn config() -> ServerConfig {
    ServerConfig {
        server_url: "https://api.example.com".to_string(),
        jwt_token: "test_token".to_string(),
        device_id: "device-1".to_string(),
    }
}

fn stored(i: i64, title: Option<&str>) -> StoredEvent {
    StoredEvent {
        id: format!("id-{}", i),
        event_type: "app_usage".to_string(),
        timestamp: 1_700_000_000_000 + i,
        duration: 0,
        app_name: format!("app{}.exe", i),
        window_title: title.map(|t| t.to_string()),
    }
}

fn ready_client() -> SyncClient {
    let mut client = SyncClient::new();
    client.set_crypto_key([7u8; 32]).unwrap();
    client.set_config(config());
    client
}

fn send_result(outcome: SendOutcome) -> Result<(), SyncError> {
    lifespan_desktop::send_result(outcome)
}

fn response(status: u16, body: &str) -> SendOutcome {
    SendOutcome::Response { status, body: body.to_string() }
}

#[test]
fn test_app_categorization() {
    let client = SyncClient::new();
    assert_eq!(client.categorize_app("chrome.exe"), Some("work".to_string()));
    assert_eq!(client.categorize_app("code.exe"), Some("development".to_string()));
    assert_eq!(client.categorize_app("slack.exe"), Some("communication".to_string()));
    assert_eq!(client.categorize_app("spotify.exe"), Some("entertainment".to_string()));
    assert_eq!(client.categorize_app("word.exe"), Some("productivity".to_string()));
    assert_eq!(client.categorize_app("steam.exe"), Some("gaming".to_string()));
    assert_eq!(client.categorize_app("unknown.exe"), Some("other".to_string()));
}

#[test]
fn test_sync_error_display() {
    let err = SyncError::Network("Connection timeout".to_string());
    assert_eq!(err.to_string(), "Network error: Connection timeout");
    let err = SyncError::Auth("Invalid token".to_string());
    assert_eq!(err.to_string(), "Authentication failed: Invalid token");
    let err = SyncError::Server("Internal error".to_string());
    assert_eq!(err.to_string(), "Server error: Internal error");
}

#[test]
fn categorization_ignores_case_and_follows_table_order() {
    let client = SyncClient::new();
    assert_eq!(client.categorize_app("CHROME.EXE"), Some("work".to_string()));
    assert_eq!(client.categorize_app("Microsoft Teams"), Some("communication".to_string()));
    assert_eq!(client.categorize_app("VLC"), Some("entertainment".to_string()));
    assert_eq!(client.categorize_app("Visual Studio"), Some("development".to_string()));
    assert_eq!(client.categorize_app("msedge.exe"), Some("work".to_string()));
    assert_eq!(client.categorize_app(""), Some("other".to_string()));
    assert_eq!(lifespan_desktop::category_of_lowercase("game center"), "gaming");
    assert_eq!(lifespan_desktop::category_of_lowercase("GAME CENTER"), "other");
}

#[test]
fn other_error_texts() {
    assert_eq!(SyncError::Encryption("x".to_string()).to_string(), "Encryption error: x");
    assert_eq!(SyncError::Database("y".to_string()).to_string(), "Database error: y");
    assert_eq!(SyncError::Unknown("z".to_string()).to_string(), "Unknown error: z");
}

#[test]
fn responses_are_classified_by_status() {
    assert!(send_result(response(200, "{}")).is_ok());
    assert!(send_result(response(204, "")).is_ok());
    match send_result(response(401, "bad token")) {
        Err(SyncError::Auth(m)) => assert_eq!(m, "Authentication failed: bad token"),
        other => panic!("unexpected {:?}", other),
    }
    assert!(matches!(send_result(response(403, "")), Err(SyncError::Auth(_))));
    match send_result(response(503, "down")) {
        Err(SyncError::Server(m)) => assert_eq!(m, "Server error: down"),
        other => panic!("unexpected {:?}", other),
    }
    match send_result(response(404, "missing")) {
        Err(SyncError::Unknown(m)) => assert_eq!(m, "HTTP 404: missing"),
        other => panic!("unexpected {:?}", other),
    }
    match send_result(SendOutcome::Transport("timed out".to_string())) {
        Err(SyncError::Network(m)) => assert_eq!(m, "Failed to connect: timed out"),
        other => panic!("unexpected {:?}", other),
    }
    match send_result(SendOutcome::Unreadable("eof".to_string())) {
        Err(SyncError::Unknown(m)) => assert_eq!(m, "Failed to parse response: eof"),
        other => panic!("unexpected {:?}", other),
    }
}

#[test]
fn three_server_errors_make_three_attempts_with_doubling_waits() {
    let mut retry = RetryState::new(MAX_ATTEMPTS);
    let mut waits = Vec::new();
    let outcome = loop {
        match retry.after_attempt(send_result(response(500, "boom"))) {
            RetryStep::Wait(ms) => waits.push(ms),
            RetryStep::Finished(r) => break r,
        }
    };
    assert_eq!(retry.attempt, 3);
    assert_eq!(waits, vec![1000, 2000]);
    assert!(matches!(outcome, Err(SyncError::Server(_))));
}

#[test]
fn auth_failure_is_not_retried() {
    let mut client = ready_client();
    let batch = vec![stored(1, Some("t"))];
    assert!(client.begin_sync().is_ok());
    let mut retry = RetryState::new(MAX_ATTEMPTS);
    let step = retry.after_attempt(send_result(response(401, "expired")));
    assert_eq!(retry.attempt, 1);
    let result = match step {
        RetryStep::Finished(r) => r,
        RetryStep::Wait(_) => panic!("auth failure must not be retried"),
    };
    assert!(matches!(result, Err(SyncError::Auth(_))));
    match client.finish_sync(&batch, &result) {
        SyncCompletion::RecordError(text) => assert!(text.contains("Authentication failed")),
        SyncCompletion::MarkSynced(_) => panic!("failure must be recorded"),
    }
    let status = client.get_status(None, 1, Some("Authentication failed: x".to_string()));
    assert!(!status.is_syncing);
    assert_eq!(status.last_error.as_deref(), Some("Authentication failed: x"));
}

#[test]
fn network_failure_then_success() {
    let mut retry = RetryState::new(MAX_ATTEMPTS);
    let first = retry.after_attempt(send_result(SendOutcome::Transport("reset".to_string())));
    assert!(matches!(first, RetryStep::Wait(1000)));
    let second = retry.after_attempt(send_result(response(200, "{}")));
    assert!(matches!(second, RetryStep::Finished(Ok(()))));
    assert_eq!(retry.attempt, 2);
}

#[test]
fn other_failures_are_not_retried() {
    let mut retry = RetryState::new(MAX_ATTEMPTS);
    let step = retry.after_attempt(Err(SyncError::Encryption("no key".to_string())));
    assert!(matches!(step, RetryStep::Finished(Err(SyncError::Encryption(_)))));
    let mut retry = RetryState::new(MAX_ATTEMPTS);
    let step = retry.after_attempt(send_result(response(418, "teapot")));
    assert!(matches!(step, RetryStep::Finished(Err(SyncError::Unknown(_)))));
}

#[test]
fn backoff_saturates() {
    let mut retry = RetryState { attempt: 0, max_attempts: 5, delay_millis: u64::MAX - 1 };
    assert!(matches!(retry.after_attempt(Err(SyncError::Server(String::new()))), RetryStep::Wait(_)));
    assert_eq!(retry.delay_millis, u64::MAX);
}

#[test]
fn sync_in_progress_is_refused() {
    let mut client = ready_client();
    assert!(client.begin_sync().is_ok());
    match client.begin_sync() {
        Err(SyncError::Unknown(m)) => assert_eq!(m, "Sync already in progress"),
        other => panic!("unexpected {:?}", other),
    }
    assert!(client.get_status(None, 0, None).is_syncing);
    client.end_sync();
    assert!(client.begin_sync().is_ok());
}

#[test]
fn sync_without_configuration_is_refused() {
    let mut client = SyncClient::new();
    client.begin_sync().unwrap();
    match client.resolve_config(None) {
        Err(SyncError::Unknown(m)) => assert_eq!(m, "Server not configured"),
        other => panic!("unexpected {:?}", other),
    }
    assert!(!client.get_status(None, 0, None).is_syncing);
    let mut other = config();
    other.device_id = "from-store".to_string();
    client.begin_sync().unwrap();
    let chosen = client.resolve_config(Some(other)).unwrap();
    assert!(client.get_status(None, 0, None).is_syncing);
    assert_eq!(chosen.device_id, "from-store");
}

#[test]
fn stored_configuration_wins_over_cached() {
    let client = ready_client();
    assert_eq!(client.get_config(None).unwrap().device_id, "device-1");
    let mut stored_config = config();
    stored_config.device_id = "stored".to_string();
    assert_eq!(client.get_config(Some(stored_config)).unwrap().device_id, "stored");
    assert!(SyncClient::new().get_config(None).is_none());
}

#[test]
fn end_to_end_ten_events_are_marked_synced() {
    let mut client = ready_client();
    let events: Vec<StoredEvent> = (0..10).map(|i| stored(i, Some("window"))).collect();
    client.begin_sync().unwrap();
    let config = client.resolve_config(None).unwrap();
    let batch = client.plan_batch(events).unwrap();
    assert_eq!(batch.len(), 10);
    let request = client.build_request(&config, &batch).unwrap();
    assert_eq!(request.device_id, "device-1");
    assert_eq!(request.events.len(), 10);
    for (w, e) in request.events.iter().zip(batch.iter()) {
        assert_eq!(w.id, e.id);
        assert_eq!(w.timestamp, e.timestamp);
        assert_eq!(w.nonce.len(), 24);
        assert_eq!(w.tag.len(), 24);
        assert!(w.tag.ends_with("=="));
        assert_eq!(w.category.as_deref(), Some("other"));
    }
    let mut retry = RetryState::new(MAX_ATTEMPTS);
    let result = match retry.after_attempt(send_result(response(200, "{}"))) {
        RetryStep::Finished(r) => r,
        RetryStep::Wait(_) => panic!("success must finish"),
    };
    assert!(result.is_ok());
    match client.finish_sync(&batch, &result) {
        SyncCompletion::MarkSynced(ids) => {
            let expected: Vec<String> = (0..10).map(|i| format!("id-{}", i)).collect();
            assert_eq!(ids, expected);
        },
        SyncCompletion::RecordError(t) => panic!("unexpected error {}", t),
    }
    let status = client.get_status(Some("2024-01-01T00:00:00+00:00".to_string()), 0, Some(String::new()));
    assert_eq!(status.pending_events, 0);
    assert!(status.last_error.is_none());
    assert!(!status.is_syncing);
}

#[test]
fn batches_hold_at_most_one_hundred_oldest_events() {
    let events: Vec<StoredEvent> = (0..150).map(|i| stored(i, None)).collect();
    let batch = SyncClient::select_batch(events);
    assert_eq!(batch.len(), 100);
    assert_eq!(batch[0].id, "id-0");
    assert_eq!(batch[99].id, "id-99");
    assert!(SyncClient::select_batch(Vec::new()).is_empty());
}

#[test]
fn building_without_key_fails() {
    let client = SyncClient::new();
    match client.build_sync_events(&vec![stored(1, None)]) {
        Err(SyncError::Encryption(m)) => assert_eq!(m, "Crypto manager not initialized"),
        other => panic!("unexpected {:?}", other.map(|v| v.len())),
    }
}

#[test]
fn wire_payload_decrypts_to_title_or_app_name() {
    let key = [9u8; 32];
    let mut client = SyncClient::new();
    client.set_crypto_key(key).unwrap();
    let crypto = CryptoManager::new(&key).unwrap();
    let events = vec![stored(1, Some("Título 🌍")), stored(2, None)];
    let wire = client.build_sync_events(&events).unwrap();
    for (w, expected) in wire.iter().zip(["Título 🌍".as_bytes(), "app2.exe".as_bytes()]) {
        let mut ciphertext = base64::engine::general_purpose::STANDARD.decode(&w.encrypted_data).unwrap();
        ciphertext.extend(base64::engine::general_purpose::STANDARD.decode(&w.tag).unwrap());
        let nonce = hex::decode(&w.nonce).unwrap();
        let plain = crypto.decrypt(&EncryptedData { ciphertext, nonce }).unwrap();
        assert_eq!(plain, expected.to_vec());
    }
}

#[test]
fn wire_event_splits_tag_and_encodes_parts() {
    let e = stored(3, Some("t"));
    let d = EncryptedData { ciphertext: (0u8..20).collect(), nonce: (0u8..12).collect() };
    let w = wire_event(&e, &d, 1_700_000_000_003).unwrap();
    assert_eq!(w.encrypted_data, "AAECAw==");
    assert_eq!(w.tag, "BAUGBwgJCgsMDQ4PEBESEw==");
    assert_eq!(w.nonce, "000102030405060708090a0b");
    assert_eq!(w.app_name, "app3.exe");
    assert_eq!(w.event_type, "app_usage");
    let short = EncryptedData { ciphertext: vec![1, 2, 3], nonce: vec![0; 12] };
    match wire_event(&e, &short, 0) {
        Err(SyncError::Encryption(m)) => assert_eq!(m, "Invalid ciphertext length"),
        other => panic!("unexpected {:?}", other.map(|w| w.id)),
    }
}

#[test]
fn future_timestamps_are_clamped() {
    assert_eq!(clamp_timestamp(1000, 1000), 1000);
    assert_eq!(clamp_timestamp(61_000, 1000), 61_000);
    assert_eq!(clamp_timestamp(61_001, 1000), 1000);
    assert_eq!(clamp_timestamp(i64::MAX, i64::MAX - 5), i64::MAX);
    let e = StoredEvent { timestamp: i64::MAX, ..stored(4, None) };
    let d = EncryptedData { ciphertext: vec![0; 16], nonce: vec![0; 12] };
    assert_eq!(wire_event(&e, &d, 5).unwrap().timestamp, 5);
}

#[test]
fn endpoint_and_header() {
    assert_eq!(sync_url("https://api.example.com"), "https://api.example.com/api/v1/sync/events");
    assert_eq!(sync_url("https://api.example.com///"), "https://api.example.com/api/v1/sync/events");
    assert_eq!(sync_url(""), "/api/v1/sync/events");
    assert_eq!(bearer("abc"), "Bearer abc");
}

#[test]
fn status_and_thresholds() {
    let client = SyncClient::new();
    let status = client.get_status(None, 5, Some("Network error: x".to_string()));
    assert_eq!(status.pending_events, 5);
    assert_eq!(status.last_error.as_deref(), Some("Network error: x"));
    assert!(client.check_and_sync_if_needed(100, 100));
    assert!(!client.check_and_sync_if_needed(99, 100));
    let defaults = SyncConfig::default();
    assert_eq!(defaults.auto_sync_interval_secs, 300);
    assert_eq!(defaults.auto_sync_batch_size, 100);
    assert!(defaults.auto_sync_enabled);
}

#[test]
fn auto_sync_reports_only_when_idle_with_pending_events() {
    let mut client = ready_client();
    assert!(!client.auto_sync_due(0));
    assert!(client.auto_sync_due(3));
    client.begin_sync().unwrap();
    assert!(!client.auto_sync_due(3));
}

#[test]
fn empty_run_ends_with_success_and_releases_the_flag() {
    let mut client = ready_client();
    client.begin_sync().unwrap();
    client.resolve_config(None).unwrap();
    assert!(client.plan_batch(Vec::new()).is_none());
    assert!(!client.get_status(None, 0, None).is_syncing);
    client.begin_sync().unwrap();
    let batch = client.plan_batch((0..120).map(|i| stored(i, None)).collect()).unwrap();
    assert_eq!(batch.len(), 100);
    assert!(client.get_status(None, 0, None).is_syncing);
}
