use sha2::Digest;
use shorts_tauri_app::auth_worker::{
    activation_idempotency_key, check_session_token, compute_token_signature,
    devolens_activation_outcome, devolens_reset_outcome, devolens_reset_precheck, devolens_reset_status,
    mock_activation_outcome, mock_reset_status, read_activation_reply, read_validation_reply,
    reset_idempotency_key, screen_session_token, session_outcome, signed_session_token,
    ActivationOutcome, LicenseStore, PurchaseProvider, PurchaseVerification, WorkerActivationContract,
    WorkerResetContract,
    build_auth_state_from_parts, build_worker_client, CircuitState, DevolensActivationResponse, PolicyWorkerClient, WorkerBackend, DevolensLicenseKey, DevolensValidationResponse,
    RetryStep, SessionTokenCheck, WorkerCircuitBreakerPolicy, WorkerClientPolicy,
    WorkerContractErrorCode, WorkerRetryPolicy,
};
use shorts_tauri_app::config::{LicenseBackendMode, LicenseWorkerConfig};
use shorts_tauri_app::licensing::{
    ActivationRequest, AuthError, BoundDeviceSummary, DeviceFingerprint, DeviceResetRequest,
    DeviceResetStatus, EntitlementStatus, ValidationOutcome,
};

fn fingerprint() -> DeviceFingerprint {
    DeviceFingerprint {
        platform: "linux".to_string(),
        os: "linux".to_string(),
        arch: "x86_64".to_string(),
        hostname_hash: None,
    }
}

fn activation_request() -> ActivationRequest {
    ActivationRequest {
        license_key: "SECRET-LICENSE".to_string(),
        device_public_key: "public".to_string(),
        fingerprint: fingerprint(),
        app_version: "0.1.0".to_string(),
        timestamp_ms: 123,
    }
}

fn reset_request() -> DeviceResetRequest {
    DeviceResetRequest {
        license_key: Some("SECRET-LICENSE".to_string()),
        masked_license_key: Some("••••-ENSE".to_string()),
        purchaser_email: Some("buyer@example.com".to_string()),
        device_public_key: "public".to_string(),
        fingerprint: fingerprint(),
        app_version: "0.1.0".to_string(),
        timestamp_ms: 456,
    }
}

fn policy(max_attempts: u32, failure_threshold: u32) -> WorkerClientPolicy {
    WorkerClientPolicy {
        timeout_ms: 1000,
        retry: WorkerRetryPolicy { max_attempts, backoff_ms: 0 },
        circuit_breaker: WorkerCircuitBreakerPolicy { failure_threshold, cooldown_ms: 60_000 },
    }
}

fn key(blocked: Option<bool>, expired: Option<bool>) -> DevolensLicenseKey {
    DevolensLicenseKey { blocked, blocked_pascal: None, expired, expired_pascal: None }
}

fn activation_reply(result: i64, message: Option<&str>, k: Option<DevolensLicenseKey>) -> DevolensActivationResponse {
    DevolensActivationResponse {
        result: Some(result),
        result_pascal: None,
        message: message.map(|m| m.to_string()),
        message_pascal: None,
        license_key: k,
        license_key_pascal: None,
        expires_at_ms: None,
    }
}

fn sha_hex(parts: &[&[u8]]) -> String {
    let mut hasher = sha2::Sha256::new();
    for p in parts {
        hasher.update(p);
    }
    hasher.finalize().iter().map(|b| format!("{:02x}", b)).collect::<String>()
}

#[test]
fn local_contract_idempotency_keys_are_stable_and_secret_free() {
    let activation = activation_request();
    let reset = reset_request();
    let activation_key = activation_idempotency_key(&activation);
    let reset_key = reset_idempotency_key(&reset);
    assert_eq!(activation_key, activation_idempotency_key(&activation));
    assert_eq!(reset_key, reset_idempotency_key(&reset));
    assert!(!activation_key.contains("SECRET-LICENSE"));
    assert!(!reset_key.contains("SECRET-LICENSE"));
    assert_eq!(activation_key, "activate:public:0.1.0:123");
    assert_eq!(reset_key, "reset:public:••••-ENSE:456");
}

#[test]
fn auth_error_mapping_uses_local_error_taxonomy() {
    let mapped = WorkerContractErrorCode::from_auth_error(&AuthError::DeviceAlreadyBound);
    assert_eq!(mapped.as_str(), "device_already_bound");
}

#[test]
fn policy_worker_retries_transient_worker_unreachable_errors() {
    let mut client = PolicyWorkerClient::new(policy(2, 3));
    let mut run = client.begin_call(0).expect("closed circuit admits");
    let step = client.after_attempt(&mut run, Err(AuthError::WorkerUnreachable), 1);
    assert!(matches!(step, RetryStep::Retry { backoff_ms: 0 }));
    assert_eq!(run.attempt, 2);
    let step = client.after_attempt(&mut run, Ok(()), 2);
    assert!(matches!(step, RetryStep::Finish(Ok(()))));
    assert_eq!(client.circuit, CircuitState::new());
}

#[test]
fn policy_worker_opens_circuit_after_threshold_failures() {
    let mut client = PolicyWorkerClient::new(policy(1, 1));
    let mut run = client.begin_call(1_000).expect("first call admitted");
    let step = client.after_attempt(&mut run, Err(AuthError::WorkerUnreachable), 1_000);
    assert!(matches!(step, RetryStep::Finish(Err(AuthError::WorkerUnreachable))));
    assert_eq!(client.circuit.opened_at_ms, Some(1_000));
    let second = client.begin_call(2_000);
    assert!(matches!(second, Err(AuthError::WorkerUnreachable)));
    let later = client.begin_call(61_000);
    assert!(later.is_ok());
    assert_eq!(client.circuit, CircuitState::new());
}

#[test]
fn mock_backend_mode_routes_through_local_worker_switch() {
    let req = activation_request();
    let outcome = mock_activation_outcome(&req, "device-1", "••••-ENSE");
    assert_eq!(outcome.access_token, "mock-token-123");
    assert_eq!(outcome.token_expires_at_ms, 123 + 86_400_000);
    assert_eq!(outcome.bound_device.public_key, "public");
    assert_eq!(outcome.entitlement, EntitlementStatus::Active);
    match mock_reset_status(&reset_request()) {
        DeviceResetStatus::Pending { request_id, created_at_ms } => {
            assert_eq!(request_id, "mock-reset-456");
            assert_eq!(created_at_ms, 456);
        }
        _ => panic!("mock reset stays pending"),
    }
}

#[test]
fn test_devolens_parser_handles_all_fixtures() {
    let success = activation_reply(0, None, Some(key(Some(false), Some(false))));
    assert!(success.is_success());
    assert!(success.license_is_active());

    let invalid = activation_reply(1, Some("The key is invalid."), None);
    assert!(!invalid.is_success());
    assert_eq!(invalid.message(), Some("The key is invalid."));

    let expired = activation_reply(0, None, Some(key(Some(false), Some(true))));
    assert!(expired.is_success());
    assert!(!expired.license_is_active());

    let blocked = activation_reply(0, None, Some(key(Some(true), Some(false))));
    assert!(blocked.is_success());
    assert!(!blocked.license_is_active());

    let limit = activation_reply(1, Some("Machine limit reached."), None);
    assert!(!limit.is_success());
    assert!(limit.message().unwrap().to_ascii_lowercase().contains("machine"));
}

fn validation_reply(result: i64) -> DevolensValidationResponse {
    DevolensValidationResponse {
        result: Some(result),
        result_pascal: None,
        message: None,
        message_pascal: None,
        license_key: Some(key(Some(false), Some(false))),
        license_key_pascal: None,
        masked_license_key: Some("••••-ENSE".to_string()),
        bound_device: Some(BoundDeviceSummary {
            device_id: "test-device-id".to_string(),
            public_key: "test-public-key".to_string(),
            fingerprint: fingerprint(),
        }),
        token_expires_at_ms: Some(1_813_833_600_000),
    }
}

#[test]
fn devolens_session_validation_returns_active() {
    let expected_sig = sha_hex(&[b"test-device-id", b":", b"123456", b":", b"devolens-token"]);
    let signed = signed_session_token("test-device-id", 123456, "devolens-token");
    assert_eq!(signed, format!("devolens:test-device-id:123456:{}", expected_sig));
    assert!(matches!(check_session_token(&signed, "devolens-token"), SessionTokenCheck::Signed));

    let reply = read_validation_reply(200, Ok(validation_reply(0))).expect("reply");
    match session_outcome(&reply) {
        ValidationOutcome::Active { masked_license_key, bound_device, token_expires_at_ms } => {
            assert_eq!(masked_license_key, "••••-ENSE");
            assert_eq!(bound_device.device_id, "test-device-id");
            assert_eq!(token_expires_at_ms, 1_813_833_600_000);
        }
        other => panic!("Expected ValidationOutcome::Active, got {:?}", other),
    }
}

#[test]
fn devolens_session_validation_returns_revoked() {
    let mut reply = validation_reply(1);
    reply.message = Some("Key is blocked or invalid".to_string());
    let reply = read_validation_reply(200, Ok(reply)).expect("reply");
    assert!(matches!(session_outcome(&reply), ValidationOutcome::Revoked));
}

#[test]
fn test_devolens_access_token_integrity() {
    assert!(matches!(
        check_session_token("devolens:test-device-id:123456:invalid-signature", "devolens-token"),
        SessionTokenCheck::Rejected
    ));
    assert!(matches!(
        check_session_token("test-device-id:123456", "devolens-token"),
        SessionTokenCheck::NotDevolens
    ));
    assert!(matches!(
        check_session_token("devolens:other-device:123456:some-sig", "devolens-token"),
        SessionTokenCheck::Rejected
    ));
    assert!(matches!(
        check_session_token("devolens:too:many:parts:here", "devolens-token"),
        SessionTokenCheck::Rejected
    ));
}

#[test]
fn devolens_activation_machine_limit_returns_device_already_bound() {
    let reply = activation_reply(1, Some("Machine limit reached."), None);
    let result = read_activation_reply(200, Ok(reply));
    assert!(matches!(result, Err(AuthError::DeviceAlreadyBound)));
    let mapped = WorkerContractErrorCode::from_auth_error(&AuthError::DeviceAlreadyBound);
    assert_eq!(mapped.as_str(), "device_already_bound");

    let reply = activation_reply(1, Some("The key is invalid."), None);
    assert!(matches!(read_activation_reply(200, Ok(reply)), Err(AuthError::InvalidLicenseKey)));
    assert!(matches!(read_activation_reply(401, Err("x".to_string())), Err(AuthError::Unauthorized)));
    assert!(matches!(read_activation_reply(503, Err("x".to_string())), Err(AuthError::WorkerUnreachable)));
    assert!(matches!(read_activation_reply(200, Err("bad".to_string())), Err(AuthError::Serialization(ref m)) if m == "bad"));
}

#[test]
fn devolens_backend_mode_activates_against_provider_api_shape() {
    let reply = activation_reply(0, None, Some(key(Some(false), Some(false))));
    let req = activation_request();
    let outcome = devolens_activation_outcome(&reply, &req, "dev-1", "••••-ENSE", "devolens-token")
        .expect("activation succeeds");
    assert_eq!(outcome.entitlement, EntitlementStatus::Active);
    assert_eq!(outcome.masked_license_key, "••••-ENSE");
    assert_eq!(outcome.token_expires_at_ms, 123 + 86_400_000);
    let sig = compute_token_signature("dev-1", "123", "devolens-token");
    assert_eq!(sig, sha_hex(&[b"dev-1", b":", b"123", b":", b"devolens-token"]));
    assert_eq!(outcome.access_token, format!("devolens:dev-1:123:{}", sig));

    let expired = activation_reply(0, None, Some(key(None, Some(true))));
    assert!(matches!(
        devolens_activation_outcome(&expired, &req, "dev-1", "m", "t"),
        Err(AuthError::ReauthRequired)
    ));
    let refused = activation_reply(1, None, None);
    assert!(matches!(
        devolens_activation_outcome(&refused, &req, "dev-1", "m", "t"),
        Err(AuthError::InvalidLicenseKey)
    ));
}

#[test]
fn test_request_device_reset_calls_devolens() {
    let mut req = reset_request();
    req.timestamp_ms = 123456;
    let reply = activation_reply(0, Some(""), None);
    match devolens_reset_outcome(&req, 200, &reply).expect("deactivate should succeed") {
        DeviceResetStatus::Approved { request_id, decided_at_ms } => {
            assert_eq!(request_id, "reset-123456");
            assert_eq!(decided_at_ms, 123456);
        }
        _ => panic!("Expected Approved reset status"),
    }
    req.license_key = None;
    assert!(matches!(devolens_reset_outcome(&req, 200, &reply), Err(AuthError::InvalidResetRequest)));
    assert!(matches!(devolens_reset_status("reset-9"), Ok(DeviceResetStatus::Approved { decided_at_ms: 0, .. })));
    assert!(matches!(devolens_reset_status("other"), Err(AuthError::ResetRequestNotFound)));
}

fn worker_config(mode: LicenseBackendMode) -> LicenseWorkerConfig {
    LicenseWorkerConfig {
        backend_mode: mode,
        base_url: "http://127.0.0.1:8787".to_string(),
        storage_namespace: "desktop-client-test".to_string(),
        keychain_service: "shorts-test".to_string(),
        timeout_ms: 1000,
        retry_attempts: 1,
        retry_backoff_ms: 0,
        circuit_breaker_failure_threshold: 3,
        circuit_breaker_cooldown_ms: 1000,
        devolens_base_url: "https://api.cryptolens.io/".to_string(),
        devolens_access_token: String::new(),
        devolens_product_id: String::new(),
    }
}

#[test]
fn worker_backend_follows_the_configured_mode() {
    assert!(matches!(build_worker_client(&worker_config(LicenseBackendMode::Mock)), Ok(WorkerBackend::Mock)));
    assert!(matches!(
        build_worker_client(&worker_config(LicenseBackendMode::Hosted)),
        Ok(WorkerBackend::Http { ref base_url }) if base_url == "http://127.0.0.1:8787"
    ));
    let mut cfg = worker_config(LicenseBackendMode::Devolens);
    assert!(matches!(build_worker_client(&cfg), Err(AuthError::Unauthorized)));
    cfg.devolens_access_token = " devolens-token ".to_string();
    cfg.devolens_product_id = "1234".to_string();
    match build_worker_client(&cfg) {
        Ok(WorkerBackend::Devolens(s)) => {
            assert_eq!(s.base_url, "https://api.cryptolens.io");
            assert_eq!(s.access_token, "devolens-token");
            assert_eq!(s.product_id, "1234");
        }
        _ => panic!("unexpected backend"),
    }
}

#[test]
fn minted_session_tokens_pass_the_integrity_check() {
    for ts in [0i64, 123456, -42, i64::MAX] {
        let token = signed_session_token("device-7", ts, "devolens-token");
        assert!(matches!(check_session_token(&token, "devolens-token"), SessionTokenCheck::Signed));
        assert!(matches!(check_session_token(&token, "other-token"), SessionTokenCheck::Rejected));
    }
}

#[derive(Default)]
struct CaptureLicenseStore {
    activations: std::sync::Mutex<Vec<WorkerActivationContract>>,
    resets: std::sync::Mutex<Vec<WorkerResetContract>>,
}

impl LicenseStore for CaptureLicenseStore {
    fn persist_activation(&self, contract: &WorkerActivationContract, _outcome: &ActivationOutcome) -> Result<(), AuthError> {
        self.activations.lock().unwrap().push(contract.clone());
        Ok(())
    }

    fn persist_reset_request(&self, contract: &WorkerResetContract, _status: &DeviceResetStatus) -> Result<(), AuthError> {
        self.resets.lock().unwrap().push(contract.clone());
        Ok(())
    }
}

#[test]
fn local_license_store_interface_accepts_contract_metadata() {
    let store = CaptureLicenseStore::default();
    let activation = activation_request();
    let reset = reset_request();
    let outcome = ActivationOutcome {
        access_token: "TOKEN".to_string(),
        masked_license_key: "••••-ENSE".to_string(),
        bound_device: BoundDeviceSummary {
            device_id: "device-1".to_string(),
            public_key: activation.device_public_key.clone(),
            fingerprint: activation.fingerprint.clone(),
        },
        entitlement: EntitlementStatus::Active,
        token_expires_at_ms: 9999,
    };

    store
        .persist_activation(
            &WorkerActivationContract { idempotency_key: activation_idempotency_key(&activation), request: activation },
            &outcome,
        )
        .expect("activation contract should persist");
    store
        .persist_reset_request(
            &WorkerResetContract { idempotency_key: reset_idempotency_key(&reset), request: reset },
            &DeviceResetStatus::Pending { request_id: "reset-1".to_string(), created_at_ms: 1 },
        )
        .expect("reset contract should persist");

    assert_eq!(store.activations.lock().unwrap().len(), 1);
    assert_eq!(store.resets.lock().unwrap().len(), 1);
}

#[test]
fn devolens_client_reauths_existing_sessions_instead_of_trusting_local_token() {
    let status = screen_session_token("local-provider-marker", "devolens-token");
    assert!(matches!(status, Some(Ok(ValidationOutcome::ReauthRequired))));
}

#[test]
fn screened_tokens_reach_the_provider_only_when_signed() {
    let signed = signed_session_token("dev-1", 123, "devolens-token");
    assert!(screen_session_token(&signed, "devolens-token").is_none());
    assert!(matches!(screen_session_token(&signed, "other-token"), Some(Err(AuthError::ReauthRequired))));
    assert!(matches!(screen_session_token("devolens:a:b", "devolens-token"), Some(Err(AuthError::ReauthRequired))));
}

#[test]
fn purchase_verification_records_the_entitlement() {
    struct FixedProvider;
    impl PurchaseProvider for FixedProvider {
        fn verify_purchase(&self, license_key: &str, _purchaser_email: &str) -> Result<PurchaseVerification, AuthError> {
            if license_key.is_empty() {
                return Err(AuthError::InvalidLicenseKey);
            }
            Ok(PurchaseVerification {
                provider: "store".to_string(),
                provider_sale_id: Some("sale-1".to_string()),
                entitlement: EntitlementStatus::Active,
            })
        }
    }
    let v = FixedProvider.verify_purchase("KEY", "buyer@example.com").unwrap();
    assert_eq!(v.entitlement, EntitlementStatus::Active);
    assert!(matches!(FixedProvider.verify_purchase("", "b"), Err(AuthError::InvalidLicenseKey)));
}

#[test]
fn auth_state_builder_accepts_basic_parts_without_touching_keyring() {
    let mut cfg = worker_config(LicenseBackendMode::Reference);
    cfg.timeout_ms = 10_000;
    cfg.circuit_breaker_cooldown_ms = 30_000;
    let state = build_auth_state_from_parts(&cfg, "/tmp/shorts-auth-builder", '/', "0.1.0");
    assert!(state.is_ok());
}

#[test]
fn auth_state_keeps_secrets_and_identity_under_auth() {
    let cfg = worker_config(LicenseBackendMode::Mock);
    let state = build_auth_state_from_parts(&cfg, "/data/app/", '/', "0.1.0").unwrap();
    assert!(matches!(state.worker, WorkerBackend::Mock));
    assert_eq!(state.secrets_fallback_path, "/data/app/auth/desktop-client-test.session_secrets_fallback.json");
    assert_eq!(state.identity.identity_path(), "/data/app/auth");
    assert_eq!(state.keychain_service, "shorts-test");
    assert_eq!(state.app_version, "0.1.0");
    let devolens = worker_config(LicenseBackendMode::Devolens);
    assert!(matches!(build_auth_state_from_parts(&devolens, "/d", '/', "0.1.0"), Err(AuthError::Unauthorized)));
}

#[test]
fn idempotency_keys_do_not_change_with_the_license_key() {
    let a = activation_request();
    let mut b = activation_request();
    b.license_key = "OTHER-LICENSE".to_string();
    assert_eq!(activation_idempotency_key(&a), activation_idempotency_key(&b));
    let r = reset_request();
    let mut s = reset_request();
    s.license_key = None;
    s.purchaser_email = Some("someone@example.com".to_string());
    assert_eq!(reset_idempotency_key(&r), reset_idempotency_key(&s));
    s.masked_license_key = None;
    assert_eq!(reset_idempotency_key(&s), "reset:public:unmasked:456");
}

#[test]
fn wrongly_signed_devolens_token_needs_a_new_login() {
    let token = "devolens:test-device-id:123456:invalid-signature";
    assert!(matches!(screen_session_token(token, "devolens-token"), Some(Err(AuthError::ReauthRequired))));
    assert!(matches!(
        screen_session_token("plain-token", "devolens-token"),
        Some(Ok(ValidationOutcome::ReauthRequired))
    ));
    let signed = signed_session_token("dev-9", 42, "devolens-token");
    assert!(screen_session_token(&signed, "devolens-token").is_none());
    assert!(matches!(screen_session_token(&signed, "other-token"), Some(Err(AuthError::ReauthRequired))));
}

#[test]
fn reset_without_license_key_is_refused_before_sending() {
    let mut req = reset_request();
    let key = req.license_key.clone().expect("fixture has a key");
    assert_eq!(devolens_reset_precheck(&req).expect("key present"), key);
    req.license_key = None;
    assert!(matches!(devolens_reset_precheck(&req), Err(AuthError::InvalidResetRequest)));
}

#[test]
fn retried_call_stops_at_the_first_reachable_outcome_or_the_last_attempt() {
    // Unreachable twice, then another error: three attempts, ending with it.
    let mut client = PolicyWorkerClient::new(policy(5, 10));
    let mut run = client.begin_call(0).expect("closed circuit");
    let outcomes = [
        Err(AuthError::WorkerUnreachable),
        Err(AuthError::WorkerUnreachable),
        Err(AuthError::InvalidLicenseKey),
        Ok(()),
    ];
    let mut made = 0;
    let mut last = None;
    for outcome in outcomes {
        made += 1;
        match client.after_attempt(&mut run, outcome, 10) {
            RetryStep::Retry { .. } => {}
            RetryStep::Finish(o) => {
                last = Some(o);
                break;
            }
        }
    }
    assert_eq!(made, 3);
    assert!(matches!(last, Some(Err(AuthError::InvalidLicenseKey))));

    // Always unreachable: exactly the allowed attempts.
    let mut client = PolicyWorkerClient::new(policy(2, 10));
    let mut run = client.begin_call(0).expect("closed circuit");
    let mut made = 0;
    loop {
        made += 1;
        if let RetryStep::Finish(o) = client.after_attempt(&mut run, Err(AuthError::WorkerUnreachable), 10) {
            assert!(matches!(o, Err(AuthError::WorkerUnreachable)));
            break;
        }
    }
    assert_eq!(made, 2);
}
