use shorts_tauri_app::admin::{
    audit_events_path, check_deletion_approval, check_disable_license, config_from_store,
    deletion_requests_path, encode_query_component, generate_admin_idempotency_key,
    idempotency_records_path, normalize_worker_base_url, optional_reason, parse_worker_response,
    redact_token, reset_requests_path, validate_support_reason, validate_token,
    AdminAction, AdminDisableLicenseData, AdminOverviewData, AdminResetDecisionData,
    AdminResetListData, AdminResetRequestItem, DeletionRequestStatus, LicenseState, ResetRequestStatus,
    WorkerEnvelope, WorkerError,
};

#[test]
fn admin_normalizes_base_url() {
    assert_eq!(
        normalize_worker_base_url(" https://worker.example.test/// ").unwrap(),
        "https://worker.example.test"
    );
}

#[test]
fn admin_rejects_invalid_base_url() {
    assert!(normalize_worker_base_url("file:///tmp/token").is_err());
}

#[test]
fn admin_redacts_token_without_exposing_full_value() {
    let redacted = redact_token("admin-token-secret-1234");
    assert_eq!(redacted, "[redacted]...1234");
    assert!(!redacted.contains("admin-token-secret"));
}

#[test]
fn admin_idempotency_keys_are_unique_per_action() {
    let first = generate_admin_idempotency_key("approve", "reset-1", 1_700_000_000_000, 42, 0);
    let second = generate_admin_idempotency_key("approve", "reset-1", 1_700_000_000_000, 42, 1);
    assert!(first.starts_with("admin_"));
    assert_ne!(first, second);
}

#[test]
fn admin_support_reason_is_required_for_deletion_decisions() {
    assert_eq!(validate_support_reason(Some(" privacy request ")).unwrap(), "privacy request");
    assert_eq!(validate_support_reason(Some("")).unwrap_err().code, "bad_request");
    assert_eq!(validate_support_reason(None).unwrap_err().code, "bad_request");
}

#[test]
fn admin_parses_worker_success_envelope() {
    let item = AdminResetRequestItem {
        reset_request_id: "reset-1".to_string(),
        status: ResetRequestStatus::Pending,
        license_state: LicenseState::BoundActive,
        message: "pending".to_string(),
        masked_license_key: Some("••••-1234".to_string()),
        has_license_hash: true,
        purchaser_email: Some("b***@example.com".to_string()),
        created_at_ms: 1,
        updated_at_ms: 2,
    };
    let envelope = WorkerEnvelope {
        ok: true,
        data: Some(AdminResetListData { requests: vec![item] }),
        error: None,
    };
    let parsed: AdminResetListData = parse_worker_response(200, Some(envelope)).unwrap();
    assert_eq!(parsed.requests[0].reset_request_id, "reset-1");
}

#[test]
fn admin_parses_worker_error_envelope() {
    let envelope: WorkerEnvelope<AdminResetDecisionData> = WorkerEnvelope {
        ok: false,
        data: None,
        error: Some(WorkerError {
            code: "invalid_transition".to_string(),
            message: "Reset request has already been decided.".to_string(),
            request_id: "req_123".to_string(),
            retryable: false,
        }),
    };
    let parsed = parse_worker_response(409, Some(envelope)).unwrap_err();
    assert_eq!(parsed.code, "invalid_transition");
    assert_eq!(parsed.request_id.as_deref(), Some("req_123"));
}

#[test]
fn admin_parses_disable_license_success_envelope() {
    let envelope = WorkerEnvelope {
        ok: true,
        data: Some(AdminDisableLicenseData {
            license_hash_prefix: "abc123".to_string(),
            entitlement_status: "disabled".to_string(),
            deactivate_bindings: true,
        }),
        error: None,
    };
    let parsed: AdminDisableLicenseData = parse_worker_response(200, Some(envelope)).unwrap();
    assert_eq!(parsed.license_hash_prefix, "abc123");
    assert_eq!(parsed.entitlement_status, "disabled");
    assert!(parsed.deactivate_bindings);
}

#[test]
fn worker_reply_without_data_or_envelope_is_a_serialization_error() {
    let envelope: WorkerEnvelope<AdminOverviewData> = WorkerEnvelope { ok: true, data: None, error: None };
    let e = parse_worker_response(200, Some(envelope)).unwrap_err();
    assert_eq!(e.code, "serialization");
    assert_eq!(e.message, "Worker API response was missing data.");
    assert!(e.retryable);
    let e = parse_worker_response::<AdminOverviewData>(200, None).unwrap_err();
    assert_eq!(e.message, "Worker API returned an invalid response.");
    let failed = WorkerEnvelope { ok: true, data: Some(7u64), error: None };
    let e = parse_worker_response(500, Some(failed)).unwrap_err();
    assert_eq!(e.code, "unknown");
    assert_eq!(e.message, "Worker API request failed.");
    assert!(!e.retryable);
}

#[test]
fn base_url_errors_are_distinguished() {
    let e = normalize_worker_base_url("  ///  ").unwrap_err();
    assert_eq!(e.message, "Worker API base URL is required.");
    let e = normalize_worker_base_url("not a url").unwrap_err();
    assert_eq!(e.message, "Worker API base URL must be a valid http or https URL.");
    assert_eq!(normalize_worker_base_url("http://10.0.0.1:8787/").unwrap(), "http://10.0.0.1:8787");
}

#[test]
fn short_tokens_are_fully_redacted() {
    assert_eq!(redact_token("abcd"), "[redacted]");
    assert_eq!(redact_token(""), "[redacted]");
    assert_eq!(redact_token("abcde"), "[redacted]...bcde");
}

#[test]
fn blank_token_is_unauthorized() {
    assert_eq!(validate_token("   ").unwrap_err().code, "unauthorized");
    assert_eq!(validate_token(" t0k ").unwrap(), "t0k");
}

#[test]
fn query_components_are_form_encoded() {
    assert_eq!(encode_query_component("a b"), "a+b");
    assert_eq!(encode_query_component("x&y=z"), "x%26y%3Dz");
    assert_eq!(encode_query_component("Az09-_.~"), "Az09-_.~");
    assert_eq!(encode_query_component("é"), "%C3%A9");
}

#[test]
fn list_paths_carry_filters() {
    assert_eq!(audit_events_path(None, None, None), "/v1/admin/audit-events");
    assert_eq!(
        audit_events_path(Some(" license revoked ".to_string()), Some("  ".to_string()), Some(25)),
        "/v1/admin/audit-events?event_type=license+revoked&limit=25"
    );
    assert_eq!(
        idempotency_records_path(Some("approve".to_string()), None),
        "/v1/admin/idempotency-records?op=approve"
    );
    assert_eq!(
        reset_requests_path(ResetRequestStatus::Pending),
        "/v1/admin/reset/requests?status=pending"
    );
    assert_eq!(
        deletion_requests_path(DeletionRequestStatus::Processing),
        "/v1/admin/privacy/delete-requests?status=processing"
    );
}

#[test]
fn deletion_approval_needs_typed_confirmation_and_reason() {
    let e = check_deletion_approval("delete user data", Some("why")).unwrap_err();
    assert_eq!(e.message, "Deletion approval requires DELETE USER DATA confirmation.");
    assert!(check_deletion_approval(" DELETE USER DATA ", None).is_err());
    let (c, r) = check_deletion_approval(" DELETE USER DATA ", Some(" gdpr ")).unwrap();
    assert_eq!(c, "DELETE USER DATA");
    assert_eq!(r, "gdpr");
}

#[test]
fn disable_license_needs_prefix_and_reason() {
    let e = check_disable_license(" ", "fraud").unwrap_err();
    assert_eq!(e.message, "License hash prefix and reason are required.");
    let (p, r) = check_disable_license(" abc123 ", " fraud ").unwrap();
    assert_eq!(p, "abc123");
    assert_eq!(r, "fraud");
}

#[test]
fn reset_decision_reason_is_optional() {
    assert_eq!(optional_reason(Some("  ")), None);
    assert_eq!(optional_reason(Some(" ok ")), Some("ok".to_string()));
    assert_eq!(optional_reason(None), None);
}

#[test]
fn stored_configuration_is_checked() {
    let e = config_from_store(Err("io".to_string()), Ok(None)).unwrap_err();
    assert_eq!(e.code, "storage");
    assert!(e.retryable);
    let e = config_from_store(Ok(None), Ok(Some("t".to_string()))).unwrap_err();
    assert_eq!(e.message, "Admin configuration is incomplete.");
    let e = config_from_store(Ok(Some("https://w.example".to_string())), Ok(None)).unwrap_err();
    assert_eq!(e.message, "Admin token is not configured.");
    let c = config_from_store(
        Ok(Some(" https://w.example/ ".to_string())),
        Ok(Some(" secret ".to_string())),
    )
    .unwrap();
    assert_eq!(c.base_url, "https://w.example");
    assert_eq!(c.token, "secret");
}

#[test]
fn deletion_decisions_name_the_desk() {
    assert!(AdminAction::ApproveDeletionRequest.names_actor());
    assert!(!AdminAction::Approve.names_actor());
    assert_eq!(AdminAction::List.as_str(), "list_reset_requests");
}

#[test]
fn encoded_values_hold_no_query_delimiters() {
    let encoded = encode_query_component("a&b=c d?#é~");
    assert_eq!(encoded, "a%26b%3Dc+d%3F%23%C3%A9~");
    assert!(!encoded.contains(['&', '=', '#', '?', ' ']));
}
