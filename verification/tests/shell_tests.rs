use shorts_tauri_app::muapi::{NoopProgressEmitter, ProgressEmitter};
use shorts_tauri_app::health::{health_check, summarize_worker_endpoint};
use shorts_tauri_app::licensing::command_names;
use shorts_tauri_app::secret_store::{epoch_ms_from_reading, prefer_primary, write_outcome, FallbackSecrets, SystemClock};
use shorts_tauri_app::licensing::AuthError;

#[test]
fn system_clock_returns_positive_epoch_ms() {
    assert!(SystemClock.now_ms() > 0);
}

#[test]
fn license_control_suite_command_inventory_is_registered_by_name() {
    let names = command_names();

    assert_eq!(
        names,
        [
            "activate_license",
            "validate_session",
            "request_device_reset",
            "get_device_reset_status",
            "clear_local_session",
            "get_auth_state",
        ]
    );
}

#[test]
fn custom_updater_engine_is_not_present() {
    assert!(!std::path::Path::new("src/core/updater").exists());
    assert!(!std::path::Path::new("src/commands/updater.rs").exists());
}

#[test]
fn health_command_callable() {
    let health = health_check();
    assert_eq!(health.status, "ok");
}

#[test]
fn worker_endpoints_are_summarized_without_details() {
    assert_eq!(
        summarize_worker_endpoint("http://127.0.0.1:8787/license-secret-route"),
        ("local/private worker".to_string(), "local".to_string())
    );
    assert_eq!(
        summarize_worker_endpoint("https://user:pw@License.Example.com:443/path?q=1"),
        ("License.Example.com".to_string(), "remote".to_string())
    );
    assert_eq!(summarize_worker_endpoint("   "), ("not configured".to_string(), "unknown".to_string()));
    assert_eq!(
        summarize_worker_endpoint("http://172.20.1.5"),
        ("local/private worker".to_string(), "local".to_string())
    );
    assert_eq!(
        summarize_worker_endpoint("http://172.32.1.5"),
        ("172.32.1.5".to_string(), "remote".to_string())
    );
    assert_eq!(
        summarize_worker_endpoint("localhost:3000"),
        ("local/private worker".to_string(), "local".to_string())
    );
}

#[test]
fn resilient_secret_store_uses_fallback_when_primary_unavailable() {
    let mut secrets = FallbackSecrets::empty();
    secrets.record_license_key("SECRET-LICENSE".to_string());
    secrets.record_access_token("token".to_string());
    assert!(write_outcome(Err(AuthError::Storage("keychain locked".to_string())), Ok(())).is_ok());
    let read = prefer_primary(Err(AuthError::Storage("keychain locked".to_string())), secrets.license_key.clone());
    assert_eq!(read, Some("SECRET-LICENSE".to_string()));
    secrets.clear_session_secrets();
    assert_eq!(secrets.license_key, None);
    assert_eq!(secrets.access_token, None);
    assert!(matches!(
        write_outcome(Ok(()), Err(AuthError::Storage("disk full".to_string()))),
        Err(AuthError::Storage(_))
    ));
}

#[test]
fn resilient_secret_store_prefers_primary_reads() {
    let read = prefer_primary(Ok(Some("primary".to_string())), Some("fallback".to_string()));
    assert_eq!(read, Some("primary".to_string()));
    let read = prefer_primary(Ok(None), Some("fallback".to_string()));
    assert_eq!(read, Some("fallback".to_string()));
}

#[test]
fn identity_provider_keeps_its_path() {
    let p = shorts_tauri_app::secret_store::RuntimeDeviceIdentityProvider::new(
        "/home/u/.local/share/app/auth/device_identity.json".to_string(),
    );
    assert_eq!(p.identity_path(), "/home/u/.local/share/app/auth/device_identity.json");
}

#[test]
fn noop_emitter_accepts_status_changes() {
    NoopProgressEmitter.emit_status_change("download", "queued");
}

#[test]
fn clock_readings_are_capped_and_default_to_zero() {
    assert_eq!(epoch_ms_from_reading(Some(1_700_000_000_123)), 1_700_000_000_123);
    assert_eq!(epoch_ms_from_reading(Some(u128::MAX)), i64::MAX);
    assert_eq!(epoch_ms_from_reading(None), 0);
}
