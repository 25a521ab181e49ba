use shorts_tauri_app::config::{
    load_config, token_reply_is_privileged, Config, ConfigSources, ConfigStep, LicenseBackendMode,
};
use shorts_tauri_app::dotenv::parse_env_file;
use shorts_tauri_app::errors::ConfigError;
use shorts_tauri_app::health::app_config_summary;

fn sources() -> ConfigSources {
    ConfigSources {
        muapi_api_key: None,
        muapi_api_key_secure: None,
        muapi_base_url: None,
        muapi_poll_interval: None,
        muapi_poll_interval_is_number: true,
        muapi_poll_timeout: None,
        muapi_poll_timeout_is_number: true,
        openai_api_key: None,
        openai_api_key_secure: None,
        openai_model: None,
        license_worker_base_url: None,
        license_storage_namespace: None,
        license_keychain_service: None,
        license_backend_mode: None,
        license_worker_timeout_ms: None,
        license_worker_retry_attempts: None,
        license_worker_retry_backoff_ms: None,
        license_worker_circuit_failure_threshold: None,
        license_worker_circuit_cooldown_ms: None,
        devolens_base_url: None,
        devolens_access_token: None,
        devolens_access_token_secure: None,
        devolens_product_id: None,
        skip_token_safety_check: false,
    }
}

fn with_required_devolens(mut src: ConfigSources) -> ConfigSources {
    src.devolens_access_token = Some("client-token".to_string());
    src.devolens_product_id = Some("1234".to_string());
    src.skip_token_safety_check = true;
    src
}

fn loaded(src: &ConfigSources) -> Config {
    match load_config(src, None) {
        ConfigStep::Loaded(c) => c,
        ConfigStep::Failed(e) => panic!("config should load: {}", e.message()),
        ConfigStep::CheckToken { .. } => panic!("no token probe expected"),
    }
}

fn failed(src: &ConfigSources) -> ConfigError {
    match load_config(src, None) {
        ConfigStep::Failed(e) => e,
        _ => panic!("config should fail"),
    }
}

#[test]
fn defaults_use_devolens_when_required_credentials_are_set() {
    let cfg = loaded(&with_required_devolens(sources()));
    assert_eq!(cfg.muapi_api_key, "");
    assert_eq!(cfg.muapi_base_url, "https://api.muapi.ai/api/v1");
    assert_eq!(cfg.openai_api_key, "");
    assert_eq!(cfg.openai_model, "gpt-4o-mini");
    assert_eq!(cfg.license_worker_base_url, "https://license-worker.demandscout.workers.dev");
    assert_eq!(cfg.license_storage_namespace, "desktop-client");
    assert_eq!(cfg.license_keychain_service, "ai-youtube-shorts-generator");
    assert_eq!(cfg.license_backend_mode, LicenseBackendMode::Devolens);
    assert_eq!(cfg.license_worker_timeout_ms, 10_000);
    assert_eq!(cfg.license_worker_retry_attempts, 2);
    assert_eq!(cfg.license_worker_retry_backoff_ms, 150);
    assert_eq!(cfg.license_worker_circuit_breaker_failure_threshold, 3);
    assert_eq!(cfg.license_worker_circuit_breaker_cooldown_ms, 30_000);
    assert_eq!(cfg.devolens_base_url, "https://api.cryptolens.io");
    assert_eq!(cfg.devolens_access_token, "client-token");
    assert_eq!(cfg.devolens_product_id, "1234");
}

#[test]
fn default_devolens_config_requires_provider_credentials() {
    let err = failed(&sources());
    assert!(err.message().contains("DEVOLENS_ACCESS_TOKEN"));
}

#[test]
fn app_config_summary_reports_status_without_secret_values() {
    let mut src = with_required_devolens(sources());
    src.muapi_api_key = Some("muapi-secret-value".to_string());
    src.openai_api_key = Some("openai-secret-value".to_string());
    src.license_worker_base_url = Some("http://127.0.0.1:8787/license-secret-route".to_string());
    let cfg = loaded(&src);

    let summary = app_config_summary(&cfg);
    assert_eq!(summary.license_backend_mode, "devolens");
    assert_eq!(summary.license_worker_endpoint, "local/private worker");
    assert_eq!(summary.license_worker_endpoint_kind, "local");
    assert!(summary.muapi_configured);
    assert!(summary.openai_configured);

    let encoded = format!("{:?}", summary);
    assert!(!encoded.contains("muapi-secret-value"));
    assert!(!encoded.contains("openai-secret-value"));
    assert!(!encoded.contains("127.0.0.1"));
    assert!(!encoded.contains("8787"));
    assert!(!encoded.contains("license-secret-route"));
}

#[test]
fn dotenv_loader_walks_parent_dirs_without_overriding_existing_env() {
    let root = parse_env_file(
        "LICENSE_WORKER_BASE_URL=https://licenses.example.test\nLICENSE_BACKEND_MODE=devolens\nLICENSE_STORAGE_NAMESPACE=root-env\n",
    );
    let app = parse_env_file(
        "LICENSE_STORAGE_NAMESPACE=app-env\nLICENSE_KEYCHAIN_SERVICE='quoted-service'\n",
    );
    assert_eq!(
        root,
        vec![
            ("LICENSE_WORKER_BASE_URL".to_string(), "https://licenses.example.test".to_string()),
            ("LICENSE_BACKEND_MODE".to_string(), "devolens".to_string()),
            ("LICENSE_STORAGE_NAMESPACE".to_string(), "root-env".to_string()),
        ]
    );
    assert_eq!(
        app,
        vec![
            ("LICENSE_STORAGE_NAMESPACE".to_string(), "app-env".to_string()),
            ("LICENSE_KEYCHAIN_SERVICE".to_string(), "quoted-service".to_string()),
        ]
    );
}

#[test]
fn license_config_env_overrides_are_trimmed_and_normalized() {
    let mut src = sources();
    src.license_worker_base_url = Some(" https://licenses.example.test/ ".to_string());
    src.license_storage_namespace = Some(" desktop-client-test ".to_string());
    src.license_keychain_service = Some(" shorts-test ".to_string());
    src.license_backend_mode = Some(" devolens ".to_string());
    src.license_worker_timeout_ms = Some("2500".to_string());
    src.license_worker_retry_attempts = Some("4".to_string());
    src.license_worker_retry_backoff_ms = Some("25".to_string());
    src.license_worker_circuit_failure_threshold = Some("5".to_string());
    src.license_worker_circuit_cooldown_ms = Some("5000".to_string());
    src.devolens_base_url = Some(" https://devolens.example.test/ ".to_string());
    src.devolens_access_token = Some(" devolens-secret ".to_string());
    src.devolens_product_id = Some(" 1234 ".to_string());
    src.skip_token_safety_check = true;

    let cfg = loaded(&src);
    assert_eq!(cfg.license_worker_base_url, "https://licenses.example.test");
    assert_eq!(cfg.license_storage_namespace, "desktop-client-test");
    assert_eq!(cfg.license_keychain_service, "shorts-test");
    assert_eq!(cfg.license_backend_mode, LicenseBackendMode::Devolens);
    assert_eq!(cfg.license_worker_timeout_ms, 2500);
    assert_eq!(cfg.license_worker_retry_attempts, 4);
    assert_eq!(cfg.license_worker_retry_backoff_ms, 25);
    assert_eq!(cfg.license_worker_circuit_breaker_failure_threshold, 5);
    assert_eq!(cfg.license_worker_circuit_breaker_cooldown_ms, 5000);
    assert_eq!(cfg.devolens_base_url, "https://devolens.example.test");
    assert_eq!(cfg.devolens_access_token, "devolens-secret");
    assert_eq!(cfg.devolens_product_id, "1234");
}

#[test]
fn devolens_backend_requires_provider_credentials() {
    let mut src = sources();
    src.license_backend_mode = Some("devolens".to_string());
    src.devolens_product_id = Some("1234".to_string());
    let err = failed(&src);
    assert!(err.message().contains("DEVOLENS_ACCESS_TOKEN"));

    src.devolens_access_token = Some("token".to_string());
    src.devolens_product_id = None;
    let err = failed(&src);
    assert!(err.message().contains("DEVOLENS_PRODUCT_ID"));
}

#[test]
fn devolens_backend_mode_loads_provider_config() {
    let mut src = sources();
    src.license_backend_mode = Some("devolens".to_string());
    src.devolens_base_url = Some("https://api.cryptolens.io/".to_string());
    src.devolens_access_token = Some("devolens-secret-value".to_string());
    src.devolens_product_id = Some("1234".to_string());
    src.skip_token_safety_check = true;

    let cfg = loaded(&src);
    assert_eq!(cfg.license_backend_mode, LicenseBackendMode::Devolens);
    assert_eq!(cfg.devolens_base_url, "https://api.cryptolens.io");
    assert_eq!(cfg.devolens_access_token, "devolens-secret-value");
    assert_eq!(cfg.devolens_product_id, "1234");
}

#[test]
fn missing_required_keys_return_deterministic_prefixes() {
    let cfg = loaded(&with_required_devolens(sources()));
    let api_err = cfg.require_api_key().expect_err("must fail when MUAPI_API_KEY missing");
    assert!(api_err.message().starts_with("MUAPI_API_KEY is not set."));
}

#[test]
fn invalid_float_env_returns_parse_error_with_var_name() {
    let mut src = sources();
    src.muapi_poll_interval = Some("abc".to_string());
    src.muapi_poll_interval_is_number = false;
    let err = failed(&src);
    assert!(err.message().starts_with("invalid float for MUAPI_POLL_INTERVAL:"));
}

#[test]
fn invalid_license_backend_mode_is_rejected() {
    let mut src = sources();
    src.license_backend_mode = Some("cloudflare".to_string());
    let err = failed(&src);
    assert!(err.message().starts_with("invalid LICENSE_BACKEND_MODE:"));
}

#[test]
fn legacy_license_backend_modes_are_rejected() {
    for mode in ["reference", "hosted"] {
        let mut src = sources();
        src.license_backend_mode = Some(mode.to_string());
        let err = failed(&src);
        assert!(err.message().starts_with("invalid LICENSE_BACKEND_MODE:"));
    }
}

#[test]
fn invalid_license_worker_integer_is_rejected() {
    let mut src = sources();
    src.license_worker_timeout_ms = Some("soon".to_string());
    let err = failed(&src);
    assert!(err.message().starts_with("invalid integer for LICENSE_WORKER_TIMEOUT_MS:"));
}

fn probed_sources(token: &str) -> ConfigSources {
    let mut src = sources();
    src.license_backend_mode = Some("devolens".to_string());
    src.devolens_base_url = Some("http://127.0.0.1:4815".to_string());
    src.devolens_access_token = Some(token.to_string());
    src.devolens_product_id = Some("1234".to_string());
    src
}

#[test]
fn devolens_token_safety_check_rejects_privileged_token() {
    let src = probed_sources("privileged-token");
    match load_config(&src, None) {
        ConfigStep::CheckToken { url, token } => {
            assert_eq!(url, "http://127.0.0.1:4815/api/product/GetProducts");
            assert_eq!(token, "privileged-token");
        }
        _ => panic!("the token probe should be requested"),
    }
    let privileged = token_reply_is_privileged("{\"result\":0,\"products\":[]}");
    assert!(privileged);
    match load_config(&src, Some(privileged)) {
        ConfigStep::Failed(err) => {
            assert!(err.message().contains("DEVOLENS_ACCESS_TOKEN"));
            assert!(err.message().contains("management scopes"));
        }
        _ => panic!("privileged token must be rejected"),
    }
}

#[test]
fn devolens_token_safety_check_accepts_client_only_token() {
    let src = probed_sources("client-token");
    assert!(matches!(load_config(&src, None), ConfigStep::CheckToken { .. }));
    let privileged = token_reply_is_privileged("{\"result\":1,\"message\":\"Access denied.\"}");
    assert!(!privileged);
    match load_config(&src, Some(privileged)) {
        ConfigStep::Loaded(cfg) => assert_eq!(cfg.devolens_access_token, "client-token"),
        _ => panic!("client-only token must be accepted"),
    }
}

#[test]
fn token_probe_is_skipped_when_switched_off() {
    let mut src = probed_sources("client-token");
    src.skip_token_safety_check = true;
    assert!(matches!(load_config(&src, None), ConfigStep::Loaded(_)));
}

#[test]
fn secure_store_secret_is_used_when_env_is_unset() {
    let mut src = with_required_devolens(sources());
    src.muapi_api_key_secure = Some("  stored-key  ".to_string());
    let cfg = loaded(&src);
    assert_eq!(cfg.muapi_api_key, "stored-key");
    assert_eq!(cfg.require_api_key().expect("key present"), "stored-key");
}
