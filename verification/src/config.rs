//! Application configuration: the licensing backend, its settings, and the
//! validation that decides whether a configuration may be used.
//!
//! Reading the process environment and the secure store is left to the
//! caller, which hands the raw values over in a `ConfigSources`.

use vstd::prelude::*;
use crate::errors::{ConfigError, ConfigErrorView};
use crate::numbers::{parse_u32_str, parse_u64_str, parse_unsigned};
use crate::text::{
    chars_of, concat2, contains_seq, contains_str, has_prefix, lower_chars, lower_seq,
    starts_with_str, strip_end_char, strip_end_char_chars, string_of, trim, trim_chars, trim_str,
};

verus! {

pub const PRODUCTION_LICENSE_WORKER_BASE_URL: &'static str = "https://license-worker.demandscout.workers.dev";

pub const DEFAULT_DEVOLENS_BASE_URL: &'static str = "https://api.cryptolens.io";

/// Which licensing backend the desktop client talks to.
#[derive(Debug, Clone, Copy, PartialEq, Eq, Structural)]
pub enum LicenseBackendMode {
    Reference,
    Hosted,
    Devolens,
    Mock,
}

pub open spec fn backend_mode_name(m: LicenseBackendMode) -> Seq<char> {
    match m {
        LicenseBackendMode::Reference => "reference"@,
        LicenseBackendMode::Hosted => "hosted"@,
        LicenseBackendMode::Devolens => "devolens"@,
        LicenseBackendMode::Mock => "mock"@,
    }
}

/// The backend mode a configured value selects: after trimming and ASCII
/// lower-casing it must read `devolens` or `mock`.  The legacy names
/// `reference` and `hosted` are no longer accepted.
pub open spec fn parse_backend_mode(value: Seq<char>) -> Option<LicenseBackendMode> {
    let n = lower_seq(trim(value));
    if n == "devolens"@ {
        Some(LicenseBackendMode::Devolens)
    } else if n == "mock"@ {
        Some(LicenseBackendMode::Mock)
    } else {
        None
    }
}

impl LicenseBackendMode {
    pub fn parse(value: &str) -> (r: Result<Self, ConfigError>)
        ensures
            match r {
                Ok(m) => parse_backend_mode(value@) == Some(m),
                Err(e) => parse_backend_mode(value@) is None && e@ == ConfigErrorView::InvalidLicenseBackendMode(value@),
            },
    {
        let v = chars_of(value);
        let t = trim_chars(&v);
        let l = lower_chars(&t);
        let n = string_of(l.as_slice());
        if n == "devolens".to_string() {
            Ok(LicenseBackendMode::Devolens)
        } else if n == "mock".to_string() {
            Ok(LicenseBackendMode::Mock)
        } else {
            Err(ConfigError::InvalidLicenseBackendMode { value: value.to_string() })
        }
    }

    pub fn as_str(self) -> (r: &'static str)
        ensures
            r@ == backend_mode_name(self),
    {
        match self {
            LicenseBackendMode::Reference => "reference",
            LicenseBackendMode::Hosted => "hosted",
            LicenseBackendMode::Devolens => "devolens",
            LicenseBackendMode::Mock => "mock",
        }
    }
}

/// The settings the license worker client is built from.
#[derive(Debug, Clone)]
pub struct LicenseWorkerConfig {
    pub backend_mode: LicenseBackendMode,
    pub base_url: String,
    pub storage_namespace: String,
    pub keychain_service: String,
    pub timeout_ms: u64,
    pub retry_attempts: u32,
    pub retry_backoff_ms: u64,
    pub circuit_breaker_failure_threshold: u32,
    pub circuit_breaker_cooldown_ms: u64,
    pub devolens_base_url: String,
    pub devolens_access_token: String,
    pub devolens_product_id: String,
}

/// The integer and text settings of the application.  The two MuAPI polling
/// durations, which are fractional seconds, are kept by the caller.
#[derive(Debug, Clone)]
pub struct Config {
    pub muapi_api_key: String,
    pub muapi_base_url: String,
    pub openai_api_key: String,
    pub openai_model: String,
    pub license_worker_base_url: String,
    pub license_storage_namespace: String,
    pub license_keychain_service: String,
    pub license_backend_mode: LicenseBackendMode,
    pub license_worker_timeout_ms: u64,
    pub license_worker_retry_attempts: u32,
    pub license_worker_retry_backoff_ms: u64,
    pub license_worker_circuit_breaker_failure_threshold: u32,
    pub license_worker_circuit_breaker_cooldown_ms: u64,
    pub devolens_base_url: String,
    pub devolens_access_token: String,
    pub devolens_product_id: String,
}

impl Config {
    /// The licensing part of the configuration.
    pub fn license_worker_config(&self) -> (r: LicenseWorkerConfig)
        ensures
            r.backend_mode == self.license_backend_mode,
            r.base_url@ == self.license_worker_base_url@,
            r.storage_namespace@ == self.license_storage_namespace@,
            r.keychain_service@ == self.license_keychain_service@,
            r.timeout_ms == self.license_worker_timeout_ms,
            r.retry_attempts == self.license_worker_retry_attempts,
            r.retry_backoff_ms == self.license_worker_retry_backoff_ms,
            r.circuit_breaker_failure_threshold
                == self.license_worker_circuit_breaker_failure_threshold,
            r.circuit_breaker_cooldown_ms == self.license_worker_circuit_breaker_cooldown_ms,
            r.devolens_base_url@ == self.devolens_base_url@,
            r.devolens_access_token@ == self.devolens_access_token@,
            r.devolens_product_id@ == self.devolens_product_id@,
    {
        LicenseWorkerConfig {
            backend_mode: self.license_backend_mode,
            base_url: self.license_worker_base_url.clone(),
            storage_namespace: self.license_storage_namespace.clone(),
            keychain_service: self.license_keychain_service.clone(),
            timeout_ms: self.license_worker_timeout_ms,
            retry_attempts: self.license_worker_retry_attempts,
            retry_backoff_ms: self.license_worker_retry_backoff_ms,
            circuit_breaker_failure_threshold: self.license_worker_circuit_breaker_failure_threshold,
            circuit_breaker_cooldown_ms: self.license_worker_circuit_breaker_cooldown_ms,
            devolens_base_url: self.devolens_base_url.clone(),
            devolens_access_token: self.devolens_access_token.clone(),
            devolens_product_id: self.devolens_product_id.clone(),
        }
    }

    /// The MuAPI key, which must not be empty.
    pub fn require_api_key(&self) -> (r: Result<String, ConfigError>)
        ensures
            self.muapi_api_key@.len() == 0 <==> r is Err,
            r matches Ok(k) ==> k@ == self.muapi_api_key@,
            r matches Err(e) ==> e@ == ConfigErrorView::MissingApiKey,
    {
        if self.muapi_api_key.as_str().is_empty() {
            return Err(ConfigError::MissingApiKey);
        }
        Ok(self.muapi_api_key.clone())
    }
}

/// Whether `url` names an HTTP endpoint.
pub open spec fn is_http_url(url: Seq<char>) -> bool {
    has_prefix(url, "http://"@) || has_prefix(url, "https://"@)
}

pub fn is_http_url_str(url: &str) -> (b: bool)
    ensures
        b == is_http_url(url@),
{
    starts_with_str(url, "http://") || starts_with_str(url, "https://")
}

pub open spec fn reason_http() -> Seq<char> {
    "must start with http:// or https://"@
}

pub open spec fn reason_devolens_required() -> Seq<char> {
    "must be set when LICENSE_BACKEND_MODE=devolens"@
}

pub open spec fn reason_management_scopes() -> Seq<char> {
    "Token has management scopes (CreateKey/BlockKey/GetKeys/GetProducts). Client token must only have Activate/Deactivate."@
}

pub open spec fn reason_not_empty() -> Seq<char> {
    "must not be empty"@
}

pub open spec fn reason_positive() -> Seq<char> {
    "must be greater than zero"@
}

/// The first of the checks of the license worker's endpoints and provider
/// credentials that fails, as (variable, reason).
pub open spec fn endpoint_violation(
    mode: LicenseBackendMode,
    base_url: Seq<char>,
    devolens_base_url: Seq<char>,
    devolens_access_token: Seq<char>,
    devolens_product_id: Seq<char>,
) -> Option<(Seq<char>, Seq<char>)> {
    if mode != LicenseBackendMode::Mock && !is_http_url(base_url) {
        Some(("LICENSE_WORKER_BASE_URL"@, reason_http()))
    } else if mode == LicenseBackendMode::Devolens && !is_http_url(devolens_base_url) {
        Some(("DEVOLENS_BASE_URL"@, reason_http()))
    } else if mode == LicenseBackendMode::Devolens && trim(devolens_access_token).len() == 0 {
        Some(("DEVOLENS_ACCESS_TOKEN"@, reason_devolens_required()))
    } else if mode == LicenseBackendMode::Devolens && trim(devolens_product_id).len() == 0 {
        Some(("DEVOLENS_PRODUCT_ID"@, reason_devolens_required()))
    } else {
        None
    }
}

/// The first check of the client-side storage and retry limits that fails.
pub open spec fn limits_violation(
    namespace: Seq<char>,
    keychain_service: Seq<char>,
    timeout_ms: u64,
    retry_attempts: u32,
    circuit_failure_threshold: u32,
) -> Option<(Seq<char>, Seq<char>)> {
    if trim(namespace).len() == 0 {
        Some(("LICENSE_STORAGE_NAMESPACE"@, reason_not_empty()))
    } else if trim(keychain_service).len() == 0 {
        Some(("LICENSE_KEYCHAIN_SERVICE"@, reason_not_empty()))
    } else if timeout_ms == 0 {
        Some(("LICENSE_WORKER_TIMEOUT_MS"@, reason_positive()))
    } else if retry_attempts == 0 {
        Some(("LICENSE_WORKER_RETRY_ATTEMPTS"@, reason_positive()))
    } else if circuit_failure_threshold == 0 {
        Some(("LICENSE_WORKER_CIRCUIT_FAILURE_THRESHOLD"@, reason_positive()))
    } else {
        None
    }
}

/// The first violated rule of a license worker configuration, in the order
/// in which the rules are checked.  `privileged_token` says that the Devolens
/// token safety check ran and found management scopes on the token.
pub open spec fn license_config_violation(
    mode: LicenseBackendMode,
    base_url: Seq<char>,
    devolens_base_url: Seq<char>,
    devolens_access_token: Seq<char>,
    devolens_product_id: Seq<char>,
    namespace: Seq<char>,
    keychain_service: Seq<char>,
    timeout_ms: u64,
    retry_attempts: u32,
    circuit_failure_threshold: u32,
    privileged_token: bool,
) -> Option<(Seq<char>, Seq<char>)> {
    let e = endpoint_violation(
        mode,
        base_url,
        devolens_base_url,
        devolens_access_token,
        devolens_product_id,
    );
    if e is Some {
        e
    } else if mode == LicenseBackendMode::Devolens && privileged_token {
        Some(("DEVOLENS_ACCESS_TOKEN"@, reason_management_scopes()))
    } else {
        limits_violation(
            namespace,
            keychain_service,
            timeout_ms,
            retry_attempts,
            circuit_failure_threshold,
        )
    }
}

/// Whether `e` is the configuration error for `var_name` with `reason`.
pub open spec fn is_value_error(e: ConfigError, var_name: Seq<char>, reason: Seq<char>) -> bool {
    e@ == ConfigErrorView::InvalidConfigValue(var_name, reason)
}

fn value_error(var_name: &str, reason: &str) -> (e: ConfigError)
    ensures
        is_value_error(e, var_name@, reason@),
{
    ConfigError::InvalidConfigValue { var_name: var_name.to_string(), reason: reason.to_string() }
}

fn is_blank(s: &str) -> (b: bool)
    ensures
        b == (trim(s@).len() == 0),
{
    let v = chars_of(s);
    let t = trim_chars(&v);
    t.len() == 0
}

/// The checks of the worker endpoints and of the provider credentials.
pub fn validate_license_worker_endpoints(
    mode: LicenseBackendMode,
    base_url: &str,
    devolens_base_url: &str,
    devolens_access_token: &str,
    devolens_product_id: &str,
) -> (r: Result<(), ConfigError>)
    ensures
        match endpoint_violation(
            mode,
            base_url@,
            devolens_base_url@,
            devolens_access_token@,
            devolens_product_id@,
        ) {
            None => r is Ok,
            Some((v, reason)) => r matches Err(e) && is_value_error(e, v, reason),
        },
{
    if mode != LicenseBackendMode::Mock && !is_http_url_str(base_url) {
        return Err(value_error("LICENSE_WORKER_BASE_URL", "must start with http:// or https://"));
    }
    if mode == LicenseBackendMode::Devolens && !is_http_url_str(devolens_base_url) {
        return Err(value_error("DEVOLENS_BASE_URL", "must start with http:// or https://"));
    }
    if mode == LicenseBackendMode::Devolens && is_blank(devolens_access_token) {
        return Err(
            value_error(
                "DEVOLENS_ACCESS_TOKEN",
                "must be set when LICENSE_BACKEND_MODE=devolens",
            ),
        );
    }
    if mode == LicenseBackendMode::Devolens && is_blank(devolens_product_id) {
        return Err(
            value_error("DEVOLENS_PRODUCT_ID", "must be set when LICENSE_BACKEND_MODE=devolens"),
        );
    }
    Ok(())
}

/// Checks a license worker configuration: the endpoints and provider
/// credentials, the outcome of the Devolens token safety check, then the
/// storage and retry limits.  The first rule that fails gives the error.
pub fn validate_license_worker_config(
    mode: LicenseBackendMode,
    base_url: &str,
    devolens_base_url: &str,
    devolens_access_token: &str,
    devolens_product_id: &str,
    namespace: &str,
    keychain_service: &str,
    timeout_ms: u64,
    retry_attempts: u32,
    circuit_failure_threshold: u32,
    privileged_token: bool,
) -> (r: Result<(), ConfigError>)
    ensures
        match license_config_violation(
            mode,
            base_url@,
            devolens_base_url@,
            devolens_access_token@,
            devolens_product_id@,
            namespace@,
            keychain_service@,
            timeout_ms,
            retry_attempts,
            circuit_failure_threshold,
            privileged_token,
        ) {
            None => r is Ok,
            Some((v, reason)) => r matches Err(e) && is_value_error(e, v, reason),
        },
{
    validate_license_worker_endpoints(
        mode,
        base_url,
        devolens_base_url,
        devolens_access_token,
        devolens_product_id,
    )?;
    if mode == LicenseBackendMode::Devolens && privileged_token {
        return Err(
            value_error(
                "DEVOLENS_ACCESS_TOKEN",
                "Token has management scopes (CreateKey/BlockKey/GetKeys/GetProducts). Client token must only have Activate/Deactivate.",
            ),
        );
    }
    if is_blank(namespace) {
        return Err(value_error("LICENSE_STORAGE_NAMESPACE", "must not be empty"));
    }
    if is_blank(keychain_service) {
        return Err(value_error("LICENSE_KEYCHAIN_SERVICE", "must not be empty"));
    }
    if timeout_ms == 0 {
        return Err(value_error("LICENSE_WORKER_TIMEOUT_MS", "must be greater than zero"));
    }
    if retry_attempts == 0 {
        return Err(value_error("LICENSE_WORKER_RETRY_ATTEMPTS", "must be greater than zero"));
    }
    if circuit_failure_threshold == 0 {
        return Err(
            value_error("LICENSE_WORKER_CIRCUIT_FAILURE_THRESHOLD", "must be greater than zero"),
        );
    }
    Ok(())
}

/// Whether the reply of the Devolens `GetProducts` probe shows that the
/// token was accepted for a management call (`"result":0`).
pub open spec fn reply_shows_management_scope(reply: Seq<char>) -> bool {
    contains_seq(reply, "\"result\":0"@) || contains_seq(reply, "\"result\": 0"@)
}

pub fn token_reply_is_privileged(reply: &str) -> (b: bool)
    ensures
        b == reply_shows_management_scope(reply@),
{
    contains_str(reply, "\"result\":0") || contains_str(reply, "\"result\": 0")
}


/// The raw values a configuration is read from: each environment variable
/// as it was found (`None` when unset), the secure-store fallbacks of the
/// three secrets, whether the polling durations parse as decimal numbers,
/// and whether the Devolens token safety check is switched off.
pub struct ConfigSources {
    pub muapi_api_key: Option<String>,
    pub muapi_api_key_secure: Option<String>,
    pub muapi_base_url: Option<String>,
    pub muapi_poll_interval: Option<String>,
    pub muapi_poll_interval_is_number: bool,
    pub muapi_poll_timeout: Option<String>,
    pub muapi_poll_timeout_is_number: bool,
    pub openai_api_key: Option<String>,
    pub openai_api_key_secure: Option<String>,
    pub openai_model: Option<String>,
    pub license_worker_base_url: Option<String>,
    pub license_storage_namespace: Option<String>,
    pub license_keychain_service: Option<String>,
    pub license_backend_mode: Option<String>,
    pub license_worker_timeout_ms: Option<String>,
    pub license_worker_retry_attempts: Option<String>,
    pub license_worker_retry_backoff_ms: Option<String>,
    pub license_worker_circuit_failure_threshold: Option<String>,
    pub license_worker_circuit_cooldown_ms: Option<String>,
    pub devolens_base_url: Option<String>,
    pub devolens_access_token: Option<String>,
    pub devolens_access_token_secure: Option<String>,
    pub devolens_product_id: Option<String>,
    pub skip_token_safety_check: bool,
}

/// The value of a variable, or `default` when it is unset.
pub open spec fn raw_or(v: Option<String>, default: Seq<char>) -> Seq<char> {
    match v {
        Some(s) => s@,
        None => default,
    }
}

/// A setting read trimmed, with a default.
pub open spec fn setting(v: Option<String>, default: Seq<char>) -> Seq<char> {
    trim(raw_or(v, default))
}

/// A URL setting: trimmed, without trailing slashes.
pub open spec fn url_setting(v: Option<String>, default: Seq<char>) -> Seq<char> {
    strip_end_char(setting(v, default), '/')
}

/// A secret: the trimmed variable when set, else the trimmed secure-store
/// value when it is not blank, else `default`.
pub open spec fn secret_setting(env: Option<String>, secure: Option<String>, default: Seq<char>) -> Seq<char> {
    match env {
        Some(s) => trim(s@),
        None => match secure {
            Some(t) => if trim(t@).len() > 0 {
                trim(t@)
            } else {
                default
            },
            None => default,
        },
    }
}

/// The first error in reading the settings, before validation.
pub open spec fn settings_fault(src: ConfigSources) -> Option<ConfigErrorView> {
    if !src.muapi_poll_interval_is_number {
        Some(ConfigErrorView::InvalidFloat("MUAPI_POLL_INTERVAL"@, raw_or(src.muapi_poll_interval, "5"@)))
    } else if !src.muapi_poll_timeout_is_number {
        Some(ConfigErrorView::InvalidFloat("MUAPI_POLL_TIMEOUT"@, raw_or(src.muapi_poll_timeout, "600"@)))
    } else if parse_backend_mode(setting(src.license_backend_mode, "devolens"@)) is None {
        Some(ConfigErrorView::InvalidLicenseBackendMode(setting(src.license_backend_mode, "devolens"@)))
    } else if parse_unsigned(raw_or(src.license_worker_timeout_ms, "10000"@), u64::MAX as nat) is None {
        Some(ConfigErrorView::InvalidInteger("LICENSE_WORKER_TIMEOUT_MS"@, raw_or(src.license_worker_timeout_ms, "10000"@)))
    } else if parse_unsigned(raw_or(src.license_worker_retry_attempts, "2"@), u32::MAX as nat) is None {
        Some(ConfigErrorView::InvalidInteger("LICENSE_WORKER_RETRY_ATTEMPTS"@, raw_or(src.license_worker_retry_attempts, "2"@)))
    } else if parse_unsigned(raw_or(src.license_worker_retry_backoff_ms, "150"@), u64::MAX as nat) is None {
        Some(ConfigErrorView::InvalidInteger("LICENSE_WORKER_RETRY_BACKOFF_MS"@, raw_or(src.license_worker_retry_backoff_ms, "150"@)))
    } else if parse_unsigned(raw_or(src.license_worker_circuit_failure_threshold, "3"@), u32::MAX as nat) is None {
        Some(ConfigErrorView::InvalidInteger("LICENSE_WORKER_CIRCUIT_FAILURE_THRESHOLD"@, raw_or(src.license_worker_circuit_failure_threshold, "3"@)))
    } else if parse_unsigned(raw_or(src.license_worker_circuit_cooldown_ms, "30000"@), u64::MAX as nat) is None {
        Some(ConfigErrorView::InvalidInteger("LICENSE_WORKER_CIRCUIT_COOLDOWN_MS"@, raw_or(src.license_worker_circuit_cooldown_ms, "30000"@)))
    } else {
        None
    }
}

/// Whether the settings `c` are the ones `src` gives.
pub open spec fn settings_read_from(c: Config, src: ConfigSources) -> bool {
    &&& c.muapi_api_key@ == secret_setting(src.muapi_api_key, src.muapi_api_key_secure, seq![])
    &&& c.muapi_base_url@ == url_setting(src.muapi_base_url, "https://api.muapi.ai/api/v1"@)
    &&& c.openai_api_key@ == secret_setting(src.openai_api_key, src.openai_api_key_secure, seq![])
    &&& c.openai_model@ == setting(src.openai_model, "gpt-4o-mini"@)
    &&& c.license_worker_base_url@ == url_setting(src.license_worker_base_url, "https://license-worker.demandscout.workers.dev"@)
    &&& c.license_storage_namespace@ == setting(src.license_storage_namespace, "desktop-client"@)
    &&& c.license_keychain_service@ == setting(src.license_keychain_service, "ai-youtube-shorts-generator"@)
    &&& Some(c.license_backend_mode) == parse_backend_mode(setting(src.license_backend_mode, "devolens"@))
    &&& parse_unsigned(raw_or(src.license_worker_timeout_ms, "10000"@), u64::MAX as nat) == Some(c.license_worker_timeout_ms as nat)
    &&& parse_unsigned(raw_or(src.license_worker_retry_attempts, "2"@), u32::MAX as nat) == Some(c.license_worker_retry_attempts as nat)
    &&& parse_unsigned(raw_or(src.license_worker_retry_backoff_ms, "150"@), u64::MAX as nat) == Some(c.license_worker_retry_backoff_ms as nat)
    &&& parse_unsigned(raw_or(src.license_worker_circuit_failure_threshold, "3"@), u32::MAX as nat) == Some(c.license_worker_circuit_breaker_failure_threshold as nat)
    &&& parse_unsigned(raw_or(src.license_worker_circuit_cooldown_ms, "30000"@), u64::MAX as nat) == Some(c.license_worker_circuit_breaker_cooldown_ms as nat)
    &&& c.devolens_base_url@ == url_setting(src.devolens_base_url, "https://api.cryptolens.io"@)
    &&& c.devolens_access_token@ == secret_setting(src.devolens_access_token, src.devolens_access_token_secure, seq![])
    &&& c.devolens_product_id@ == setting(src.devolens_product_id, seq![])
}

/// The license settings read from set variables: text settings trimmed,
/// URLs also without trailing slashes, the backend mode named in any letter
/// case with surrounding blanks, and each number as written.
pub proof fn law_license_settings_are_read_trimmed(c: Config, src: ConfigSources)
    requires
        settings_read_from(c, src),
    ensures
        src.license_worker_base_url matches Some(a) ==> c.license_worker_base_url@ == strip_end_char(trim(a@), '/'),
        src.devolens_base_url matches Some(d) ==> c.devolens_base_url@ == strip_end_char(trim(d@), '/'),
        src.license_storage_namespace matches Some(n) ==> c.license_storage_namespace@ == trim(n@),
        src.license_keychain_service matches Some(k) ==> c.license_keychain_service@ == trim(k@),
        src.devolens_access_token matches Some(t) ==> c.devolens_access_token@ == trim(t@),
        src.devolens_product_id matches Some(p) ==> c.devolens_product_id@ == trim(p@),
        src.license_backend_mode matches Some(m) && lower_seq(trim(trim(m@))) == "devolens"@
            ==> c.license_backend_mode == LicenseBackendMode::Devolens,
        src.license_worker_timeout_ms matches Some(x) ==> parse_unsigned(x@, u64::MAX as nat) == Some(
            c.license_worker_timeout_ms as nat,
        ),
        src.license_worker_retry_attempts matches Some(x) ==> parse_unsigned(x@, u32::MAX as nat) == Some(
            c.license_worker_retry_attempts as nat,
        ),
        src.license_worker_retry_backoff_ms matches Some(x) ==> parse_unsigned(x@, u64::MAX as nat) == Some(
            c.license_worker_retry_backoff_ms as nat,
        ),
        src.license_worker_circuit_failure_threshold matches Some(x) ==> parse_unsigned(x@, u32::MAX as nat)
            == Some(c.license_worker_circuit_breaker_failure_threshold as nat),
        src.license_worker_circuit_cooldown_ms matches Some(x) ==> parse_unsigned(x@, u64::MAX as nat)
            == Some(c.license_worker_circuit_breaker_cooldown_ms as nat),
{
}

fn read_setting(v: &Option<String>, default: &str) -> (r: String)
    ensures
        r@ == setting(*v, default@),
{
    match v {
        Some(s) => trim_str(s.as_str()),
        None => trim_str(default),
    }
}

fn read_url_setting(v: &Option<String>, default: &str) -> (r: String)
    ensures
        r@ == url_setting(*v, default@),
{
    let t = read_setting(v, default);
    let c = chars_of(t.as_str());
    let u = strip_end_char_chars(&c, '/');
    string_of(u.as_slice())
}

fn read_secret_setting(env: &Option<String>, secure: &Option<String>) -> (r: String)
    ensures
        r@ == secret_setting(*env, *secure, seq![]),
{
    match env {
        Some(s) => trim_str(s.as_str()),
        None => match secure {
            Some(t) => {
                let tt = trim_str(t.as_str());
                if tt.as_str().is_empty() {
                    String::new()
                } else {
                    tt
                }
            },
            None => String::new(),
        },
    }
}

fn raw_setting(v: &Option<String>, default: &str) -> (r: String)
    ensures
        r@ == raw_or(*v, default@),
{
    match v {
        Some(s) => s.clone(),
        None => default.to_string(),
    }
}

fn integer_error(var_name: &str, value: String) -> (e: ConfigError)
    ensures
        e@ == ConfigErrorView::InvalidInteger(var_name@, value@),
{
    ConfigError::InvalidInteger { var_name: var_name.to_string(), value }
}

/// Reads the settings from their raw values, before validation.
pub fn read_settings(src: &ConfigSources) -> (r: Result<Config, ConfigError>)
    ensures
        match r {
            Ok(c) => settings_fault(*src) is None && settings_read_from(c, *src),
            Err(e) => settings_fault(*src) == Some(e@),
        },
{
    let muapi_api_key = read_secret_setting(&src.muapi_api_key, &src.muapi_api_key_secure);
    let muapi_base_url = read_url_setting(&src.muapi_base_url, "https://api.muapi.ai/api/v1");
    if !src.muapi_poll_interval_is_number {
        return Err(ConfigError::InvalidFloat {
            var_name: "MUAPI_POLL_INTERVAL".to_string(),
            value: raw_setting(&src.muapi_poll_interval, "5"),
        });
    }
    if !src.muapi_poll_timeout_is_number {
        return Err(ConfigError::InvalidFloat {
            var_name: "MUAPI_POLL_TIMEOUT".to_string(),
            value: raw_setting(&src.muapi_poll_timeout, "600"),
        });
    }
    let openai_api_key = read_secret_setting(&src.openai_api_key, &src.openai_api_key_secure);
    let openai_model = read_setting(&src.openai_model, "gpt-4o-mini");
    let license_worker_base_url = read_url_setting(
        &src.license_worker_base_url,
        "https://license-worker.demandscout.workers.dev",
    );
    let license_storage_namespace = read_setting(&src.license_storage_namespace, "desktop-client");
    let license_keychain_service = read_setting(
        &src.license_keychain_service,
        "ai-youtube-shorts-generator",
    );
    let mode_text = read_setting(&src.license_backend_mode, "devolens");
    let license_backend_mode = LicenseBackendMode::parse(mode_text.as_str())?;
    let raw = raw_setting(&src.license_worker_timeout_ms, "10000");
    let license_worker_timeout_ms = match parse_u64_str(raw.as_str()) {
        Some(v) => v,
        None => return Err(integer_error("LICENSE_WORKER_TIMEOUT_MS", raw)),
    };
    let raw = raw_setting(&src.license_worker_retry_attempts, "2");
    let license_worker_retry_attempts = match parse_u32_str(raw.as_str()) {
        Some(v) => v,
        None => return Err(integer_error("LICENSE_WORKER_RETRY_ATTEMPTS", raw)),
    };
    let raw = raw_setting(&src.license_worker_retry_backoff_ms, "150");
    let license_worker_retry_backoff_ms = match parse_u64_str(raw.as_str()) {
        Some(v) => v,
        None => return Err(integer_error("LICENSE_WORKER_RETRY_BACKOFF_MS", raw)),
    };
    let raw = raw_setting(&src.license_worker_circuit_failure_threshold, "3");
    let license_worker_circuit_breaker_failure_threshold = match parse_u32_str(raw.as_str()) {
        Some(v) => v,
        None => return Err(integer_error("LICENSE_WORKER_CIRCUIT_FAILURE_THRESHOLD", raw)),
    };
    let raw = raw_setting(&src.license_worker_circuit_cooldown_ms, "30000");
    let license_worker_circuit_breaker_cooldown_ms = match parse_u64_str(raw.as_str()) {
        Some(v) => v,
        None => return Err(integer_error("LICENSE_WORKER_CIRCUIT_COOLDOWN_MS", raw)),
    };
    let devolens_base_url = read_url_setting(&src.devolens_base_url, "https://api.cryptolens.io");
    let devolens_access_token = read_secret_setting(
        &src.devolens_access_token,
        &src.devolens_access_token_secure,
    );
    let devolens_product_id = read_setting(&src.devolens_product_id, "");
    proof {
        reveal_strlit("");
    }
    let c = Config {
        muapi_api_key,
        muapi_base_url,
        openai_api_key,
        openai_model,
        license_worker_base_url,
        license_storage_namespace,
        license_keychain_service,
        license_backend_mode,
        license_worker_timeout_ms,
        license_worker_retry_attempts,
        license_worker_retry_backoff_ms,
        license_worker_circuit_breaker_failure_threshold,
        license_worker_circuit_breaker_cooldown_ms,
        devolens_base_url,
        devolens_access_token,
        devolens_product_id,
    };
    assert(settings_fault(*src) is None);
    assert(c.muapi_api_key@ == secret_setting(src.muapi_api_key, src.muapi_api_key_secure, seq![]));
    assert(c.muapi_base_url@ == url_setting(src.muapi_base_url, "https://api.muapi.ai/api/v1"@));
    assert(c.openai_model@ == setting(src.openai_model, "gpt-4o-mini"@));
    assert(c.license_worker_base_url@ == url_setting(src.license_worker_base_url, "https://license-worker.demandscout.workers.dev"@));
    assert(Some(c.license_backend_mode) == parse_backend_mode(setting(src.license_backend_mode, "devolens"@)));
    assert(c.devolens_product_id@ == setting(src.devolens_product_id, seq![]));
    Ok(c)
}

/// What loading a configuration comes to: the configuration, the error, or
/// a request to run the Devolens token safety probe against `url` with
/// `token` before loading can finish.
pub enum ConfigStep {
    Loaded(Config),
    Failed(ConfigError),
    CheckToken { url: String, token: String },
}

/// Whether loading `c` runs the token safety probe: in Devolens mode, when
/// the probe is not switched off, the endpoint checks pass and the token is
/// not blank.
pub open spec fn token_probe_needed(c: Config, skip: bool) -> bool {
    &&& c.license_backend_mode == LicenseBackendMode::Devolens
    &&& !skip
    &&& endpoint_violation(
        c.license_backend_mode,
        c.license_worker_base_url@,
        c.devolens_base_url@,
        c.devolens_access_token@,
        c.devolens_product_id@,
    ) is None
    &&& trim(c.devolens_access_token@).len() > 0
}

/// The URL the token safety probe posts to.
pub open spec fn token_probe_url(c: Config) -> Seq<char> {
    strip_end_char(c.devolens_base_url@, '/') + "/api/product/GetProducts"@
}

/// The configuration violation for settings `c` and a probe verdict.
pub open spec fn config_violation(c: Config, privileged: bool) -> Option<(Seq<char>, Seq<char>)> {
    license_config_violation(
        c.license_backend_mode,
        c.license_worker_base_url@,
        c.devolens_base_url@,
        c.devolens_access_token@,
        c.devolens_product_id@,
        c.license_storage_namespace@,
        c.license_keychain_service@,
        c.license_worker_timeout_ms,
        c.license_worker_retry_attempts,
        c.license_worker_circuit_breaker_failure_threshold,
        privileged,
    )
}

/// A URL the license settings accept: one that starts with `http://` or
/// `https://`.
pub open spec fn web_url(u: Seq<char>) -> bool {
    has_prefix(u, "http://"@) || has_prefix(u, "https://"@)
}

/// In Devolens mode, with a worker URL that is a web URL, a Devolens base
/// URL that is not one is refused with the `DEVOLENS_BASE_URL` error, before
/// any other rule and whatever the token probe found; such settings never
/// ask for the token probe. Conversely, that error comes only in Devolens
/// mode, for a base URL that is not a web URL; and outside the mock mode a
/// worker URL that is not a web URL is refused first.
pub proof fn law_devolens_base_url_must_be_a_web_url(c: Config, privileged: bool, skip: bool)
    ensures
        c.license_backend_mode == LicenseBackendMode::Devolens && web_url(c.license_worker_base_url@)
            && !web_url(c.devolens_base_url@) ==> config_violation(c, privileged) == Some(
            ("DEVOLENS_BASE_URL"@, "must start with http:// or https://"@),
        ) && !token_probe_needed(c, skip),
        config_violation(c, privileged) == Some(("DEVOLENS_BASE_URL"@, "must start with http:// or https://"@))
            ==> c.license_backend_mode == LicenseBackendMode::Devolens && !web_url(c.devolens_base_url@),
        c.license_backend_mode != LicenseBackendMode::Mock && !web_url(c.license_worker_base_url@)
            ==> config_violation(c, privileged) == Some(
            ("LICENSE_WORKER_BASE_URL"@, "must start with http:// or https://"@),
        ),
{
    reveal_strlit("DEVOLENS_BASE_URL");
    reveal_strlit("LICENSE_WORKER_BASE_URL");
    reveal_strlit("DEVOLENS_ACCESS_TOKEN");
    reveal_strlit("DEVOLENS_PRODUCT_ID");
    reveal_strlit("LICENSE_STORAGE_NAMESPACE");
    reveal_strlit("LICENSE_KEYCHAIN_SERVICE");
    reveal_strlit("LICENSE_WORKER_TIMEOUT_MS");
    reveal_strlit("LICENSE_WORKER_RETRY_ATTEMPTS");
    reveal_strlit("LICENSE_WORKER_CIRCUIT_FAILURE_THRESHOLD");
    let d = "DEVOLENS_BASE_URL"@;
    assert(d.len() == 17);
    assert("LICENSE_WORKER_BASE_URL"@.len() != d.len());
    assert("DEVOLENS_ACCESS_TOKEN"@.len() != d.len());
    assert("DEVOLENS_PRODUCT_ID"@.len() != d.len());
    assert("LICENSE_STORAGE_NAMESPACE"@.len() != d.len());
    assert("LICENSE_KEYCHAIN_SERVICE"@.len() != d.len());
    assert("LICENSE_WORKER_TIMEOUT_MS"@.len() != d.len());
    assert("LICENSE_WORKER_RETRY_ATTEMPTS"@.len() != d.len());
    assert("LICENSE_WORKER_CIRCUIT_FAILURE_THRESHOLD"@.len() != d.len());
}

/// The endpoints of `c` pass: a web URL for the worker outside the mock
/// mode; in Devolens mode also a web URL for Devolens and a non-blank token
/// and product id.
pub open spec fn endpoints_pass(c: Config) -> bool {
    &&& c.license_backend_mode != LicenseBackendMode::Mock ==> web_url(c.license_worker_base_url@)
    &&& c.license_backend_mode == LicenseBackendMode::Devolens ==> web_url(c.devolens_base_url@) && trim(
        c.devolens_access_token@,
    ).len() > 0 && trim(c.devolens_product_id@).len() > 0
}

/// The license settings are checked in order: in Devolens mode (past the
/// URLs) a blank token, then a blank product id, are refused as required;
/// once the endpoints pass, a token found to carry management scopes is
/// refused, then a blank storage namespace or keychain service, and a zero
/// timeout, retry count or failure threshold. Settings that pass all of
/// these are accepted.
pub proof fn law_license_settings_checked_in_order(c: Config, privileged: bool)
    ensures
        c.license_backend_mode == LicenseBackendMode::Devolens && web_url(c.license_worker_base_url@)
            && web_url(c.devolens_base_url@) && trim(c.devolens_access_token@).len() == 0 ==> config_violation(
            c,
            privileged,
        ) == Some(("DEVOLENS_ACCESS_TOKEN"@, "must be set when LICENSE_BACKEND_MODE=devolens"@)),
        c.license_backend_mode == LicenseBackendMode::Devolens && web_url(c.license_worker_base_url@)
            && web_url(c.devolens_base_url@) && trim(c.devolens_access_token@).len() > 0 && trim(
            c.devolens_product_id@,
        ).len() == 0 ==> config_violation(c, privileged) == Some(
            ("DEVOLENS_PRODUCT_ID"@, "must be set when LICENSE_BACKEND_MODE=devolens"@),
        ),
        endpoints_pass(c) && c.license_backend_mode == LicenseBackendMode::Devolens && privileged
            ==> config_violation(c, privileged) == Some(
            (
                "DEVOLENS_ACCESS_TOKEN"@,
                "Token has management scopes (CreateKey/BlockKey/GetKeys/GetProducts). Client token must only have Activate/Deactivate."@,
            ),
        ),
        endpoints_pass(c) && !(c.license_backend_mode == LicenseBackendMode::Devolens && privileged) ==> {
            &&& trim(c.license_storage_namespace@).len() == 0 ==> config_violation(c, privileged) == Some(
                ("LICENSE_STORAGE_NAMESPACE"@, "must not be empty"@),
            )
            &&& trim(c.license_storage_namespace@).len() > 0 && trim(c.license_keychain_service@).len() == 0
                ==> config_violation(c, privileged) == Some(("LICENSE_KEYCHAIN_SERVICE"@, "must not be empty"@))
            &&& trim(c.license_storage_namespace@).len() > 0 && trim(c.license_keychain_service@).len() > 0
                && c.license_worker_timeout_ms == 0 ==> config_violation(c, privileged) == Some(
                ("LICENSE_WORKER_TIMEOUT_MS"@, "must be greater than zero"@),
            )
            &&& trim(c.license_storage_namespace@).len() > 0 && trim(c.license_keychain_service@).len() > 0
                && c.license_worker_timeout_ms > 0 && c.license_worker_retry_attempts == 0 ==> config_violation(
                c,
                privileged,
            ) == Some(("LICENSE_WORKER_RETRY_ATTEMPTS"@, "must be greater than zero"@))
            &&& trim(c.license_storage_namespace@).len() > 0 && trim(c.license_keychain_service@).len() > 0
                && c.license_worker_timeout_ms > 0 && c.license_worker_retry_attempts > 0
                && c.license_worker_circuit_breaker_failure_threshold == 0 ==> config_violation(c, privileged)
                == Some(("LICENSE_WORKER_CIRCUIT_FAILURE_THRESHOLD"@, "must be greater than zero"@))
            &&& trim(c.license_storage_namespace@).len() > 0 && trim(c.license_keychain_service@).len() > 0
                && c.license_worker_timeout_ms > 0 && c.license_worker_retry_attempts > 0
                && c.license_worker_circuit_breaker_failure_threshold > 0 ==> config_violation(c, privileged)
                is None
        },
{
}

/// One step of loading the configuration from `src`.  `probe` is the
/// verdict of the token safety probe when it has run (`true`: the token has
/// management scopes).  Without a verdict, a configuration that needs the
/// probe asks for it; with one, the verdict decides.
pub fn load_config(src: &ConfigSources, probe: Option<bool>) -> (r: ConfigStep)
    ensures
        match r {
            ConfigStep::Failed(e) => match settings_fault(*src) {
                Some(f) => e@ == f,
                None => exists|c: Config| #[trigger] settings_read_from(c, *src) && (
                    config_violation(c, token_probe_needed(c, src.skip_token_safety_check) && probe == Some(true))
                    matches Some((v, reason)) && e@ == ConfigErrorView::InvalidConfigValue(v, reason)),
            },
            ConfigStep::Loaded(c) => settings_fault(*src) is None && settings_read_from(c, *src)
                && (token_probe_needed(c, src.skip_token_safety_check) ==> probe is Some)
                && config_violation(c, token_probe_needed(c, src.skip_token_safety_check) && probe == Some(true)) is None,
            ConfigStep::CheckToken { url, token } => probe is None && settings_fault(*src) is None
                && exists|c: Config| #[trigger] settings_read_from(c, *src)
                    && token_probe_needed(c, src.skip_token_safety_check)
                    && url@ == token_probe_url(c) && token@ == trim(c.devolens_access_token@),
        },
{
    let c = match read_settings(src) {
        Ok(c) => c,
        Err(e) => return ConfigStep::Failed(e),
    };
    let endpoints_ok = validate_license_worker_endpoints(
        c.license_backend_mode,
        c.license_worker_base_url.as_str(),
        c.devolens_base_url.as_str(),
        c.devolens_access_token.as_str(),
        c.devolens_product_id.as_str(),
    ).is_ok();
    let needed = c.license_backend_mode == LicenseBackendMode::Devolens
        && !src.skip_token_safety_check && endpoints_ok && !is_blank(
        c.devolens_access_token.as_str(),
    );
    if needed && probe.is_none() {
        let base = chars_of(c.devolens_base_url.as_str());
        let stripped = strip_end_char_chars(&base, '/');
        let s = string_of(stripped.as_slice());
        let url = concat2(s.as_str(), "/api/product/GetProducts");
        let token = trim_str(c.devolens_access_token.as_str());
        return ConfigStep::CheckToken { url, token };
    }
    let privileged = needed && match probe {
        Some(b) => b,
        None => false,
    };
    match validate_license_worker_config(
        c.license_backend_mode,
        c.license_worker_base_url.as_str(),
        c.devolens_base_url.as_str(),
        c.devolens_access_token.as_str(),
        c.devolens_product_id.as_str(),
        c.license_storage_namespace.as_str(),
        c.license_keychain_service.as_str(),
        c.license_worker_timeout_ms,
        c.license_worker_retry_attempts,
        c.license_worker_circuit_breaker_failure_threshold,
        privileged,
    ) {
        Ok(()) => ConfigStep::Loaded(c),
        Err(e) => ConfigStep::Failed(e),
    }
}

} // verus!
