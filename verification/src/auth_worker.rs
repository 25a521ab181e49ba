//! The license worker client: which backend serves the licensing calls, the
//! retry and circuit-breaker policy wrapped around every call, and the
//! decisions of the Devolens provider client.
//!
//! The network calls, the waiting between attempts and the clock stay with
//! the caller; the functions here decide what each outcome leads to.

use vstd::prelude::*;
use crate::config::{LicenseBackendMode, LicenseWorkerConfig};
use crate::hex::{hex_digit, hex_lower, sha256_digest, sha256_hex};
use crate::licensing::{
    ActivationRequest, AuthError, BoundDeviceSummary, DeviceResetRequest, DeviceResetStatus,
    EntitlementStatus, ValidationOutcome,
};
use crate::numbers::saturating_sub_i64;
use crate::runtime_paths::{join_name, path_join};
use crate::secret_store::RuntimeDeviceIdentityProvider;
use crate::text::{
    chars_of, concat2, dec, dec_int, has_prefix, i64_to_string, starts_with_str, string_of,
    strip_end_char, strip_end_char_chars, trim, trim_str,
};
use vstd::string::StringSliceAdditionalSpecFns;
use vstd::utf8::encode_utf8;

verus! {

#[derive(Clone, Debug, PartialEq, Eq)]
pub struct WorkerRetryPolicy {
    pub max_attempts: u32,
    pub backoff_ms: u64,
}

#[derive(Clone, Debug, PartialEq, Eq)]
pub struct WorkerCircuitBreakerPolicy {
    pub failure_threshold: u32,
    pub cooldown_ms: u64,
}

/// How calls to the license worker are bounded, retried and cut off.
#[derive(Clone, Debug, PartialEq, Eq)]
pub struct WorkerClientPolicy {
    pub timeout_ms: u64,
    pub retry: WorkerRetryPolicy,
    pub circuit_breaker: WorkerCircuitBreakerPolicy,
}

impl WorkerClientPolicy {
    pub fn from_config(config: &LicenseWorkerConfig) -> (r: Self)
        ensures
            r.timeout_ms == config.timeout_ms,
            r.retry.max_attempts == config.retry_attempts,
            r.retry.backoff_ms == config.retry_backoff_ms,
            r.circuit_breaker.failure_threshold == config.circuit_breaker_failure_threshold,
            r.circuit_breaker.cooldown_ms == config.circuit_breaker_cooldown_ms,
    {
        WorkerClientPolicy {
            timeout_ms: config.timeout_ms,
            retry: WorkerRetryPolicy {
                max_attempts: config.retry_attempts,
                backoff_ms: config.retry_backoff_ms,
            },
            circuit_breaker: WorkerCircuitBreakerPolicy {
                failure_threshold: config.circuit_breaker_failure_threshold,
                cooldown_ms: config.circuit_breaker_cooldown_ms,
            },
        }
    }
}

/// The error codes of the worker contract.
#[derive(Clone, Copy, Debug, PartialEq, Eq, Structural)]
pub enum WorkerContractErrorCode {
    InvalidLicenseKey,
    InvalidPurchaseEmail,
    InvalidDeviceIdentity,
    InvalidResetRequest,
    DeviceAlreadyBound,
    ReauthRequired,
    WorkerUnreachable,
    ResetRequestNotFound,
    Unauthorized,
    Storage,
    Serialization,
    InvalidTransition,
}

pub open spec fn contract_code_of(e: AuthError) -> WorkerContractErrorCode {
    match e {
        AuthError::InvalidLicenseKey => WorkerContractErrorCode::InvalidLicenseKey,
        AuthError::InvalidPurchaseEmail => WorkerContractErrorCode::InvalidPurchaseEmail,
        AuthError::InvalidDeviceIdentity => WorkerContractErrorCode::InvalidDeviceIdentity,
        AuthError::InvalidResetRequest => WorkerContractErrorCode::InvalidResetRequest,
        AuthError::DeviceAlreadyBound => WorkerContractErrorCode::DeviceAlreadyBound,
        AuthError::ReauthRequired => WorkerContractErrorCode::ReauthRequired,
        AuthError::WorkerUnreachable => WorkerContractErrorCode::WorkerUnreachable,
        AuthError::ResetRequestNotFound => WorkerContractErrorCode::ResetRequestNotFound,
        AuthError::Unauthorized => WorkerContractErrorCode::Unauthorized,
        AuthError::Storage(_) => WorkerContractErrorCode::Storage,
        AuthError::Serialization(_) => WorkerContractErrorCode::Serialization,
        AuthError::InvalidTransition(_) => WorkerContractErrorCode::InvalidTransition,
    }
}

pub open spec fn contract_code_name(c: WorkerContractErrorCode) -> Seq<char> {
    match c {
        WorkerContractErrorCode::InvalidLicenseKey => "invalid_license_key"@,
        WorkerContractErrorCode::InvalidPurchaseEmail => "invalid_purchase_email"@,
        WorkerContractErrorCode::InvalidDeviceIdentity => "invalid_device_identity"@,
        WorkerContractErrorCode::InvalidResetRequest => "invalid_reset_request"@,
        WorkerContractErrorCode::DeviceAlreadyBound => "device_already_bound"@,
        WorkerContractErrorCode::ReauthRequired => "reauth_required"@,
        WorkerContractErrorCode::WorkerUnreachable => "worker_unreachable"@,
        WorkerContractErrorCode::ResetRequestNotFound => "reset_request_not_found"@,
        WorkerContractErrorCode::Unauthorized => "unauthorized"@,
        WorkerContractErrorCode::Storage => "storage"@,
        WorkerContractErrorCode::Serialization => "serialization"@,
        WorkerContractErrorCode::InvalidTransition => "invalid_transition"@,
    }
}

impl WorkerContractErrorCode {
    pub fn from_auth_error(error: &AuthError) -> (r: Self)
        ensures
            r == contract_code_of(*error),
    {
        match error {
            AuthError::InvalidLicenseKey => WorkerContractErrorCode::InvalidLicenseKey,
            AuthError::InvalidPurchaseEmail => WorkerContractErrorCode::InvalidPurchaseEmail,
            AuthError::InvalidDeviceIdentity => WorkerContractErrorCode::InvalidDeviceIdentity,
            AuthError::InvalidResetRequest => WorkerContractErrorCode::InvalidResetRequest,
            AuthError::DeviceAlreadyBound => WorkerContractErrorCode::DeviceAlreadyBound,
            AuthError::ReauthRequired => WorkerContractErrorCode::ReauthRequired,
            AuthError::WorkerUnreachable => WorkerContractErrorCode::WorkerUnreachable,
            AuthError::ResetRequestNotFound => WorkerContractErrorCode::ResetRequestNotFound,
            AuthError::Unauthorized => WorkerContractErrorCode::Unauthorized,
            AuthError::Storage(_) => WorkerContractErrorCode::Storage,
            AuthError::Serialization(_) => WorkerContractErrorCode::Serialization,
            AuthError::InvalidTransition(_) => WorkerContractErrorCode::InvalidTransition,
        }
    }

    pub fn as_str(&self) -> (r: &'static str)
        ensures
            r@ == contract_code_name(*self),
    {
        match self {
            WorkerContractErrorCode::InvalidLicenseKey => "invalid_license_key",
            WorkerContractErrorCode::InvalidPurchaseEmail => "invalid_purchase_email",
            WorkerContractErrorCode::InvalidDeviceIdentity => "invalid_device_identity",
            WorkerContractErrorCode::InvalidResetRequest => "invalid_reset_request",
            WorkerContractErrorCode::DeviceAlreadyBound => "device_already_bound",
            WorkerContractErrorCode::ReauthRequired => "reauth_required",
            WorkerContractErrorCode::WorkerUnreachable => "worker_unreachable",
            WorkerContractErrorCode::ResetRequestNotFound => "reset_request_not_found",
            WorkerContractErrorCode::Unauthorized => "unauthorized",
            WorkerContractErrorCode::Storage => "storage",
            WorkerContractErrorCode::Serialization => "serialization",
            WorkerContractErrorCode::InvalidTransition => "invalid_transition",
        }
    }
}

/// An activation request with the key that makes repeating it safe.
#[derive(Clone)]
pub struct WorkerActivationContract {
    pub idempotency_key: String,
    pub request: ActivationRequest,
}

/// A device-reset request with the key that makes repeating it safe.
#[derive(Clone)]
pub struct WorkerResetContract {
    pub idempotency_key: String,
    pub request: DeviceResetRequest,
}

/// Where a client keeps the contracts it sent and what came back for them.
pub trait LicenseStore {
    fn persist_activation(
        &self,
        contract: &WorkerActivationContract,
        outcome: &ActivationOutcome,
    ) -> Result<(), AuthError>;

    fn persist_reset_request(
        &self,
        contract: &WorkerResetContract,
        status: &DeviceResetStatus,
    ) -> Result<(), AuthError>;
}

/// Checks the signature of a webhook payload.
pub trait WebhookVerifier {
    fn verify(&self, payload: &[u8], signature: &str) -> Result<(), AuthError>;
}

/// A store's record of a purchase: who sold it, under which sale, and what
/// it entitles the buyer to.
#[derive(Debug, Clone, PartialEq, Eq)]
pub struct PurchaseVerification {
    pub provider: String,
    pub provider_sale_id: Option<String>,
    pub entitlement: EntitlementStatus,
}

/// Looks up the purchase behind a license key and the buyer's email.
pub trait PurchaseProvider {
    fn verify_purchase(&self, license_key: &str, purchaser_email: &str) -> Result<PurchaseVerification, AuthError>;
}

/// Which parts of the worker contract a locally configured client offers.
#[derive(Debug, Clone, PartialEq, Eq)]
pub struct LicenseWorkerReadiness {
    pub backend_mode: LicenseBackendMode,
    pub contract_adapter_enabled: bool,
    pub provider_adapter_enabled: bool,
    pub webhook_verifier_enabled: bool,
    pub idempotency_enabled: bool,
    pub durable_store_enabled: bool,
}

impl LicenseWorkerReadiness {
    pub fn local(config: &LicenseWorkerConfig) -> (r: Self)
        ensures
            r.backend_mode == config.backend_mode,
            r.contract_adapter_enabled,
            r.provider_adapter_enabled == (config.backend_mode == LicenseBackendMode::Devolens),
            !r.webhook_verifier_enabled,
            r.idempotency_enabled,
            !r.durable_store_enabled,
    {
        LicenseWorkerReadiness {
            backend_mode: config.backend_mode,
            contract_adapter_enabled: true,
            provider_adapter_enabled: config.backend_mode == LicenseBackendMode::Devolens,
            webhook_verifier_enabled: false,
            idempotency_enabled: true,
            durable_store_enabled: false,
        }
    }
}

/// The Devolens provider settings a client is built with.
#[derive(Clone)]
pub struct DevolensSettings {
    pub base_url: String,
    pub access_token: String,
    pub product_id: String,
}

/// Which client serves the licensing calls, always behind the retry and
/// circuit-breaker policy.
#[derive(Clone)]
pub enum WorkerBackend {
    Http { base_url: String },
    Devolens(DevolensSettings),
    Mock,
}

/// Whether `built` is what [`build_worker_client`] makes of `config`.
pub open spec fn is_worker_client_for(config: LicenseWorkerConfig, built: Result<WorkerBackend, AuthError>) -> bool {
    match config.backend_mode {
        LicenseBackendMode::Reference | LicenseBackendMode::Hosted => built matches Ok(
            WorkerBackend::Http { base_url },
        ) && base_url@ == config.base_url@,
        LicenseBackendMode::Mock => built matches Ok(WorkerBackend::Mock),
        LicenseBackendMode::Devolens => if trim(config.devolens_access_token@).len() == 0
            || trim(config.devolens_product_id@).len() == 0 {
            built matches Err(AuthError::Unauthorized)
        } else {
            built matches Ok(WorkerBackend::Devolens(s)) && s.base_url@ == strip_end_char(
                config.devolens_base_url@,
                '/',
            ) && s.access_token@ == trim(config.devolens_access_token@) && s.product_id@
                == trim(config.devolens_product_id@)
        },
    }
}

/// Chooses the client a worker configuration builds, which the caller then
/// puts behind a [`PolicyWorkerClient`].  Reference and hosted modes talk
/// to the HTTP worker at `base_url`; Devolens mode needs a token and a
/// product id that are not blank, else the client is unauthorized.
pub fn build_worker_client(config: &LicenseWorkerConfig) -> (r: Result<WorkerBackend, AuthError>)
    ensures
        is_worker_client_for(*config, r),
{
    match config.backend_mode {
        LicenseBackendMode::Reference | LicenseBackendMode::Hosted => {
            Ok(WorkerBackend::Http { base_url: config.base_url.clone() })
        },
        LicenseBackendMode::Mock => Ok(WorkerBackend::Mock),
        LicenseBackendMode::Devolens => {
            let token = trim_str(config.devolens_access_token.as_str());
            let product = trim_str(config.devolens_product_id.as_str());
            if token.as_str().is_empty() || product.as_str().is_empty() {
                return Err(AuthError::Unauthorized);
            }
            let b = chars_of(config.devolens_base_url.as_str());
            let s = strip_end_char_chars(&b, '/');
            Ok(
                WorkerBackend::Devolens(
                    DevolensSettings {
                        base_url: string_of(s.as_slice()),
                        access_token: token,
                        product_id: product,
                    },
                ),
            )
        },
    }
}

// ---------------------------------------------------------------------------
// Retry and circuit breaker
// ---------------------------------------------------------------------------

/// The circuit breaker's memory: how many calls in a row the worker could
/// not be reached, and since when the circuit is open.
#[derive(Debug, Clone, Copy, PartialEq, Eq, Structural)]
pub struct CircuitState {
    pub consecutive_failures: u32,
    pub opened_at_ms: Option<i64>,
}

impl CircuitState {
    pub fn new() -> (r: Self)
        ensures
            r.consecutive_failures == 0,
            r.opened_at_ms is None,
    {
        CircuitState { consecutive_failures: 0, opened_at_ms: None }
    }
}

/// Whether an open circuit still rejects calls at `now_ms`: the cool-down,
/// read as a signed millisecond count, has not yet run out.
pub open spec fn still_cooling(opened_at_ms: i64, now_ms: i64, cooldown_ms: u64) -> bool {
    let elapsed = if now_ms - opened_at_ms > i64::MAX {
        i64::MAX as int
    } else if now_ms - opened_at_ms < i64::MIN {
        i64::MIN as int
    } else {
        now_ms - opened_at_ms
    };
    elapsed < (cooldown_ms as i64) as int
}

/// Whether `outcome` is the worker-unreachable failure.
pub open spec fn is_unreachable(outcome: Result<(), AuthError>) -> bool {
    outcome matches Err(AuthError::WorkerUnreachable)
}

/// The state after the outcome of a call was recorded.
pub open spec fn recorded(
    state: CircuitState,
    policy: WorkerClientPolicy,
    outcome: Result<(), AuthError>,
    now_ms: i64,
) -> CircuitState {
    match outcome {
        Ok(()) => CircuitState { consecutive_failures: 0, opened_at_ms: None },
        Err(AuthError::WorkerUnreachable) => {
            let failures = if state.consecutive_failures == u32::MAX {
                u32::MAX
            } else {
                (state.consecutive_failures + 1) as u32
            };
            CircuitState {
                consecutive_failures: failures,
                opened_at_ms: if failures >= policy.circuit_breaker.failure_threshold {
                    Some(now_ms)
                } else {
                    state.opened_at_ms
                },
            }
        },
        Err(_) => state,
    }
}

/// Asks the circuit breaker whether a call may go out at `now_ms`.  An open
/// circuit within its cool-down refuses with `WorkerUnreachable` and stays
/// as it is; once the cool-down is over the circuit closes and its failure
/// count starts again from zero.
pub fn circuit_admit(state: &mut CircuitState, policy: &WorkerClientPolicy, now_ms: i64) -> (r: Result<(), AuthError>)
    ensures
        match old(state).opened_at_ms {
            Some(opened) => if still_cooling(opened, now_ms, policy.circuit_breaker.cooldown_ms) {
                r matches Err(AuthError::WorkerUnreachable) && *final(state) == *old(state)
            } else {
                r is Ok && final(state).consecutive_failures == 0 && final(state).opened_at_ms is None
            },
            None => r is Ok && *final(state) == *old(state),
        },
{
    if let Some(opened_at_ms) = state.opened_at_ms {
        let elapsed = saturating_sub_i64(now_ms, opened_at_ms);
        if elapsed < policy.circuit_breaker.cooldown_ms as i64 {
            return Err(AuthError::WorkerUnreachable);
        }
        state.opened_at_ms = None;
        state.consecutive_failures = 0;
    }
    Ok(())
}

/// Records the final outcome of a call: success closes the circuit, an
/// unreachable worker counts one more failure and opens the circuit once
/// the count reaches the threshold, other errors leave it alone.
pub fn circuit_record(
    state: &mut CircuitState,
    policy: &WorkerClientPolicy,
    outcome: &Result<(), AuthError>,
    now_ms: i64,
)
    ensures
        *final(state) == recorded(*old(state), *policy, *outcome, now_ms),
{
    match outcome {
        Ok(()) => {
            state.consecutive_failures = 0;
            state.opened_at_ms = None;
        },
        Err(AuthError::WorkerUnreachable) => {
            state.consecutive_failures = state.consecutive_failures.saturating_add(1);
            if state.consecutive_failures >= policy.circuit_breaker.failure_threshold {
                state.opened_at_ms = Some(now_ms);
            }
        },
        Err(_) => {},
    }
}

/// A call in progress: which attempt is running and how many are allowed.
#[derive(Debug, Clone, Copy, PartialEq, Eq, Structural)]
pub struct RetryRun {
    pub attempt: u32,
    pub attempts: u32,
}

/// What follows the outcome of one attempt.
#[derive(Debug)]
pub enum RetryStep {
    /// Try again after waiting `backoff_ms` (no wait when it is zero).
    Retry { backoff_ms: u64 },
    /// The call is over with this outcome.
    Finish(Result<(), AuthError>),
}

/// The number of attempts a call is allowed: the configured maximum, and at
/// least one.
pub open spec fn allowed_attempts(policy: WorkerClientPolicy) -> u32 {
    if policy.retry.max_attempts >= 1 {
        policy.retry.max_attempts
    } else {
        1
    }
}

/// A client of the license worker behind the retry and circuit-breaker
/// policy: the policy, and the circuit breaker's state shared by its calls.
/// The calls themselves are the caller's; these methods say, around each
/// attempt, whether it may go out and what follows its outcome.
#[derive(Debug, Clone)]
pub struct PolicyWorkerClient {
    pub policy: WorkerClientPolicy,
    pub circuit: CircuitState,
}

impl PolicyWorkerClient {
    /// A client with the given policy and a closed circuit.
    pub fn new(policy: WorkerClientPolicy) -> (r: Self)
        ensures
            r.policy == policy,
            r.circuit.consecutive_failures == 0,
            r.circuit.opened_at_ms is None,
    {
        PolicyWorkerClient { policy, circuit: CircuitState::new() }
    }

    /// Starts a call: the circuit breaker is asked first, then the first of
    /// the allowed attempts begins.
    pub fn begin_call(&mut self, now_ms: i64) -> (r: Result<RetryRun, AuthError>)
        ensures
            final(self).policy == old(self).policy,
            match old(self).circuit.opened_at_ms {
                Some(opened) => if still_cooling(opened, now_ms, old(self).policy.circuit_breaker.cooldown_ms) {
                    r matches Err(AuthError::WorkerUnreachable) && final(self).circuit == old(self).circuit
                } else {
                    r is Ok && final(self).circuit.consecutive_failures == 0
                        && final(self).circuit.opened_at_ms is None
                },
                None => r is Ok && final(self).circuit == old(self).circuit,
            },
            r matches Ok(run) ==> run.attempt == 1 && run.attempts == allowed_attempts(old(self).policy),
    {
        circuit_admit(&mut self.circuit, &self.policy, now_ms)?;
        let attempts = if self.policy.retry.max_attempts >= 1 {
            self.policy.retry.max_attempts
        } else {
            1
        };
        Ok(RetryRun { attempt: 1, attempts })
    }

    /// Takes the outcome of the current attempt.  An unreachable worker is
    /// tried again while attempts remain, without touching the circuit; any
    /// other outcome, or the last attempt, ends the call and is recorded.
    pub fn after_attempt(&mut self, run: &mut RetryRun, outcome: Result<(), AuthError>, now_ms: i64) -> (r: RetryStep)
        requires
            1 <= old(run).attempt <= old(run).attempts,
        ensures
            final(self).policy == old(self).policy,
            if is_unreachable(outcome) && old(run).attempt < old(run).attempts {
                r matches RetryStep::Retry { backoff_ms } && backoff_ms == old(self).policy.retry.backoff_ms
                    && final(self).circuit == old(self).circuit && final(run).attempt == old(run).attempt + 1
                    && final(run).attempts == old(run).attempts
            } else {
                (r matches RetryStep::Finish(o) && o == outcome) && final(self).circuit == recorded(
                    old(self).circuit,
                    old(self).policy,
                    outcome,
                    now_ms,
                ) && *final(run) == *old(run)
            },
            1 <= final(run).attempt <= final(run).attempts,
            match next_attempt(*old(run), outcome) {
                Some(next) => r is Retry && *final(run) == next,
                None => r is Finish,
            },
    {
        let unreachable = match &outcome {
            Err(AuthError::WorkerUnreachable) => true,
            _ => false,
        };
        if unreachable && run.attempt < run.attempts {
            run.attempt = run.attempt + 1;
            return RetryStep::Retry { backoff_ms: self.policy.retry.backoff_ms };
        }
        circuit_record(&mut self.circuit, &self.policy, &outcome, now_ms);
        RetryStep::Finish(outcome)
    }
}

/// Where a call stands after the outcome of its current attempt: at the
/// next attempt when the worker was unreachable and attempts remain, else
/// over (`None`).
pub open spec fn next_attempt(run: RetryRun, outcome: Result<(), AuthError>) -> Option<RetryRun> {
    if is_unreachable(outcome) && run.attempt < run.attempts {
        Some(RetryRun { attempt: (run.attempt + 1) as u32, attempts: run.attempts })
    } else {
        None
    }
}

/// How many of `outcomes`, taken one attempt after another from `run`, the
/// call goes through before it is over.
pub open spec fn attempts_made(run: RetryRun, outcomes: Seq<Result<(), AuthError>>) -> nat
    decreases outcomes.len(),
{
    if outcomes.len() == 0 {
        0
    } else {
        match next_attempt(run, outcomes[0]) {
            None => 1,
            Some(next) => 1 + attempts_made(next, outcomes.drop_first()),
        }
    }
}

/// A whole call: given an outcome for each attempt it may make, it makes
/// at most the attempts left, tries again only after an unreachable
/// worker, and ends at the first other outcome or at its last attempt.
pub proof fn law_retried_call_ends_at_first_reachable_outcome(
    run: RetryRun,
    outcomes: Seq<Result<(), AuthError>>,
)
    requires
        1 <= run.attempt <= run.attempts,
        outcomes.len() >= run.attempts - run.attempt + 1,
    ensures
        1 <= attempts_made(run, outcomes) <= run.attempts - run.attempt + 1,
        forall|i: int| 0 <= i < attempts_made(run, outcomes) - 1 ==> is_unreachable(#[trigger] outcomes[i]),
        !is_unreachable(outcomes[attempts_made(run, outcomes) - 1]) || attempts_made(run, outcomes)
            == run.attempts - run.attempt + 1,
    decreases run.attempts - run.attempt,
{
    match next_attempt(run, outcomes[0]) {
        None => {},
        Some(next) => {
            let rest = outcomes.drop_first();
            law_retried_call_ends_at_first_reachable_outcome(next, rest);
            assert forall|i: int| 0 <= i < attempts_made(run, outcomes) - 1 implies is_unreachable(
                #[trigger] outcomes[i],
            ) by {
                if i > 0 {
                    assert(outcomes[i] == rest[i - 1]);
                }
            }
            assert(outcomes[attempts_made(run, outcomes) - 1] == rest[attempts_made(next, rest) - 1]);
        },
    }
}

/// The circuit is only ever open after at least as many consecutive
/// unreachable failures as the threshold.
pub open spec fn circuit_consistent(state: CircuitState, policy: WorkerClientPolicy) -> bool {
    state.opened_at_ms is Some ==> state.consecutive_failures >= policy.circuit_breaker.failure_threshold
}

/// Recording any outcome keeps the circuit consistent: it opens only when
/// the failure count has reached the threshold.
pub proof fn law_record_keeps_circuit_consistent(
    state: CircuitState,
    policy: WorkerClientPolicy,
    outcome: Result<(), AuthError>,
    now_ms: i64,
)
    requires
        circuit_consistent(state, policy),
    ensures
        circuit_consistent(recorded(state, policy, outcome, now_ms), policy),
{
}

/// A successful call closes the circuit and clears the failure count,
/// whatever the state before.
pub proof fn law_success_closes_circuit(state: CircuitState, policy: WorkerClientPolicy, now_ms: i64)
    ensures
        recorded(state, policy, Ok(()), now_ms) == (CircuitState {
            consecutive_failures: 0,
            opened_at_ms: None,
        }),
{
}

/// With a threshold of `t`, `t` unreachable failures in a row starting from
/// a closed circuit open it, at the time of the last failure.
pub proof fn law_threshold_failures_open_circuit(policy: WorkerClientPolicy, times: Seq<i64>)
    requires
        1 <= policy.circuit_breaker.failure_threshold,
        times.len() == policy.circuit_breaker.failure_threshold,
    ensures
        failures_after(policy, times).opened_at_ms == Some(times.last()),
        failures_after(policy, times).consecutive_failures == policy.circuit_breaker.failure_threshold,
{
    lemma_failures_after(policy, times);
}

/// The state after a run of unreachable failures at `times`, from a closed
/// circuit.
pub open spec fn failures_after(policy: WorkerClientPolicy, times: Seq<i64>) -> CircuitState
    decreases times.len(),
{
    if times.len() == 0 {
        CircuitState { consecutive_failures: 0, opened_at_ms: None }
    } else {
        recorded(
            failures_after(policy, times.drop_last()),
            policy,
            Err(AuthError::WorkerUnreachable),
            times.last(),
        )
    }
}

proof fn lemma_failures_after(policy: WorkerClientPolicy, times: Seq<i64>)
    requires
        times.len() <= policy.circuit_breaker.failure_threshold,
    ensures
        failures_after(policy, times).consecutive_failures == times.len(),
        times.len() < policy.circuit_breaker.failure_threshold ==> failures_after(
            policy,
            times,
        ).opened_at_ms is None,
        times.len() == policy.circuit_breaker.failure_threshold && times.len() > 0
            ==> failures_after(policy, times).opened_at_ms == Some(times.last()),
    decreases times.len(),
{
    if times.len() > 0 {
        lemma_failures_after(policy, times.drop_last());
    }
}

// ---------------------------------------------------------------------------
// Idempotency keys
// ---------------------------------------------------------------------------

/// `activate:{device public key}:{app version}:{timestamp}`.
pub open spec fn activation_key_text(r: ActivationRequest) -> Seq<char> {
    "activate:"@ + r.device_public_key@ + ":"@ + r.app_version@ + ":"@ + dec_int(r.timestamp_ms as int)
}

/// `reset:{device public key}:{masked key or "unmasked"}:{timestamp}`.
pub open spec fn reset_key_text(r: DeviceResetRequest) -> Seq<char> {
    "reset:"@ + r.device_public_key@ + ":"@ + match r.masked_license_key {
        Some(m) => m@,
        None => "unmasked"@,
    } + ":"@ + dec_int(r.timestamp_ms as int)
}

pub fn activation_idempotency_key(request: &ActivationRequest) -> (r: String)
    ensures
        r@ == activation_key_text(*request),
{
    let a = concat2("activate:", request.device_public_key.as_str());
    let b = concat2(a.as_str(), ":");
    let c = concat2(b.as_str(), request.app_version.as_str());
    let d = concat2(c.as_str(), ":");
    let t = i64_to_string(request.timestamp_ms);
    concat2(d.as_str(), t.as_str())
}

pub fn reset_idempotency_key(request: &DeviceResetRequest) -> (r: String)
    ensures
        r@ == reset_key_text(*request),
{
    let a = concat2("reset:", request.device_public_key.as_str());
    let b = concat2(a.as_str(), ":");
    let c = match &request.masked_license_key {
        Some(m) => concat2(b.as_str(), m.as_str()),
        None => concat2(b.as_str(), "unmasked"),
    };
    let d = concat2(c.as_str(), ":");
    let t = i64_to_string(request.timestamp_ms);
    concat2(d.as_str(), t.as_str())
}

/// Idempotency keys carry no secret: two requests that differ only in the
/// license key, the purchaser's e-mail or the device fingerprint get the
/// same keys.
pub proof fn law_idempotency_keys_ignore_secrets(
    a1: ActivationRequest,
    a2: ActivationRequest,
    r1: DeviceResetRequest,
    r2: DeviceResetRequest,
)
    requires
        a1.device_public_key@ == a2.device_public_key@,
        a1.app_version@ == a2.app_version@,
        a1.timestamp_ms == a2.timestamp_ms,
        r1.device_public_key@ == r2.device_public_key@,
        r1.masked_license_key is Some <==> r2.masked_license_key is Some,
        r1.masked_license_key matches Some(x) ==> r2.masked_license_key matches Some(y) && x@ == y@,
        r1.timestamp_ms == r2.timestamp_ms,
    ensures
        activation_key_text(a1) == activation_key_text(a2),
        reset_key_text(r1) == reset_key_text(r2),
{
}

// ---------------------------------------------------------------------------
// Devolens replies
// ---------------------------------------------------------------------------

/// The license key part of a Devolens reply, under either spelling.
#[derive(Debug, Clone)]
pub struct DevolensLicenseKey {
    pub blocked: Option<bool>,
    pub blocked_pascal: Option<bool>,
    pub expired: Option<bool>,
    pub expired_pascal: Option<bool>,
}

pub open spec fn first_some<T>(a: Option<T>, b: Option<T>) -> Option<T> {
    match a {
        Some(x) => Some(x),
        None => b,
    }
}

impl DevolensLicenseKey {
    pub fn blocked(&self) -> (r: Option<bool>)
        ensures
            r == first_some(self.blocked, self.blocked_pascal),
    {
        match self.blocked {
            Some(b) => Some(b),
            None => self.blocked_pascal,
        }
    }

    pub fn expired(&self) -> (r: Option<bool>)
        ensures
            r == first_some(self.expired, self.expired_pascal),
    {
        match self.expired {
            Some(b) => Some(b),
            None => self.expired_pascal,
        }
    }
}

/// Whether a license key part allows use: not blocked, and not expired when
/// the expiry is stated.
pub open spec fn key_allows_use(k: DevolensLicenseKey) -> bool {
    !(first_some(k.blocked, k.blocked_pascal) == Some(true)) && !(first_some(
        k.expired,
        k.expired_pascal,
    ) == Some(true))
}

/// The key says it is blocked: its `blocked` flag is true, or it has none
/// and its `Blocked` flag is true.
pub open spec fn says_blocked(k: DevolensLicenseKey) -> bool {
    k.blocked == Some(true) || (k.blocked is None && k.blocked_pascal == Some(true))
}

/// The key says it has expired, under either spelling in the same way.
pub open spec fn says_expired(k: DevolensLicenseKey) -> bool {
    k.expired == Some(true) || (k.expired is None && k.expired_pascal == Some(true))
}

/// A license key allows use exactly when it says neither that it is
/// blocked nor that it has expired. A reply with a license key part (the
/// `licenseKey` one when both are there) lets the license be used exactly
/// when that key allows it; a blocked or expired key never does, whatever
/// the result code.
pub proof fn law_blocked_or_expired_keys_never_allow_use(
    k: DevolensLicenseKey,
    result: Option<i64>,
    result_pascal: Option<i64>,
    key: Option<DevolensLicenseKey>,
    key_pascal: Option<DevolensLicenseKey>,
)
    ensures
        key_allows_use(k) <==> !says_blocked(k) && !says_expired(k),
        key matches Some(k1) ==> (reply_license_active(result, result_pascal, key, key_pascal) <==> !says_blocked(
            k1,
        ) && !says_expired(k1)),
        key is None && key_pascal is Some ==> (reply_license_active(result, result_pascal, key, key_pascal)
            <==> !says_blocked(key_pascal->0) && !says_expired(key_pascal->0)),
        key is None && key_pascal is None ==> (reply_license_active(result, result_pascal, key, key_pascal)
            <==> (result == Some(0i64) || (result is None && result_pascal == Some(0i64)))),
{
}

fn key_allows(k: &DevolensLicenseKey) -> (b: bool)
    ensures
        b == key_allows_use(*k),
{
    let blocked = match k.blocked() {
        Some(b) => b,
        None => false,
    };
    if blocked {
        return false;
    }
    match k.expired() {
        Some(e) => !e,
        None => true,
    }
}

/// The reply to a Devolens `Activate` or `Deactivate` call.
#[derive(Debug, Clone)]
pub struct DevolensActivationResponse {
    pub result: Option<i64>,
    pub result_pascal: Option<i64>,
    pub message: Option<String>,
    pub message_pascal: Option<String>,
    pub license_key: Option<DevolensLicenseKey>,
    pub license_key_pascal: Option<DevolensLicenseKey>,
    pub expires_at_ms: Option<i64>,
}

/// A reply succeeds when its result code, under either spelling, is 0; a
/// reply without a result code does not.
pub open spec fn reply_succeeded(result: Option<i64>, result_pascal: Option<i64>) -> bool {
    first_some(result, result_pascal) == Some(0i64)
}

/// Whether a reply lets the license be used: by its license key part when
/// there is one, else by its result code.
pub open spec fn reply_license_active(
    result: Option<i64>,
    result_pascal: Option<i64>,
    key: Option<DevolensLicenseKey>,
    key_pascal: Option<DevolensLicenseKey>,
) -> bool {
    match first_some(key, key_pascal) {
        Some(k) => key_allows_use(k),
        None => reply_succeeded(result, result_pascal),
    }
}

/// The message of a reply, under either spelling, when it is not blank.
pub open spec fn reply_message(m: Option<String>, m_pascal: Option<String>) -> Option<Seq<char>> {
    match first_some(m, m_pascal) {
        Some(s) => if trim(s@).len() > 0 {
            Some(s@)
        } else {
            None
        },
        None => None,
    }
}

fn succeeded(result: Option<i64>, result_pascal: Option<i64>) -> (b: bool)
    ensures
        b == reply_succeeded(result, result_pascal),
{
    let r = match result {
        Some(v) => v,
        None => match result_pascal {
            Some(v) => v,
            None => 1,
        },
    };
    r == 0
}

fn license_active(
    result: Option<i64>,
    result_pascal: Option<i64>,
    key: &Option<DevolensLicenseKey>,
    key_pascal: &Option<DevolensLicenseKey>,
) -> (b: bool)
    ensures
        b == reply_license_active(result, result_pascal, *key, *key_pascal),
{
    match key {
        Some(k) => key_allows(k),
        None => match key_pascal {
            Some(k) => key_allows(k),
            None => succeeded(result, result_pascal),
        },
    }
}

fn message_of<'a>(m: &'a Option<String>, m_pascal: &'a Option<String>) -> (r: Option<&'a str>)
    ensures
        match r {
            Some(s) => reply_message(*m, *m_pascal) == Some(s@),
            None => reply_message(*m, *m_pascal) is None,
        },
{
    let chosen = match m {
        Some(s) => Some(s),
        None => match m_pascal {
            Some(s) => Some(s),
            None => None,
        },
    };
    match chosen {
        Some(s) => {
            let t = trim_str(s.as_str());
            if t.as_str().is_empty() {
                None
            } else {
                Some(s.as_str())
            }
        },
        None => None,
    }
}

impl DevolensActivationResponse {
    pub fn is_success(&self) -> (b: bool)
        ensures
            b == reply_succeeded(self.result, self.result_pascal),
    {
        succeeded(self.result, self.result_pascal)
    }

    pub fn license_is_active(&self) -> (b: bool)
        ensures
            b == reply_license_active(
                self.result,
                self.result_pascal,
                self.license_key,
                self.license_key_pascal,
            ),
    {
        license_active(self.result, self.result_pascal, &self.license_key, &self.license_key_pascal)
    }

    pub fn message(&self) -> (r: Option<&str>)
        ensures
            match r {
                Some(s) => reply_message(self.message, self.message_pascal) == Some(s@),
                None => reply_message(self.message, self.message_pascal) is None,
            },
    {
        message_of(&self.message, &self.message_pascal)
    }
}

/// The reply to a Devolens `Validate` call.
#[derive(Debug, Clone)]
pub struct DevolensValidationResponse {
    pub result: Option<i64>,
    pub result_pascal: Option<i64>,
    pub message: Option<String>,
    pub message_pascal: Option<String>,
    pub license_key: Option<DevolensLicenseKey>,
    pub license_key_pascal: Option<DevolensLicenseKey>,
    pub masked_license_key: Option<String>,
    pub bound_device: Option<BoundDeviceSummary>,
    pub token_expires_at_ms: Option<i64>,
}

impl DevolensValidationResponse {
    pub fn is_success(&self) -> (b: bool)
        ensures
            b == reply_succeeded(self.result, self.result_pascal),
    {
        succeeded(self.result, self.result_pascal)
    }

    pub fn license_is_active(&self) -> (b: bool)
        ensures
            b == reply_license_active(
                self.result,
                self.result_pascal,
                self.license_key,
                self.license_key_pascal,
            ),
    {
        license_active(self.result, self.result_pascal, &self.license_key, &self.license_key_pascal)
    }

    pub fn message(&self) -> (r: Option<&str>)
        ensures
            match r {
                Some(s) => reply_message(self.message, self.message_pascal) == Some(s@),
                None => reply_message(self.message, self.message_pascal) is None,
            },
    {
        message_of(&self.message, &self.message_pascal)
    }
}

/// The error an HTTP status outside 200..=299 stands for.
pub open spec fn status_error(status: u16) -> AuthError {
    if status == 401 || status == 403 {
        AuthError::Unauthorized
    } else if status == 400 {
        AuthError::InvalidLicenseKey
    } else {
        AuthError::WorkerUnreachable
    }
}

pub open spec fn is_success_status(status: u16) -> bool {
    200 <= status <= 299
}

fn error_for_status(status: u16) -> (e: AuthError)
    ensures
        e == status_error(status),
{
    if status == 401 || status == 403 {
        AuthError::Unauthorized
    } else if status == 400 {
        AuthError::InvalidLicenseKey
    } else {
        AuthError::WorkerUnreachable
    }
}

/// How a Devolens reply is read: a 2xx status is success; 401 and 403 mean
/// unauthorized, 400 an invalid key, any other failing status an
/// unreachable worker. A result code, under either spelling (`result`
/// first), of 0 is success. The message is `message` when given (blank
/// counts as none), else `Message`; it mentions the machine limit when,
/// lower-cased, it holds `machine` somewhere.
pub proof fn law_devolens_replies_read(
    status: u16,
    result: Option<i64>,
    result_pascal: Option<i64>,
    m: Option<String>,
    m_pascal: Option<String>,
    text: Seq<char>,
    at: int,
)
    ensures
        is_success_status(status) <==> 200 <= status && status < 300,
        status == 401 || status == 403 ==> status_error(status) == AuthError::Unauthorized,
        status == 400 ==> status_error(status) == AuthError::InvalidLicenseKey,
        status != 400 && status != 401 && status != 403 ==> status_error(status) == AuthError::WorkerUnreachable,
        reply_succeeded(result, result_pascal) <==> (result == Some(0i64) || (result is None && result_pascal
            == Some(0i64))),
        m matches Some(x) ==> reply_message(m, m_pascal) == (if trim(x@).len() > 0 {
            Some(x@)
        } else {
            None
        }),
        m is None && m_pascal is Some ==> reply_message(m, m_pascal) == (if trim(m_pascal->0@).len() > 0 {
            Some(m_pascal->0@)
        } else {
            None
        }),
        m is None && m_pascal is None ==> reply_message(m, m_pascal) is None,
        0 <= at && at + 7 <= text.len() && crate::text::lower_seq(text).subrange(at, at + 7) == "machine"@
            ==> mentions_machine(text),
{
    if 0 <= at && at + 7 <= text.len() && crate::text::lower_seq(text).subrange(at, at + 7) == "machine"@ {
        assert(crate::text::occurs_at(crate::text::lower_seq(text), "machine"@, at));
    }
}

/// Reads a Devolens validation reply: the HTTP status first, then the body
/// as decoded (`Err` holds the decoder's message).
pub fn read_validation_reply(
    status: u16,
    body: Result<DevolensValidationResponse, String>,
) -> (r: Result<DevolensValidationResponse, AuthError>)
    ensures
        !is_success_status(status) ==> (r matches Err(e) && e == status_error(status)),
        is_success_status(status) ==> match body {
            Ok(v) => r matches Ok(w) && w == v,
            Err(m) => r matches Err(AuthError::Serialization(n)) && n@ == m@,
        },
{
    if !(200 <= status && status <= 299) {
        return Err(error_for_status(status));
    }
    match body {
        Ok(v) => Ok(v),
        Err(m) => Err(AuthError::Serialization(m)),
    }
}

/// Whether a message mentions the machine limit, in any letter case.
pub open spec fn mentions_machine(m: Seq<char>) -> bool {
    crate::text::contains_seq(crate::text::lower_seq(m), "machine"@)
}

/// Reads a Devolens activation reply.  After the status and the decoding,
/// an unsuccessful result means the device limit when its message mentions
/// the machine, else an invalid license key.
pub fn read_activation_reply(
    status: u16,
    body: Result<DevolensActivationResponse, String>,
) -> (r: Result<DevolensActivationResponse, AuthError>)
    ensures
        !is_success_status(status) ==> (r matches Err(e) && e == status_error(status)),
        is_success_status(status) ==> match body {
            Err(m) => r matches Err(AuthError::Serialization(n)) && n@ == m@,
            Ok(v) => if reply_succeeded(v.result, v.result_pascal) {
                r matches Ok(w) && w == v
            } else {
                match reply_message(v.message, v.message_pascal) {
                    Some(m) => if mentions_machine(m) {
                        r matches Err(AuthError::DeviceAlreadyBound)
                    } else {
                        r matches Err(AuthError::InvalidLicenseKey)
                    },
                    None => r matches Err(AuthError::InvalidLicenseKey),
                }
            },
        },
{
    if !(200 <= status && status <= 299) {
        return Err(error_for_status(status));
    }
    let parsed = match body {
        Ok(v) => v,
        Err(m) => return Err(AuthError::Serialization(m)),
    };
    if !parsed.is_success() {
        return match parsed.message() {
            Some(message) => {
                let c = chars_of(message);
                let l = crate::text::lower_chars(&c);
                let needle = chars_of("machine");
                if crate::text::contains_chars(&l, &needle) {
                    Err(AuthError::DeviceAlreadyBound)
                } else {
                    Err(AuthError::InvalidLicenseKey)
                }
            },
            None => Err(AuthError::InvalidLicenseKey),
        };
    }
    Ok(parsed)
}

// ---------------------------------------------------------------------------
// Devolens session tokens
// ---------------------------------------------------------------------------

/// The bytes the session signature is computed over:
/// `{device id}:{timestamp}:{access token}`.
pub open spec fn signature_input(device_id: Seq<u8>, timestamp: Seq<u8>, access_token: Seq<u8>) -> Seq<u8> {
    device_id + seq![58u8] + timestamp + seq![58u8] + access_token
}

/// The hex signature of a session for a device at a timestamp.
pub open spec fn session_signature(device_id: Seq<char>, timestamp: Seq<char>, access_token: Seq<char>) -> Seq<char> {
    hex_lower(
        sha256_digest(
            signature_input(encode_utf8(device_id), encode_utf8(timestamp), encode_utf8(access_token)),
        ),
    )
}

fn push_bytes(out: &mut Vec<u8>, b: &[u8])
    ensures
        final(out)@ == old(out)@ + b@,
{
    let mut i: usize = 0;
    let ghost o = out@;
    while i < b.len()
        invariant
            i <= b.len(),
            out@ == o + b@.take(i as int),
        decreases b.len() - i,
    {
        out.push(b[i]);
        i += 1;
        assert(out@ =~= o + b@.take(i as int));
    }
    assert(b@.take(i as int) =~= b@);
}

/// The session signature: lower-case hex SHA-256 of
/// `{device id}:{timestamp}:{access token}`.
pub fn compute_token_signature(device_id: &str, timestamp_ms: &str, access_token: &str) -> (r: String)
    ensures
        r@ == session_signature(device_id@, timestamp_ms@, access_token@),
{
    let mut data: Vec<u8> = Vec::new();
    push_bytes(&mut data, device_id.as_bytes());
    data.push(58u8);
    push_bytes(&mut data, timestamp_ms.as_bytes());
    data.push(58u8);
    push_bytes(&mut data, access_token.as_bytes());
    assert(data@ =~= signature_input(
        device_id.spec_bytes(),
        timestamp_ms.spec_bytes(),
        access_token.spec_bytes(),
    ));
    sha256_hex(data.as_slice())
}

/// `devolens:{device id}:{timestamp}:{signature}`.
pub open spec fn signed_token_text(device_id: Seq<char>, timestamp: Seq<char>, signature: Seq<char>) -> Seq<char> {
    "devolens:"@ + device_id + ":"@ + timestamp + ":"@ + signature
}

pub fn signed_session_token(device_id: &str, timestamp_ms: i64, access_token: &str) -> (r: String)
    ensures
        r@ == signed_token_text(
            device_id@,
            dec_int(timestamp_ms as int),
            session_signature(device_id@, dec_int(timestamp_ms as int), access_token@),
        ),
{
    let ts = i64_to_string(timestamp_ms);
    let sig = compute_token_signature(device_id, ts.as_str(), access_token);
    let a = concat2("devolens:", device_id);
    let b = concat2(a.as_str(), ":");
    let c = concat2(b.as_str(), ts.as_str());
    let d = concat2(c.as_str(), ":");
    let r = concat2(d.as_str(), sig.as_str());
    r
}

/// The pieces of `s` between the separator `c`, as `str::split(c)` gives them.
pub open spec fn split_on(s: Seq<char>, c: char) -> Seq<Seq<char>>
    decreases s.len(),
{
    if s.len() == 0 {
        seq![seq![]]
    } else {
        let rest = split_on(s.drop_last(), c);
        if s.last() == c {
            rest.push(seq![])
        } else {
            rest.update(rest.len() - 1, rest.last().push(s.last()))
        }
    }
}

proof fn lemma_split_nonempty(s: Seq<char>, c: char)
    ensures
        split_on(s, c).len() >= 1,
    decreases s.len(),
{
    if s.len() > 0 {
        lemma_split_nonempty(s.drop_last(), c);
    }
}

pub fn split_chars(s: &Vec<char>, c: char) -> (r: Vec<Vec<char>>)
    ensures
        r@.len() == split_on(s@, c).len(),
        forall|i: int| 0 <= i < r@.len() ==> #[trigger] r@[i]@ == split_on(s@, c)[i],
{
    let mut parts: Vec<Vec<char>> = Vec::new();
    parts.push(Vec::new());
    let mut i: usize = 0;
    assert(s@.take(0) =~= Seq::<char>::empty());
    while i < s.len()
        invariant
            i <= s.len(),
            parts@.len() == split_on(s@.take(i as int), c).len(),
            parts@.len() >= 1,
            forall|k: int| 0 <= k < parts@.len() ==> #[trigger] parts@[k]@ == split_on(
                s@.take(i as int),
                c,
            )[k],
        decreases s.len() - i,
    {
        let ghost before = parts@;
        assert(s@.take(i + 1).drop_last() =~= s@.take(i as int));
        if s[i] == c {
            parts.push(Vec::new());
            i += 1;
            assert forall|k: int| 0 <= k < parts@.len() implies #[trigger] parts@[k]@ == split_on(
                s@.take(i as int),
                c,
            )[k] by {
                if k < before.len() {
                    assert(parts@[k] == before[k]);
                }
            }
        } else {
            let last = parts.len() - 1;
            let mut piece = parts.pop().unwrap();
            piece.push(s[i]);
            parts.push(piece);
            i += 1;
            assert forall|k: int| 0 <= k < parts@.len() implies #[trigger] parts@[k]@ == split_on(
                s@.take(i as int),
                c,
            )[k] by {
                if k < last {
                    assert(parts@[k] == before[k]);
                }
            }
        }
    }
    assert(s@.take(i as int) =~= s@);
    parts
}

/// What a presented session token is, before the provider is asked.
#[derive(Debug)]
pub enum SessionTokenCheck {
    /// Not a Devolens token: the session must be re-established.
    NotDevolens,
    /// A Devolens token that is malformed or whose signature does not
    /// match: rejected as requiring re-authentication.
    Rejected,
    /// A well-formed token with a matching signature.
    Signed,
}

/// Checks a presented token against the access token it must be signed with.
pub fn check_session_token(token: &str, access_token: &str) -> (r: SessionTokenCheck)
    ensures
        !has_prefix(token@, "devolens:"@) ==> r is NotDevolens,
        has_prefix(token@, "devolens:"@) ==> {
            let parts = split_on(token@, ':');
            if parts.len() != 4 {
                r is Rejected
            } else if session_signature(parts[1], parts[2], access_token@) == parts[3] {
                r is Signed
            } else {
                r is Rejected
            }
        },
{
    if !starts_with_str(token, "devolens:") {
        return SessionTokenCheck::NotDevolens;
    }
    let v = chars_of(token);
    let parts = split_chars(&v, ':');
    if parts.len() != 4 {
        return SessionTokenCheck::Rejected;
    }
    let device_id = string_of(parts[1].as_slice());
    let timestamp = string_of(parts[2].as_slice());
    let signature = string_of(parts[3].as_slice());
    let expected = compute_token_signature(device_id.as_str(), timestamp.as_str(), access_token);
    if signature == expected {
        SessionTokenCheck::Signed
    } else {
        SessionTokenCheck::Rejected
    }
}

/// Whether a text has no `c` in it.
pub open spec fn free_of(s: Seq<char>, c: char) -> bool {
    forall|i: int| 0 <= i < s.len() ==> s[i] != c
}

proof fn lemma_split_free(s: Seq<char>, c: char)
    requires
        free_of(s, c),
    ensures
        split_on(s, c) == seq![s],
    decreases s.len(),
{
    if s.len() > 0 {
        lemma_split_free(s.drop_last(), c);
        assert(s.drop_last().push(s.last()) =~= s);
        assert(split_on(s, c) =~= seq![s]);
    } else {
        assert(s =~= Seq::<char>::empty());
    }
}

proof fn lemma_split_append_free(x: Seq<char>, y: Seq<char>, c: char)
    requires
        free_of(y, c),
    ensures
        split_on(x, c).len() >= 1,
        split_on(x + y, c) == split_on(x, c).update(
            split_on(x, c).len() - 1,
            split_on(x, c).last() + y,
        ),
    decreases y.len(),
{
    lemma_split_nonempty(x, c);
    if y.len() == 0 {
        assert(x + y =~= x);
        assert(split_on(x, c).last() + y =~= split_on(x, c).last());
        assert(split_on(x, c).update(split_on(x, c).len() - 1, split_on(x, c).last() + y) =~= split_on(
            x,
            c,
        ));
    } else {
        let y0 = y.drop_last();
        lemma_split_append_free(x, y0, c);
        let xy = x + y;
        assert(xy.drop_last() =~= x + y0);
        assert(xy.last() == y.last());
        assert(y.last() != c);
        lemma_split_nonempty(x + y0, c);
        assert((split_on(x, c).last() + y0).push(y.last()) =~= split_on(x, c).last() + y);
        assert(split_on(xy, c) =~= split_on(x, c).update(
            split_on(x, c).len() - 1,
            split_on(x, c).last() + y,
        ));
    }
}

proof fn lemma_split_append_sep(x: Seq<char>, c: char)
    ensures
        split_on(x.push(c), c) == split_on(x, c).push(seq![]),
{
    assert(x.push(c).drop_last() =~= x);
}

proof fn lemma_dec_free(n: nat)
    ensures
        free_of(dec(n), ':'),
    decreases n,
{
    if n >= 10 {
        lemma_dec_free(n / 10);
    }
}

proof fn lemma_hex_free(b: Seq<u8>)
    ensures
        free_of(hex_lower(b), ':'),
    decreases b.len(),
{
    if b.len() > 0 {
        lemma_hex_free(b.drop_last());
        let h = hex_lower(b.drop_last());
        let t = seq![hex_digit((b.last() / 16) as nat), hex_digit((b.last() % 16) as nat)];
        assert(hex_lower(b) == h + t);
        assert forall|i: int| 0 <= i < (h + t).len() implies (h + t)[i] != ':' by {
            if i >= h.len() {
                assert((h + t)[i] == t[i - h.len()]);
            } else {
                assert((h + t)[i] == h[i]);
            }
        }
    }
}

/// A session token minted for a device whose id has no `:` passes the
/// integrity check with the same access token: it starts with `devolens:`,
/// splits into four parts at `:`, and its last part is the signature of
/// the device id and timestamp in between.
pub proof fn law_signed_token_checks(device_id: Seq<char>, timestamp_ms: i64, access_token: Seq<char>)
    requires
        free_of(device_id, ':'),
    ensures
        ({
            let ts = dec_int(timestamp_ms as int);
            let token = signed_token_text(device_id, ts, session_signature(device_id, ts, access_token));
            let parts = split_on(token, ':');
            &&& has_prefix(token, "devolens:"@)
            &&& parts.len() == 4
            &&& parts[1] == device_id
            &&& parts[2] == ts
            &&& session_signature(parts[1], parts[2], access_token) == parts[3]
        }),
{
    let ts = dec_int(timestamp_ms as int);
    let sig = session_signature(device_id, ts, access_token);
    let token = signed_token_text(device_id, ts, sig);
    reveal_strlit("devolens:");
    reveal_strlit(":");
    let head = seq!['d', 'e', 'v', 'o', 'l', 'e', 'n', 's'];
    assert("devolens:"@ =~= head.push(':'));
    assert(":"@ =~= seq![':']);
    if timestamp_ms < 0 {
        lemma_dec_free((-timestamp_ms) as nat);
        let d = dec((-timestamp_ms) as nat);
        assert forall|i: int| 0 <= i < ts.len() implies ts[i] != ':' by {
            if i > 0 {
                assert(ts[i] == d[i - 1]);
            }
        }
    } else {
        lemma_dec_free(timestamp_ms as nat);
    }
    lemma_hex_free(
        sha256_digest(signature_input(encode_utf8(device_id), encode_utf8(ts), encode_utf8(access_token))),
    );
    assert(free_of(sig, ':'));
    assert(free_of(head, ':'));
    lemma_split_free(head, ':');
    let p1 = head.push(':');
    lemma_split_append_sep(head, ':');
    let p2 = p1 + device_id;
    lemma_split_append_free(p1, device_id, ':');
    assert(split_on(p2, ':') =~= seq![head, device_id]);
    let p3 = p2.push(':');
    lemma_split_append_sep(p2, ':');
    let p4 = p3 + ts;
    lemma_split_append_free(p3, ts, ':');
    assert(split_on(p4, ':') =~= seq![head, device_id, ts]);
    let p5 = p4.push(':');
    lemma_split_append_sep(p4, ':');
    let p6 = p5 + sig;
    lemma_split_append_free(p5, sig, ':');
    assert(split_on(p6, ':') =~= seq![head, device_id, ts, sig]);
    assert(token =~= p6);
    assert(token.take(9) =~= "devolens:"@);
}

/// What validating a session decides before the provider is asked: a token
/// that is not a Devolens one needs a new login; a malformed or wrongly
/// signed one is refused as needing re-authentication; `None` for a
/// signed token, which the provider must then validate.
pub fn screen_session_token(token: &str, access_token: &str) -> (r: Option<Result<ValidationOutcome, AuthError>>)
    ensures
        !has_prefix(token@, "devolens:"@) ==> r matches Some(Ok(ValidationOutcome::ReauthRequired)),
        has_prefix(token@, "devolens:"@) ==> {
            let parts = split_on(token@, ':');
            if parts.len() != 4 {
                r matches Some(Err(AuthError::ReauthRequired))
            } else if session_signature(parts[1], parts[2], access_token@) == parts[3] {
                r is None
            } else {
                r matches Some(Err(AuthError::ReauthRequired))
            }
        },
{
    match check_session_token(token, access_token) {
        SessionTokenCheck::NotDevolens => Some(Ok(ValidationOutcome::ReauthRequired)),
        SessionTokenCheck::Rejected => Some(Err(AuthError::ReauthRequired)),
        SessionTokenCheck::Signed => None,
    }
}

/// What a successful validation reply makes of the session: revoked when
/// the reply or the license is not in good standing, a new login when the
/// masked key or the bound device is missing, else active.
pub fn session_outcome(v: &DevolensValidationResponse) -> (r: ValidationOutcome)
    ensures
        !reply_succeeded(v.result, v.result_pascal) || !reply_license_active(
            v.result,
            v.result_pascal,
            v.license_key,
            v.license_key_pascal,
        ) ==> r is Revoked,
        reply_succeeded(v.result, v.result_pascal) && reply_license_active(
            v.result,
            v.result_pascal,
            v.license_key,
            v.license_key_pascal,
        ) ==> match (v.masked_license_key, v.bound_device) {
            (Some(m), Some(b)) => r matches ValidationOutcome::Active {
                masked_license_key,
                bound_device,
                token_expires_at_ms,
            } && masked_license_key@ == m@ && bound_device == b && token_expires_at_ms == match v.token_expires_at_ms {
                Some(t) => t,
                None => 0,
            },
            _ => r is ReauthRequired,
        },
{
    if !v.is_success() || !v.license_is_active() {
        return ValidationOutcome::Revoked;
    }
    let masked = match &v.masked_license_key {
        Some(m) => m.clone(),
        None => return ValidationOutcome::ReauthRequired,
    };
    let bound = match &v.bound_device {
        Some(b) => b.duplicate(),
        None => return ValidationOutcome::ReauthRequired,
    };
    ValidationOutcome::Active {
        masked_license_key: masked,
        bound_device: bound,
        token_expires_at_ms: match v.token_expires_at_ms {
            Some(t) => t,
            None => 0,
        },
    }
}


// ---------------------------------------------------------------------------
// Activation and device-reset outcomes
// ---------------------------------------------------------------------------

/// A successful activation: the session token, the masked key, the device
/// now bound to the license, the entitlement and when the session ends.

pub struct ActivationOutcome {
    pub access_token: String,
    pub masked_license_key: String,
    pub bound_device: BoundDeviceSummary,
    pub entitlement: EntitlementStatus,
    pub token_expires_at_ms: i64,
}

/// A session lasts a day unless the provider says otherwise.
pub const SESSION_LIFETIME_MS: i64 = 86_400_000;

/// `{prefix}{decimal timestamp}`.
pub open spec fn stamped(prefix: Seq<char>, timestamp_ms: i64) -> Seq<char> {
    prefix + dec_int(timestamp_ms as int)
}

fn stamped_text(prefix: &str, timestamp_ms: i64) -> (r: String)
    ensures
        r@ == stamped(prefix@, timestamp_ms),
{
    let ts = i64_to_string(timestamp_ms);
    concat2(prefix, ts.as_str())
}

/// What the local stand-in worker answers to an activation: always a
/// day-long session `mock-token-{timestamp}` for the requesting device.
pub fn mock_activation_outcome(
    request: &ActivationRequest,
    device_id: &str,
    masked_license_key: &str,
) -> (r: ActivationOutcome)
    requires
        request.timestamp_ms + SESSION_LIFETIME_MS <= i64::MAX,
    ensures
        r.access_token@ == stamped("mock-token-"@, request.timestamp_ms),
        r.masked_license_key@ == masked_license_key@,
        r.bound_device.device_id@ == device_id@,
        r.bound_device.public_key == request.device_public_key,
        r.bound_device.fingerprint == request.fingerprint,
        r.entitlement == EntitlementStatus::Active,
        r.token_expires_at_ms == request.timestamp_ms + SESSION_LIFETIME_MS,
{
    ActivationOutcome {
        access_token: stamped_text("mock-token-", request.timestamp_ms),
        masked_license_key: masked_license_key.to_string(),
        bound_device: BoundDeviceSummary {
            device_id: device_id.to_string(),
            public_key: request.device_public_key.clone(),
            fingerprint: request.fingerprint.duplicate(),
        },
        entitlement: EntitlementStatus::Active,
        token_expires_at_ms: request.timestamp_ms + SESSION_LIFETIME_MS,
    }
}

/// What the local stand-in worker answers to a device-reset request: a
/// pending request `mock-reset-{timestamp}`.
pub fn mock_reset_status(request: &DeviceResetRequest) -> (r: DeviceResetStatus)
    ensures
        r matches DeviceResetStatus::Pending { request_id, created_at_ms }
            && request_id@ == stamped("mock-reset-"@, request.timestamp_ms)
            && created_at_ms == request.timestamp_ms,
{
    DeviceResetStatus::Pending {
        request_id: stamped_text("mock-reset-", request.timestamp_ms),
        created_at_ms: request.timestamp_ms,
    }
}

/// When a session that the provider granted ends: the provider's expiry, or
/// a day after the request.
pub open spec fn activation_expiry(expires_at_ms: Option<i64>, timestamp_ms: i64) -> int {
    match expires_at_ms {
        Some(t) => t as int,
        None => timestamp_ms + SESSION_LIFETIME_MS,
    }
}

/// Turns the provider's answer to an activation into the session it grants:
/// refused as an invalid key when the call failed, as needing a new login
/// when the license is not in good standing; otherwise a session signed
/// with the access token for the device, `devolens:{device}:{timestamp}:{signature}`.
pub fn devolens_activation_outcome(
    activation: &DevolensActivationResponse,
    request: &ActivationRequest,
    device_id: &str,
    masked_license_key: &str,
    access_token: &str,
) -> (r: Result<ActivationOutcome, AuthError>)
    requires
        activation.expires_at_ms is None ==> request.timestamp_ms + SESSION_LIFETIME_MS <= i64::MAX,
    ensures
        !reply_succeeded(activation.result, activation.result_pascal) ==> r matches Err(
            AuthError::InvalidLicenseKey,
        ),
        reply_succeeded(activation.result, activation.result_pascal) && !reply_license_active(
            activation.result,
            activation.result_pascal,
            activation.license_key,
            activation.license_key_pascal,
        ) ==> r matches Err(AuthError::ReauthRequired),
        reply_succeeded(activation.result, activation.result_pascal) && reply_license_active(
            activation.result,
            activation.result_pascal,
            activation.license_key,
            activation.license_key_pascal,
        ) ==> (r matches Ok(o) && o.access_token@ == signed_token_text(
            device_id@,
            dec_int(request.timestamp_ms as int),
            session_signature(device_id@, dec_int(request.timestamp_ms as int), access_token@),
        ) && o.masked_license_key@ == masked_license_key@ && o.bound_device.device_id@ == device_id@
            && o.bound_device.public_key == request.device_public_key && o.bound_device.fingerprint
            == request.fingerprint && o.entitlement == EntitlementStatus::Active
            && o.token_expires_at_ms == activation_expiry(
            activation.expires_at_ms,
            request.timestamp_ms,
        )),
{
    if !activation.is_success() {
        return Err(AuthError::InvalidLicenseKey);
    }
    if !activation.license_is_active() {
        return Err(AuthError::ReauthRequired);
    }
    let token = signed_session_token(device_id, request.timestamp_ms, access_token);
    let expires = match activation.expires_at_ms {
        Some(t) => t,
        None => request.timestamp_ms + SESSION_LIFETIME_MS,
    };
    Ok(ActivationOutcome {
        access_token: token,
        masked_license_key: masked_license_key.to_string(),
        bound_device: BoundDeviceSummary {
            device_id: device_id.to_string(),
            public_key: request.device_public_key.clone(),
            fingerprint: request.fingerprint.duplicate(),
        },
        entitlement: EntitlementStatus::Active,
        token_expires_at_ms: expires,
    })
}

/// Turns the provider's answer to a deactivation into the reset status: a
/// request without a license key, a failed HTTP status or a failed reply
/// are invalid reset requests; otherwise the reset is approved at once as
/// `reset-{timestamp}`.
/// What a reset request needs before it is sent to the provider: its
/// license key, which the deactivation names; a request without one is
/// refused without asking.
pub fn devolens_reset_precheck(request: &DeviceResetRequest) -> (r: Result<String, AuthError>)
    ensures
        match request.license_key {
            Some(k) => r == Ok::<String, AuthError>(k),
            None => r matches Err(AuthError::InvalidResetRequest),
        },
{
    match &request.license_key {
        Some(k) => Ok(k.clone()),
        None => Err(AuthError::InvalidResetRequest),
    }
}

pub fn devolens_reset_outcome(
    request: &DeviceResetRequest,
    http_status: u16,
    reply: &DevolensActivationResponse,
) -> (r: Result<DeviceResetStatus, AuthError>)
    ensures
        (request.license_key is None || !is_success_status(http_status) || !reply_succeeded(
            reply.result,
            reply.result_pascal,
        )) ==> r matches Err(AuthError::InvalidResetRequest),
        (request.license_key is Some && is_success_status(http_status) && reply_succeeded(
            reply.result,
            reply.result_pascal,
        )) ==> (r matches Ok(DeviceResetStatus::Approved { request_id, decided_at_ms })
            && request_id@ == stamped("reset-"@, request.timestamp_ms) && decided_at_ms
            == request.timestamp_ms),
{
    if let Err(e) = devolens_reset_precheck(request) {
        return Err(e);
    }
    if !(200 <= http_status && http_status < 300) {
        return Err(AuthError::InvalidResetRequest);
    }
    if !reply.is_success() {
        return Err(AuthError::InvalidResetRequest);
    }
    Ok(DeviceResetStatus::Approved {
        request_id: stamped_text("reset-", request.timestamp_ms),
        decided_at_ms: request.timestamp_ms,
    })
}

/// The provider approves resets at once, so a reset id it issued
/// (`reset-...`) is approved; any other id is unknown.
pub fn devolens_reset_status(request_id: &str) -> (r: Result<DeviceResetStatus, AuthError>)
    ensures
        has_prefix(request_id@, "reset-"@) ==> (r matches Ok(
            DeviceResetStatus::Approved { request_id: id, decided_at_ms },
        ) && id@ == request_id@ && decided_at_ms == 0),
        !has_prefix(request_id@, "reset-"@) ==> r matches Err(AuthError::ResetRequestNotFound),
{
    if starts_with_str(request_id, "reset-") {
        Ok(DeviceResetStatus::Approved { request_id: request_id.to_string(), decided_at_ms: 0 })
    } else {
        Err(AuthError::ResetRequestNotFound)
    }
}

// ---------------------------------------------------------------------------
// The licensing state of the desktop client
// ---------------------------------------------------------------------------

/// What the desktop client's licensing service is made of: the worker
/// client, where secrets go (the keychain service and namespace, and the
/// fallback file), where the device identity is kept, and the app version
/// it reports.

pub struct AuthAppState {
    pub worker: WorkerBackend,
    pub keychain_service: String,
    pub storage_namespace: String,
    pub secrets_fallback_path: String,
    pub identity: RuntimeDeviceIdentityProvider,
    pub app_version: String,
}

/// `{namespace}.session_secrets_fallback.json`: the file, under `auth/`,
/// that keeps session secrets when the keychain does not.
pub open spec fn fallback_file_name(namespace: Seq<char>) -> Seq<char> {
    namespace + ".session_secrets_fallback.json"@
}

/// Assembles the licensing state under an app data directory, on a
/// platform whose path separator is `separator`: secrets fall back to
/// `auth/{namespace}.session_secrets_fallback.json` and the identity is
/// kept in `auth/`. Fails exactly when the worker client cannot be built.
pub fn build_auth_state_from_parts(
    worker_config: &LicenseWorkerConfig,
    app_data_dir: &str,
    separator: char,
    app_version: &str,
) -> (r: Result<AuthAppState, AuthError>)
    ensures
        match r {
            Ok(state) => {
                &&& is_worker_client_for(*worker_config, Ok(state.worker))
                &&& state.keychain_service@ == worker_config.keychain_service@
                &&& state.storage_namespace@ == worker_config.storage_namespace@
                &&& state.secrets_fallback_path@ == path_join(
                    path_join(app_data_dir@, "auth"@, separator),
                    fallback_file_name(worker_config.storage_namespace@),
                    separator,
                )
                &&& state.identity.identity_file() == path_join(app_data_dir@, "auth"@, separator)
                &&& state.app_version@ == app_version@
            },
            Err(e) => is_worker_client_for(*worker_config, Err(e)),
        },
{
    let worker = match build_worker_client(worker_config) {
        Ok(w) => w,
        Err(e) => return Err(e),
    };
    let auth_dir = join_name(app_data_dir, "auth", separator);
    let file = concat2(worker_config.storage_namespace.as_str(), ".session_secrets_fallback.json");
    let fallback = join_name(auth_dir.as_str(), file.as_str(), separator);
    Ok(AuthAppState {
        worker,
        keychain_service: worker_config.keychain_service.clone(),
        storage_namespace: worker_config.storage_namespace.clone(),
        secrets_fallback_path: fallback,
        identity: RuntimeDeviceIdentityProvider::new(auth_dir),
        app_version: app_version.to_string(),
    })
}

} // verus!
