//! The licensing data the desktop client exchanges with its license worker:
//! errors, activation and device-reset requests, and their outcomes.

use vstd::prelude::*;

verus! {

/// Why a licensing operation failed.
#[derive(Debug, Clone)]
pub enum AuthError {
    InvalidLicenseKey,
    InvalidPurchaseEmail,
    InvalidDeviceIdentity,
    InvalidResetRequest,
    DeviceAlreadyBound,
    ReauthRequired,
    WorkerUnreachable,
    ResetRequestNotFound,
    Unauthorized,
    Storage(String),
    Serialization(String),
    InvalidTransition(String),
}

/// What a license entitles its holder to, as the worker reports it.
#[derive(Debug, Clone, Copy, PartialEq, Eq, Structural)]
pub enum EntitlementStatus {
    Active,
    Disabled,
}

/// The platform description a device reports when it binds a license.
#[derive(Debug, Clone)]
pub struct DeviceFingerprint {
    pub platform: String,
    pub os: String,
    pub arch: String,
    pub hostname_hash: Option<String>,
}

fn copy_opt_string(s: &Option<String>) -> (r: Option<String>)
    ensures
        r == *s,
{
    match s {
        Some(v) => Some(v.clone()),
        None => None,
    }
}

impl DeviceFingerprint {
    /// A field-for-field copy.
    pub fn duplicate(&self) -> (r: Self)
        ensures
            r == *self,
    {
        DeviceFingerprint {
            platform: self.platform.clone(),
            os: self.os.clone(),
            arch: self.arch.clone(),
            hostname_hash: copy_opt_string(&self.hostname_hash),
        }
    }
}

/// A request to bind a license to this device.
#[derive(Clone)]
pub struct ActivationRequest {
    pub license_key: String,
    pub device_public_key: String,
    pub fingerprint: DeviceFingerprint,
    pub app_version: String,
    pub timestamp_ms: i64,
}

/// A request to release the device a license is bound to.
#[derive(Clone)]
pub struct DeviceResetRequest {
    pub license_key: Option<String>,
    pub masked_license_key: Option<String>,
    pub purchaser_email: Option<String>,
    pub device_public_key: String,
    pub fingerprint: DeviceFingerprint,
    pub app_version: String,
    pub timestamp_ms: i64,
}

/// The device a license is bound to.
#[derive(Debug, Clone)]
pub struct BoundDeviceSummary {
    pub device_id: String,
    pub public_key: String,
    pub fingerprint: DeviceFingerprint,
}

impl BoundDeviceSummary {
    /// A field-for-field copy.
    pub fn duplicate(&self) -> (r: Self)
        ensures
            r == *self,
    {
        BoundDeviceSummary {
            device_id: self.device_id.clone(),
            public_key: self.public_key.clone(),
            fingerprint: self.fingerprint.duplicate(),
        }
    }
}

/// The state of a device-reset request.
#[derive(Debug, Clone)]
pub enum DeviceResetStatus {
    Pending { request_id: String, created_at_ms: i64 },
    Approved { request_id: String, decided_at_ms: i64 },
    Rejected { request_id: String, decided_at_ms: i64 },
}

/// What validating a session token found.
#[derive(Debug, Clone)]
pub enum ValidationOutcome {
    Active { masked_license_key: String, bound_device: BoundDeviceSummary, token_expires_at_ms: i64 },
    ReauthRequired,
    Revoked,
}

/// The licensing commands the desktop shell registers, by name, in the
/// order it registers them.
pub fn command_names() -> (r: [&'static str; 6])
    ensures
        r@[0]@ == "activate_license"@,
        r@[1]@ == "validate_session"@,
        r@[2]@ == "request_device_reset"@,
        r@[3]@ == "get_device_reset_status"@,
        r@[4]@ == "clear_local_session"@,
        r@[5]@ == "get_auth_state"@,
{
    [
        "activate_license",
        "validate_session",
        "request_device_reset",
        "get_device_reset_status",
        "clear_local_session",
        "get_auth_state",
    ]
}

} // verus!
