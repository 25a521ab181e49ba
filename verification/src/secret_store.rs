//! Keeping session secrets when the system keychain is unreliable: every
//! write also goes to a fallback file, and a read falls back to it when the
//! keychain has nothing or fails.
//!
//! The keychain and the file are the caller's; these functions decide what
//! a read gives and what a write leaves.

use vstd::prelude::*;
use crate::licensing::AuthError;

verus! {

/// The device's signing key pair.
#[derive(Clone)]
pub struct DeviceKeyPair {
    pub public_key: String,
    pub secret_key: String,
}

/// The secrets kept in the fallback file.
#[derive(Clone)]
pub struct FallbackSecrets {
    pub license_key: Option<String>,
    pub access_token: Option<String>,
    pub device_keypair: Option<DeviceKeyPair>,
}

/// What a read gives: the keychain's value when it has one, else the
/// fallback's.
pub open spec fn preferred<T>(primary: Result<Option<T>, AuthError>, fallback: Option<T>) -> Option<T> {
    match primary {
        Ok(Some(v)) => Some(v),
        _ => fallback,
    }
}

pub fn prefer_primary<T>(primary: Result<Option<T>, AuthError>, fallback: Option<T>) -> (r: Option<T>)
    ensures
        r == preferred(primary, fallback),
{
    match primary {
        Ok(Some(v)) => Some(v),
        _ => fallback,
    }
}

/// What a write comes to: a failure to save the fallback file is the
/// write's failure; the keychain's own failure is tolerated.
pub fn write_outcome(primary: Result<(), AuthError>, fallback_saved: Result<(), AuthError>) -> (r: Result<(), AuthError>)
    ensures
        match fallback_saved {
            Ok(()) => r is Ok,
            Err(e) => r == Err::<(), AuthError>(e),
        },
{
    match fallback_saved {
        Ok(()) => Ok(()),
        Err(e) => Err(e),
    }
}

impl FallbackSecrets {
    /// No secrets.
    pub fn empty() -> (r: Self)
        ensures
            r.license_key is None,
            r.access_token is None,
            r.device_keypair is None,
    {
        FallbackSecrets { license_key: None, access_token: None, device_keypair: None }
    }

    pub fn record_license_key(&mut self, value: String)
        ensures
            final(self).license_key == Some(value),
            final(self).access_token == old(self).access_token,
            final(self).device_keypair == old(self).device_keypair,
    {
        self.license_key = Some(value);
    }

    pub fn record_access_token(&mut self, value: String)
        ensures
            final(self).access_token == Some(value),
            final(self).license_key == old(self).license_key,
            final(self).device_keypair == old(self).device_keypair,
    {
        self.access_token = Some(value);
    }

    pub fn record_device_keypair(&mut self, value: DeviceKeyPair)
        ensures
            final(self).device_keypair == Some(value),
            final(self).license_key == old(self).license_key,
            final(self).access_token == old(self).access_token,
    {
        self.device_keypair = Some(value);
    }

    /// Signing out forgets the license key and the session token; the
    /// device's key pair stays.
    pub fn clear_session_secrets(&mut self)
        ensures
            final(self).license_key is None,
            final(self).access_token is None,
            final(self).device_keypair == old(self).device_keypair,
    {
        self.license_key = None;
        self.access_token = None;
    }
}

/// A license key written is read back: the write leaves it in the
/// fallback, and a read takes the keychain's value when it has one (the
/// written one, unless the keychain kept an older value after its own write
/// failed, which is left out) and the fallback's otherwise.
pub proof fn law_license_key_read_after_write(
    fallback: FallbackSecrets,
    value: String,
    primary: Result<Option<String>, AuthError>,
)
    requires
        fallback.license_key == Some(value),
        primary matches Ok(Some(v)) ==> v == value,
    ensures
        preferred(primary, fallback.license_key) == Some(value),
{
}

/// After signing out, a read finds the session secrets only where the
/// keychain still has them: the fallback has none left.
pub proof fn law_cleared_session_reads_primary_only(
    fallback: FallbackSecrets,
    primary: Result<Option<String>, AuthError>,
)
    requires
        fallback.license_key is None,
        fallback.access_token is None,
    ensures
        preferred(primary, fallback.license_key) == match primary {
            Ok(Some(v)) => Some(v),
            _ => None,
        },
        preferred(primary, fallback.access_token) == match primary {
            Ok(Some(v)) => Some(v),
            _ => None,
        },
{
}

/// The milliseconds since the Unix epoch by the system clock, when the
/// clock is not set before it; nothing is claimed of the value.
#[verifier::external_body]
fn millis_since_epoch() -> (r: Option<u128>)
{
    std::time::SystemTime::now().duration_since(std::time::UNIX_EPOCH).ok().map(|d| d.as_millis())
}

/// Keeps the device identity in a file of its own.
#[derive(Debug)]
pub struct RuntimeDeviceIdentityProvider {
    identity_path: String,
}

impl RuntimeDeviceIdentityProvider {
    /// The file the identity is kept in.
    pub closed spec fn identity_file(&self) -> Seq<char> {
        self.identity_path@
    }

    pub fn new(identity_path: String) -> (r: Self)
        ensures
            r.identity_file() == identity_path@,
    {
        RuntimeDeviceIdentityProvider { identity_path }
    }

    pub fn identity_path(&self) -> (r: &str)
        ensures
            r@ == self.identity_file(),
    {
        self.identity_path.as_str()
    }
}

/// The wall clock, in milliseconds since the Unix epoch.
pub struct SystemClock;

/// A clock reading as milliseconds since the epoch: capped at the largest
/// `i64`, and 0 when the clock read before the epoch (`None`).
pub open spec fn epoch_ms_of(reading: Option<u128>) -> i64 {
    match reading {
        Some(ms) => if ms > i64::MAX as u128 {
            i64::MAX
        } else {
            ms as i64
        },
        None => 0,
    }
}

/// Converts a clock reading as [`SystemClock::now_ms`] reports it.
pub fn epoch_ms_from_reading(reading: Option<u128>) -> (r: i64)
    ensures
        r == epoch_ms_of(reading),
{
    match reading {
        Some(ms) => if ms > i64::MAX as u128 {
            i64::MAX
        } else {
            ms as i64
        },
        None => 0,
    }
}

impl SystemClock {
    /// The time now, in milliseconds since the epoch: the clock's reading
    /// converted by [`epoch_ms_from_reading`].
    pub fn now_ms(&self) -> (r: i64)
        ensures
            r >= 0,
    {
        epoch_ms_from_reading(millis_since_epoch())
    }
}

} // verus!
