//! Deleting a customer's personal data, on request from the desktop client.
//!
//! With the Devolens provider a deletion blocks the license key at once; the
//! request id then carries the key, hex-encoded, so that its status can be
//! looked up again. The HTTP exchange is the caller's.

use vstd::prelude::*;
use crate::hex::{
    bytes_to_hex, hex_ascii_bytes, hex_decode, hex_digit, hex_lower, hex_to_bytes, law_hex_roundtrip,
    lemma_hex_lower_len, pair_slicing_panics, sha256_digest, sha256_hex,
};
use crate::text::{chars_of, concat2, dec, has_prefix, slice_chars, starts_with_str, string_of, trim, trim_str, u64_to_string};
use vstd::string::StringSliceAdditionalSpecFns;
use vstd::utf8::{decode_utf8, encode_utf8, is_ascii_chars, valid_utf8};

verus! {

/// A customer's request to delete their data.
#[derive(Debug, Clone)]
pub struct UserDataDeletionInput {
    pub license_key: String,
    pub purchaser_email: Option<String>,
    pub confirmation: String,
}

/// A request to look up a deletion's progress.
#[derive(Debug, Clone)]
pub struct UserDataDeletionStatusInput {
    pub request_id: String,
    pub lookup_token: String,
}

/// A deletion's progress as the client shows it.
#[derive(Debug, Clone)]
pub struct UserDataDeletionView {
    pub request_id: String,
    pub lookup_token: Option<String>,
    pub status: String,
    pub message: Option<String>,
    pub completed_at_ms: Option<u64>,
    pub error_code: Option<String>,
}

/// An error shown to the customer.
#[derive(Debug, Clone)]
pub struct PrivacyCommandError {
    pub code: String,
    pub message: String,
}

pub open spec fn is_privacy_error(e: PrivacyCommandError, code: Seq<char>, message: Seq<char>) -> bool {
    e.code@ == code && e.message@ == message
}

pub fn command_error(code: &str, message: &str) -> (e: PrivacyCommandError)
    ensures
        is_privacy_error(e, code@, message@),
{
    PrivacyCommandError { code: code.to_string(), message: message.to_string() }
}

/// A checked deletion request: the trimmed key and confirmation, and the
/// purchaser's e-mail when one was given.
#[derive(Debug, Clone)]
pub struct DeletionRequest {
    pub license_key: String,
    pub confirmation: String,
    pub purchaser_email: Option<String>,
}

/// A deletion needs a license key and the typed confirmation `DELETE`
/// (both trimmed); a blank e-mail counts as none.
pub fn check_deletion_input(input: &UserDataDeletionInput) -> (r: Result<DeletionRequest, PrivacyCommandError>)
    ensures
        (trim(input.license_key@).len() == 0 || trim(input.confirmation@) != "DELETE"@) ==> (r matches Err(e)
            && is_privacy_error(
            e,
            "invalid_deletion_request"@,
            "Deletion request requires a license key and DELETE confirmation."@,
        )),
        (trim(input.license_key@).len() > 0 && trim(input.confirmation@) == "DELETE"@) ==> (r matches Ok(d)
            && d.license_key@ == trim(input.license_key@) && d.confirmation@ == "DELETE"@ && match input.purchaser_email {
            Some(m) => if trim(m@).len() > 0 {
                d.purchaser_email matches Some(x) && x@ == trim(m@)
            } else {
                d.purchaser_email is None
            },
            None => d.purchaser_email is None,
        }),
{
    let key = trim_str(input.license_key.as_str());
    let confirmation = trim_str(input.confirmation.as_str());
    let expected = "DELETE".to_string();
    if key.as_str().is_empty() || confirmation != expected {
        return Err(
            command_error(
                "invalid_deletion_request",
                "Deletion request requires a license key and DELETE confirmation.",
            ),
        );
    }
    let email = match &input.purchaser_email {
        Some(m) => {
            let t = trim_str(m.as_str());
            if t.as_str().is_empty() {
                None
            } else {
                Some(t)
            }
        },
        None => None,
    };
    Ok(DeletionRequest { license_key: key, confirmation, purchaser_email: email })
}

/// A status lookup needs a request id and a lookup token, both non-blank;
/// they are kept trimmed.
pub fn check_status_input(input: &UserDataDeletionStatusInput) -> (r: Result<(String, String), PrivacyCommandError>)
    ensures
        (trim(input.request_id@).len() == 0 || trim(input.lookup_token@).len() == 0) ==> (r matches Err(e)
            && is_privacy_error(e, "bad_request"@, "Deletion status requires a request id and lookup token."@)),
        (trim(input.request_id@).len() > 0 && trim(input.lookup_token@).len() > 0) ==> (r matches Ok((a, b))
            && a@ == trim(input.request_id@) && b@ == trim(input.lookup_token@)),
{
    let id = trim_str(input.request_id.as_str());
    let token = trim_str(input.lookup_token.as_str());
    if id.as_str().is_empty() || token.as_str().is_empty() {
        return Err(command_error("bad_request", "Deletion status requires a request id and lookup token."));
    }
    Ok((id, token))
}

// ---------------------------------------------------------------------------
// Devolens request ids
// ---------------------------------------------------------------------------

/// `del_dev_` and the hex of the key's UTF-8 bytes.
pub open spec fn devolens_request_id_of(license_key: Seq<char>) -> Seq<char> {
    "del_dev_"@ + hex_lower(encode_utf8(license_key))
}

pub fn devolens_request_id(license_key: &str) -> (r: String)
    ensures
        r@ == devolens_request_id_of(license_key@),
{
    let h = bytes_to_hex(license_key.as_bytes());
    concat2("del_dev_", h.as_str())
}

/// The license key a Devolens request id carries: nothing for an id of
/// another form; an error when the hex or the UTF-8 does not decode.
pub open spec fn key_in_request_id(request_id: Seq<char>) -> Option<Result<Seq<char>, Seq<char>>> {
    if !has_prefix(request_id, "del_dev_"@) {
        None
    } else {
        match hex_decode(encode_utf8(request_id.skip(8))) {
            None => Some(Err("Request ID has invalid Devolens encoding."@)),
            Some(bytes) => if valid_utf8(bytes) {
                Some(Ok(decode_utf8(bytes)))
            } else {
                Some(Err("Request ID has invalid UTF-8 license key."@))
            },
        }
    }
}

/// `String::from_utf8`: the text the bytes encode when they are valid
/// UTF-8, nothing otherwise.
#[verifier::external_body]
fn utf8_text(bytes: Vec<u8>) -> (r: Option<String>)
    ensures
        match r {
            Some(s) => valid_utf8(bytes@) && s@ == decode_utf8(bytes@),
            None => !valid_utf8(bytes@),
        },
{
    String::from_utf8(bytes).ok()
}

/// Reads the license key out of a Devolens request id; ids whose hex part
/// would be cut inside a character are left out.
pub fn decode_devolens_request_id(request_id: &str) -> (r: Option<Result<String, PrivacyCommandError>>)
    requires
        has_prefix(request_id@, "del_dev_"@) && encode_utf8(request_id@.skip(8)).len() % 2 == 0
            ==> !pair_slicing_panics(encode_utf8(request_id@.skip(8)), 0),
    ensures
        match key_in_request_id(request_id@) {
            None => r is None,
            Some(Ok(k)) => r matches Some(Ok(s)) && s@ == k,
            Some(Err(m)) => r matches Some(Err(e)) && is_privacy_error(e, "invalid_request_id"@, m),
        },
{
    if !starts_with_str(request_id, "del_dev_") {
        return None;
    }
    let v = chars_of(request_id);
    proof {
        reveal_strlit("del_dev_");
    }
    let tail = slice_chars(&v, 8, v.len());
    assert(tail@ =~= request_id@.skip(8));
    let hex = string_of(tail.as_slice());
    match hex_to_bytes(hex.as_str()) {
        None => Some(Err(command_error("invalid_request_id", "Request ID has invalid Devolens encoding."))),
        Some(bytes) => match utf8_text(bytes) {
            Some(s) => Some(Ok(s)),
            None => Some(Err(command_error("invalid_request_id", "Request ID has invalid UTF-8 license key."))),
        },
    }
}

proof fn lemma_hex_is_ascii(b: Seq<u8>)
    ensures
        is_ascii_chars(hex_lower(b)),
    decreases b.len(),
{
    if b.len() > 0 {
        lemma_hex_is_ascii(b.drop_last());
    }
}

proof fn lemma_ascii_no_slicing_panic(b: Seq<u8>, k: int)
    requires
        forall|i: int| 0 <= i < b.len() ==> b[i] < 128,
        0 <= k,
    ensures
        !pair_slicing_panics(b, k),
    decreases b.len() - k,
{
    if k + 2 <= b.len() {
        lemma_ascii_no_slicing_panic(b, k + 2);
    }
}

/// The request id of a Devolens deletion gives back the license key it was
/// made for.
pub proof fn law_devolens_request_id_roundtrip(license_key: Seq<char>)
    ensures
        key_in_request_id(devolens_request_id_of(license_key)) == Some(Ok::<Seq<char>, Seq<char>>(license_key)),
        !pair_slicing_panics(encode_utf8(devolens_request_id_of(license_key).skip(8)), 0),
{
    let bytes = encode_utf8(license_key);
    let id = devolens_request_id_of(license_key);
    let h = hex_lower(bytes);
    assert(has_prefix(id, "del_dev_"@)) by {
        reveal_strlit("del_dev_");
        assert(id.take(8) =~= "del_dev_"@);
    }
    assert(id.skip(8) =~= h) by {
        reveal_strlit("del_dev_");
    }
    lemma_hex_is_ascii(bytes);
    vstd::utf8::is_ascii_chars_encode_utf8(h);
    assert(encode_utf8(h) =~= hex_ascii_bytes(h));
    law_hex_roundtrip(bytes);
    vstd::utf8::encode_utf8_valid_utf8(license_key);
    vstd::utf8::encode_utf8_decode_utf8(license_key);
    assert forall|i: int| 0 <= i < encode_utf8(h).len() implies encode_utf8(h)[i] < 128 by {
        assert(h[i] as u8 == encode_utf8(h)[i]);
    }
    lemma_ascii_no_slicing_panic(encode_utf8(h), 0);
}

// ---------------------------------------------------------------------------
// Devolens replies
// ---------------------------------------------------------------------------

/// Devolens calls need the access token and the product id, both non-blank.
pub fn check_devolens_credentials(access_token: &str, product_id: &str) -> (r: Result<(), PrivacyCommandError>)
    ensures
        (trim(access_token@).len() == 0 || trim(product_id@).len() == 0) ==> (r matches Err(e)
            && is_privacy_error(e, "unauthorized"@, "Devolens access token or product id is not configured."@)),
        (trim(access_token@).len() > 0 && trim(product_id@).len() > 0) ==> r is Ok,
{
    if trim_str(access_token).as_str().is_empty() || trim_str(product_id).as_str().is_empty() {
        return Err(command_error("unauthorized", "Devolens access token or product id is not configured."));
    }
    Ok(())
}

pub open spec fn deleted_message() -> Seq<char> {
    "License key has been blocked and personal data deleted/anonymized in Devolens."@
}

pub open spec fn pending_message() -> Seq<char> {
    "License key deletion/anonymization is still pending or not completed."@
}

/// A direct Devolens deletion's view: completed (with the time) or pending.
pub open spec fn is_devolens_view(v: UserDataDeletionView, license_key: Seq<char>, completed: bool, now_ms: u64) -> bool {
    &&& v.request_id@ == devolens_request_id_of(license_key)
    &&& v.lookup_token matches Some(t) && t@ == "devolens_direct"@
    &&& v.status@ == (if completed { "completed"@ } else { "pending"@ })
    &&& v.message matches Some(m) && m@ == (if completed { deleted_message() } else { pending_message() })
    &&& v.completed_at_ms == (if completed { Some(now_ms) } else { None })
    &&& v.error_code is None
}

fn devolens_view(license_key: &str, completed: bool, now_ms: u64) -> (v: UserDataDeletionView)
    ensures
        is_devolens_view(v, license_key@, completed, now_ms),
{
    UserDataDeletionView {
        request_id: devolens_request_id(license_key),
        lookup_token: Some("devolens_direct".to_string()),
        status: if completed {
            "completed".to_string()
        } else {
            "pending".to_string()
        },
        message: Some(
            if completed {
                "License key has been blocked and personal data deleted/anonymized in Devolens.".to_string()
            } else {
                "License key deletion/anonymization is still pending or not completed.".to_string()
            },
        ),
        completed_at_ms: if completed {
            Some(now_ms)
        } else {
            None
        },
        error_code: None,
    }
}

/// Reads Devolens' answer to blocking a key: a non-zero result is an
/// error with its message; otherwise the deletion is complete.
pub fn block_key_outcome(result: i32, message: &str, license_key: &str, now_ms: u64) -> (r: Result<UserDataDeletionView, PrivacyCommandError>)
    ensures
        result != 0 ==> (r matches Err(e) && is_privacy_error(e, "devolens_error"@, "Devolens error: "@ + message@)),
        result == 0 ==> (r matches Ok(v) && is_devolens_view(v, license_key@, true, now_ms)),
{
    if result != 0 {
        let m = concat2("Devolens error: ", message);
        return Err(PrivacyCommandError { code: "devolens_error".to_string(), message: m });
    }
    Ok(devolens_view(license_key, true, now_ms))
}

/// Reads Devolens' answer about a key: a non-zero result is an error;
/// otherwise the deletion is complete when the key is blocked.
pub fn get_key_outcome(result: i32, blocked: Option<bool>, license_key: &str, now_ms: u64) -> (r: Result<UserDataDeletionView, PrivacyCommandError>)
    ensures
        result != 0 ==> (r matches Err(e) && is_privacy_error(e, "devolens_error"@, "Devolens error retrieving key status."@)),
        result == 0 ==> (r matches Ok(v) && is_devolens_view(v, license_key@, blocked == Some(true), now_ms)),
{
    if result != 0 {
        return Err(command_error("devolens_error", "Devolens error retrieving key status."));
    }
    let is_blocked = match blocked {
        Some(b) => b,
        None => false,
    };
    Ok(devolens_view(license_key, is_blocked, now_ms))
}

// ---------------------------------------------------------------------------
// The worker
// ---------------------------------------------------------------------------

/// The envelope of a worker reply: whether it succeeded, its data when
/// present and well-formed, and its error's code and message.
#[derive(Debug, Clone)]
pub struct PrivacyEnvelope<T> {
    pub ok: bool,
    pub data: Option<T>,
    pub error: Option<(String, String)>,
}

/// Reads a worker reply: a body that is not an envelope is a serialization
/// error; `ok` gives the data (a missing one is an error); anything else is
/// the worker's error, or a generic one.
pub fn parse_worker_response<T>(envelope: Option<PrivacyEnvelope<T>>) -> (r: Result<T, PrivacyCommandError>)
    ensures
        match envelope {
            None => r matches Err(e) && is_privacy_error(e, "serialization"@, "Worker returned an invalid response."@),
            Some(env) => if env.ok {
                match env.data {
                    Some(d) => r == Ok::<T, PrivacyCommandError>(d),
                    None => r matches Err(e) && is_privacy_error(
                        e,
                        "serialization"@,
                        "Worker response was missing data."@,
                    ),
                }
            } else {
                match env.error {
                    Some((c, m)) => r matches Err(e) && e.code == c && e.message == m,
                    None => r matches Err(e) && is_privacy_error(e, "unknown"@, "Worker request failed."@),
                }
            },
        },
{
    match envelope {
        None => Err(command_error("serialization", "Worker returned an invalid response.")),
        Some(env) => {
            if env.ok {
                match env.data {
                    Some(d) => Ok(d),
                    None => Err(command_error("serialization", "Worker response was missing data.")),
                }
            } else {
                match env.error {
                    Some((c, m)) => Err(PrivacyCommandError { code: c, message: m }),
                    None => Err(command_error("unknown", "Worker request failed.")),
                }
            }
        },
    }
}

/// `privacy_` and the first 32 hex digits of the SHA-256 of
/// `{action}:{trimmed key}:{time}`.
pub open spec fn privacy_key_of(action: Seq<char>, license_key: Seq<char>, now_ms: u64) -> Seq<char> {
    "privacy_"@ + hex_lower(sha256_digest(encode_utf8(action + ":"@ + trim(license_key) + ":"@ + dec(now_ms as nat)))).take(32)
}

pub fn generate_idempotency_key(action: &str, license_key: &str, now_ms: u64) -> (r: String)
    ensures
        r@ == privacy_key_of(action@, license_key@, now_ms),
{
    let a = concat2(action, ":");
    let k = trim_str(license_key);
    let b = concat2(a.as_str(), k.as_str());
    let c = concat2(b.as_str(), ":");
    let seed = concat2(c.as_str(), u64_to_string(now_ms).as_str());
    let digest = sha256_hex(seed.as_str().as_bytes());
    let hv = chars_of(digest.as_str());
    let t = slice_chars(&hv, 0, 32);
    assert(t@ =~= hv@.take(32));
    let s = string_of(t.as_slice());
    concat2("privacy_", s.as_str())
}

} // verus!
