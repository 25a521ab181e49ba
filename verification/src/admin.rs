//! The support desk: talking to the license worker's admin API.
//!
//! The HTTP exchange and the secure store are the caller's; the functions
//! here check inputs, build request paths and keys, and read the worker's
//! replies.

use vstd::prelude::*;
use crate::hex::{hex_lower, sha256_digest, sha256_hex};
use crate::text::{
    chars_of, concat2, dec, has_prefix, slice_chars, string_of, strip_end_char, strip_end_char_chars,
    trim, trim_chars, trim_str, u64_to_string,
};
use crate::api_profiles::last_four;
use vstd::string::StringSliceAdditionalSpecFns;
use std::collections::BTreeMap;

verus! {

/// The state of a device-reset request.
#[derive(Debug, Clone, Copy, PartialEq, Eq, Structural)]
pub enum ResetRequestStatus {
    Pending,
    Approved,
    Rejected,
    Expired,
}

pub open spec fn reset_status_name(s: ResetRequestStatus) -> Seq<char> {
    match s {
        ResetRequestStatus::Pending => "pending"@,
        ResetRequestStatus::Approved => "approved"@,
        ResetRequestStatus::Rejected => "rejected"@,
        ResetRequestStatus::Expired => "expired"@,
    }
}

impl ResetRequestStatus {
    pub fn as_str(&self) -> (r: &'static str)
        ensures
            r@ == reset_status_name(*self),
    {
        match self {
            ResetRequestStatus::Pending => "pending",
            ResetRequestStatus::Approved => "approved",
            ResetRequestStatus::Rejected => "rejected",
            ResetRequestStatus::Expired => "expired",
        }
    }
}

/// The state of a data-deletion request.
#[derive(Debug, Clone, Copy, PartialEq, Eq, Structural)]
pub enum DeletionRequestStatus {
    Pending,
    Approved,
    Processing,
    Rejected,
    Completed,
    Failed,
}

pub open spec fn deletion_status_name(s: DeletionRequestStatus) -> Seq<char> {
    match s {
        DeletionRequestStatus::Pending => "pending"@,
        DeletionRequestStatus::Approved => "approved"@,
        DeletionRequestStatus::Processing => "processing"@,
        DeletionRequestStatus::Rejected => "rejected"@,
        DeletionRequestStatus::Completed => "completed"@,
        DeletionRequestStatus::Failed => "failed"@,
    }
}

impl DeletionRequestStatus {
    pub fn as_str(&self) -> (r: &'static str)
        ensures
            r@ == deletion_status_name(*self),
    {
        match self {
            DeletionRequestStatus::Pending => "pending",
            DeletionRequestStatus::Approved => "approved",
            DeletionRequestStatus::Processing => "processing",
            DeletionRequestStatus::Rejected => "rejected",
            DeletionRequestStatus::Completed => "completed",
            DeletionRequestStatus::Failed => "failed",
        }
    }
}

/// What the desk asks the worker to do.
#[derive(Debug, Clone, Copy, PartialEq, Eq, Structural)]
pub enum AdminAction {
    TestConnection,
    List,
    Overview,
    AuditEvents,
    IdempotencyRecords,
    Approve,
    Reject,
    DisableLicense,
    ListDeletionRequests,
    ApproveDeletionRequest,
    RejectDeletionRequest,
}

pub open spec fn admin_action_name(a: AdminAction) -> Seq<char> {
    match a {
        AdminAction::TestConnection => "test_connection"@,
        AdminAction::List => "list_reset_requests"@,
        AdminAction::Overview => "overview"@,
        AdminAction::AuditEvents => "audit_events"@,
        AdminAction::IdempotencyRecords => "idempotency_records"@,
        AdminAction::Approve => "approve_reset_request"@,
        AdminAction::Reject => "reject_reset_request"@,
        AdminAction::DisableLicense => "disable_license"@,
        AdminAction::ListDeletionRequests => "list_deletion_requests"@,
        AdminAction::ApproveDeletionRequest => "approve_deletion_request"@,
        AdminAction::RejectDeletionRequest => "reject_deletion_request"@,
    }
}

impl AdminAction {
    pub fn as_str(self) -> (r: &'static str)
        ensures
            r@ == admin_action_name(self),
    {
        match self {
            AdminAction::TestConnection => "test_connection",
            AdminAction::List => "list_reset_requests",
            AdminAction::Overview => "overview",
            AdminAction::AuditEvents => "audit_events",
            AdminAction::IdempotencyRecords => "idempotency_records",
            AdminAction::Approve => "approve_reset_request",
            AdminAction::Reject => "reject_reset_request",
            AdminAction::DisableLicense => "disable_license",
            AdminAction::ListDeletionRequests => "list_deletion_requests",
            AdminAction::ApproveDeletionRequest => "approve_deletion_request",
            AdminAction::RejectDeletionRequest => "reject_deletion_request",
        }
    }

    /// Whether the request names the acting desk (data-deletion decisions).
    pub fn names_actor(self) -> (b: bool)
        ensures
            b <==> (self == AdminAction::ApproveDeletionRequest || self == AdminAction::RejectDeletionRequest),
    {
        match self {
            AdminAction::ApproveDeletionRequest | AdminAction::RejectDeletionRequest => true,
            _ => false,
        }
    }
}

/// An error shown to the support desk.
#[derive(Debug, Clone)]
pub struct AdminCommandError {
    pub code: String,
    pub message: String,
    pub request_id: Option<String>,
    pub retryable: bool,
}

pub open spec fn is_command_error(
    e: AdminCommandError,
    code: Seq<char>,
    message: Seq<char>,
    request_id: Option<Seq<char>>,
    retryable: bool,
) -> bool {
    &&& e.code@ == code
    &&& e.message@ == message
    &&& match request_id {
        Some(r) => e.request_id matches Some(x) && x@ == r,
        None => e.request_id is None,
    }
    &&& e.retryable == retryable
}

pub fn command_error(code: &str, message: &str, request_id: Option<String>, retryable: bool) -> (e: AdminCommandError)
    ensures
        e.code@ == code@,
        e.message@ == message@,
        e.request_id == request_id,
        e.retryable == retryable,
{
    AdminCommandError { code: code.to_string(), message: message.to_string(), request_id, retryable }
}

// ---------------------------------------------------------------------------
// Configuration
// ---------------------------------------------------------------------------

/// What `url::Url::parse` makes of a text, read as the URL's scheme and
/// whether it has a host; nothing when it is not an absolute URL.
pub uninterp spec fn url_scheme_and_host(text: Seq<char>) -> Option<(Seq<char>, bool)>;

/// `reqwest::Url::parse`, then the parsed URL's `scheme` and whether
/// `host_str` is present; what the parser accepts is not restated.
#[verifier::external_body]
fn parse_url(text: &str) -> (r: Option<(String, bool)>)
    ensures
        match r {
            Some((s, h)) => url_scheme_and_host(text@) == Some((s@, h)),
            None => url_scheme_and_host(text@) is None,
        },
{
    match reqwest::Url::parse(text) {
        Ok(u) => Some((u.scheme().to_string(), u.host_str().is_some())),
        Err(_) => None,
    }
}

/// A base URL without surrounding whitespace and trailing slashes.
pub open spec fn base_url_text(value: Seq<char>) -> Seq<char> {
    strip_end_char(trim(value), '/')
}

pub open spec fn is_web_url(text: Seq<char>) -> bool {
    url_scheme_and_host(text) matches Some((scheme, host)) && (scheme == "http"@ || scheme == "https"@)
        && host
}

/// Checks the worker's base URL: it must be an http or https URL with a
/// host; it is kept without surrounding whitespace and trailing slashes.
pub fn validate_base_url(value: &str) -> (r: Result<String, AdminCommandError>)
    ensures
        base_url_text(value@).len() == 0 ==> (r matches Err(e) && is_command_error(
            e,
            "bad_request"@,
            "Worker API base URL is required."@,
            None,
            false,
        )),
        base_url_text(value@).len() > 0 && !is_web_url(base_url_text(value@)) ==> (r matches Err(e)
            && is_command_error(
            e,
            "bad_request"@,
            "Worker API base URL must be a valid http or https URL."@,
            None,
            false,
        )),
        base_url_text(value@).len() > 0 && is_web_url(base_url_text(value@)) ==> (r matches Ok(u)
            && u@ == base_url_text(value@)),
{
    let v = chars_of(value);
    let t = trim_chars(&v);
    let s = strip_end_char_chars(&t, '/');
    let trimmed = string_of(s.as_slice());
    if trimmed.as_str().is_empty() {
        return Err(command_error("bad_request", "Worker API base URL is required.", None, false));
    }
    let ok = match parse_url(trimmed.as_str()) {
        Some((scheme, host)) => {
            let http = "http".to_string();
            let https = "https".to_string();
            (scheme == http || scheme == https) && host
        },
        None => false,
    };
    if !ok {
        return Err(
            command_error("bad_request", "Worker API base URL must be a valid http or https URL.", None, false),
        );
    }
    Ok(trimmed)
}

/// The worker's base URL as the desk keeps it.
pub fn normalize_worker_base_url(value: &str) -> (r: Result<String, AdminCommandError>)
    ensures
        base_url_text(value@).len() > 0 && is_web_url(base_url_text(value@)) <==> r is Ok,
        r matches Ok(u) ==> u@ == base_url_text(value@),
        r matches Err(e) ==> e.code@ == "bad_request"@ && !e.retryable && e.request_id is None,
{
    validate_base_url(value)
}

/// Checks the admin token: it must not be blank; it is kept trimmed.
pub fn validate_token(value: &str) -> (r: Result<String, AdminCommandError>)
    ensures
        trim(value@).len() == 0 ==> (r matches Err(e) && is_command_error(
            e,
            "unauthorized"@,
            "Admin API token is required."@,
            None,
            false,
        )),
        trim(value@).len() > 0 ==> (r matches Ok(t) && t@ == trim(value@)),
{
    let t = trim_str(value);
    if t.as_str().is_empty() {
        return Err(command_error("unauthorized", "Admin API token is required.", None, false));
    }
    Ok(t)
}

/// A decision on a deletion request must give a reason; it is kept trimmed.
pub fn validate_support_reason(value: Option<&str>) -> (r: Result<String, AdminCommandError>)
    ensures
        match value {
            Some(v) => if trim(v@).len() > 0 {
                r matches Ok(t) && t@ == trim(v@)
            } else {
                r matches Err(e) && is_command_error(
                    e,
                    "bad_request"@,
                    "Support decision reason is required."@,
                    None,
                    false,
                )
            },
            None => r matches Err(e) && is_command_error(
                e,
                "bad_request"@,
                "Support decision reason is required."@,
                None,
                false,
            ),
        },
{
    match value {
        Some(v) => {
            let t = trim_str(v);
            if t.as_str().is_empty() {
                Err(command_error("bad_request", "Support decision reason is required.", None, false))
            } else {
                Ok(t)
            }
        },
        None => Err(command_error("bad_request", "Support decision reason is required.", None, false)),
    }
}

/// A token as it may be shown: `[redacted]`, with its last four characters
/// when it is longer than four.
pub open spec fn redacted(token: Seq<char>) -> Seq<char> {
    if token.len() <= 4 {
        "[redacted]"@
    } else {
        "[redacted]..."@ + last_four(token)
    }
}

pub fn redact_token(token: &str) -> (r: String)
    ensures
        r@ == redacted(token@),
{
    let v = chars_of(token);
    if v.len() <= 4 {
        return "[redacted]".to_string();
    }
    let tail = slice_chars(&v, v.len() - 4, v.len());
    assert(tail@ =~= v@.skip(v@.len() - 4));
    let suffix = string_of(tail.as_slice());
    concat2("[redacted]...", suffix.as_str())
}

/// The desk's configuration as the user interface shows it.
#[derive(Debug, Clone)]
pub struct AdminConfigView {
    pub base_url: Option<String>,
    pub token_configured: bool,
    pub token_redacted: Option<String>,
}

/// Shows the stored configuration: the base URL as stored, whether a
/// non-blank token is stored, and the token redacted.
pub fn admin_config_view(base_url: Option<String>, token: Option<&str>) -> (r: AdminConfigView)
    ensures
        r.base_url == base_url,
        r.token_configured == (token matches Some(t) && trim(t@).len() > 0),
        match token {
            Some(t) => r.token_redacted matches Some(x) && x@ == redacted(t@),
            None => r.token_redacted is None,
        },
{
    let configured = match token {
        Some(t) => !trim_str(t).as_str().is_empty(),
        None => false,
    };
    let red = match token {
        Some(t) => Some(redact_token(t)),
        None => None,
    };
    AdminConfigView { base_url, token_configured: configured, token_redacted: red }
}

/// The worker's address and token, once both are stored and valid.
#[derive(Debug, Clone)]
pub struct AdminConfig {
    pub base_url: String,
    pub token: String,
}

/// Reads the desk's configuration from what the secure store gave: a
/// failed read is a retryable storage error, a missing entry an incomplete
/// configuration; both values must then be valid.
pub fn config_from_store(
    base_url: Result<Option<String>, String>,
    token: Result<Option<String>, String>,
) -> (r: Result<AdminConfig, AdminCommandError>)
    ensures
        base_url is Err ==> (r matches Err(e) && is_command_error(
            e,
            "storage"@,
            "Could not load admin base URL."@,
            None,
            true,
        )),
        base_url == Ok::<Option<String>, String>(None) ==> (r matches Err(e) && is_command_error(
            e,
            "bad_request"@,
            "Admin configuration is incomplete."@,
            None,
            false,
        )),
        base_url matches Ok(Some(_)) ==> (token is Err ==> (r matches Err(e) && is_command_error(
            e,
            "storage"@,
            "Could not load admin token."@,
            None,
            true,
        ))),
        base_url matches Ok(Some(_)) ==> (token == Ok::<Option<String>, String>(None) ==> (
        r matches Err(e) && is_command_error(
            e,
            "unauthorized"@,
            "Admin token is not configured."@,
            None,
            false,
        ))),
        base_url matches Ok(Some(u)) ==> (token matches Ok(Some(t)) ==> (r is Ok <==> (base_url_text(
            u@,
        ).len() > 0 && is_web_url(base_url_text(u@)) && trim(t@).len() > 0))),
        r matches Ok(c) ==> (base_url matches Ok(Some(u)) && token matches Ok(Some(t)) && c.base_url@
            == base_url_text(u@) && c.token@ == trim(t@)),
{
    let b = match base_url {
        Err(_) => return Err(command_error("storage", "Could not load admin base URL.", None, true)),
        Ok(None) => return Err(command_error("bad_request", "Admin configuration is incomplete.", None, false)),
        Ok(Some(b)) => b,
    };
    let t = match token {
        Err(_) => return Err(command_error("storage", "Could not load admin token.", None, true)),
        Ok(None) => return Err(command_error("unauthorized", "Admin token is not configured.", None, false)),
        Ok(Some(t)) => t,
    };
    let base_url = match validate_base_url(b.as_str()) {
        Ok(u) => u,
        Err(e) => return Err(e),
    };
    let token = match validate_token(t.as_str()) {
        Ok(t) => t,
        Err(e) => return Err(e),
    };
    Ok(AdminConfig { base_url, token })
}

// ---------------------------------------------------------------------------
// Requests
// ---------------------------------------------------------------------------

/// `admin_` and the first 32 hex digits of the SHA-256 of
/// `admin:{action}:{request id}:{time}:{process}:{counter}`.
pub open spec fn admin_key_of(action: Seq<char>, request_id: Seq<char>, now_ms: u64, process_id: u32, counter: u64) -> Seq<char> {
    "admin_"@ + hex_lower(
        sha256_digest(
            vstd::utf8::encode_utf8(
                "admin:"@ + action + ":"@ + request_id + ":"@ + dec(now_ms as nat) + ":"@ + dec(
                    process_id as nat,
                ) + ":"@ + dec(counter as nat),
            ),
        ),
    ).take(32)
}

/// The idempotency key of a desk request; the time, the process id and a
/// per-process counter make keys for the same request differ.
pub fn generate_admin_idempotency_key(
    action: &str,
    request_id: &str,
    now_ms: u64,
    process_id: u32,
    counter: u64,
) -> (r: String)
    ensures
        r@ == admin_key_of(action@, request_id@, now_ms, process_id, counter),
        has_prefix(r@, "admin_"@),
{
    let a = concat2("admin:", action);
    let b = concat2(a.as_str(), ":");
    let c = concat2(b.as_str(), request_id);
    let d = concat2(c.as_str(), ":");
    let e = concat2(d.as_str(), u64_to_string(now_ms).as_str());
    let f = concat2(e.as_str(), ":");
    let g = concat2(f.as_str(), u64_to_string(process_id as u64).as_str());
    let h = concat2(g.as_str(), ":");
    let seed = concat2(h.as_str(), u64_to_string(counter).as_str());
    let digest = sha256_hex(seed.as_str().as_bytes());
    let hv = chars_of(digest.as_str());
    let t = slice_chars(&hv, 0, 32);
    assert(t@ =~= hv@.take(32));
    let s = string_of(t.as_slice());
    let r = concat2("admin_", s.as_str());
    proof {
        reveal_strlit("admin_");
        assert(r@.take(6) =~= "admin_"@);
    }
    r
}

pub open spec fn is_unreserved(b: u8) -> bool {
    (65 <= b <= 90) || (97 <= b <= 122) || (48 <= b <= 57) || b == 45 || b == 95 || b == 46 || b == 126
}

pub open spec fn upper_hex_digit(n: nat) -> char {
    if n < 10 {
        ((48 + n) as u8) as char
    } else {
        ((55 + n) as u8) as char
    }
}

/// Form encoding of one byte: unreserved bytes as themselves, a space as
/// `+`, anything else as `%XX` in upper-case hex.
pub open spec fn encode_byte(b: u8) -> Seq<char> {
    if is_unreserved(b) {
        seq![b as char]
    } else if b == 32 {
        seq!['+']
    } else {
        seq!['%', upper_hex_digit((b / 16) as nat), upper_hex_digit((b % 16) as nat)]
    }
}

pub open spec fn encode_bytes(bytes: Seq<u8>) -> Seq<char>
    decreases bytes.len(),
{
    if bytes.len() == 0 {
        Seq::empty()
    } else {
        encode_bytes(bytes.drop_last()) + encode_byte(bytes.last())
    }
}

fn upper_hex(n: u8) -> (c: char)
    requires
        n < 16,
    ensures
        c == upper_hex_digit(n as nat),
{
    if n < 10 {
        (48 + n) as char
    } else {
        (55 + n) as char
    }
}

/// Encodes a query parameter value, byte by byte of its UTF-8 form.
pub fn encode_query_component(input: &str) -> (r: String)
    ensures
        r@ == encode_bytes(input.spec_bytes()),
{
    let bytes = input.as_bytes();
    let mut out: Vec<char> = Vec::new();
    let mut i: usize = 0;
    while i < bytes.len()
        invariant
            i <= bytes@.len(),
            bytes@ == input.spec_bytes(),
            out@ == encode_bytes(bytes@.take(i as int)),
        decreases bytes@.len() - i,
    {
        let b = bytes[i];
        let ghost before = out@;
        if (65 <= b && b <= 90) || (97 <= b && b <= 122) || (48 <= b && b <= 57) || b == 45 || b == 95
            || b == 46 || b == 126 {
            out.push(b as char);
        } else if b == 32 {
            out.push('+');
        } else {
            out.push('%');
            out.push(upper_hex(b / 16));
            out.push(upper_hex(b % 16));
        }
        assert(bytes@.take(i + 1).drop_last() =~= bytes@.take(i as int));
        assert(out@ =~= before + encode_byte(b));
        i += 1;
    }
    assert(bytes@.take(i as int) =~= bytes@);
    string_of(out.as_slice())
}

/// Whether a character can stand in a query parameter value without ending
/// it or starting another.
pub open spec fn query_safe(c: char) -> bool {
    c != '&' && c != '=' && c != '#' && c != '?' && c != ' '
}

/// An encoded value never holds a character that would end the value or
/// start another parameter.
pub proof fn law_encoded_values_stay_in_place(bytes: Seq<u8>)
    ensures
        forall|i: int| 0 <= i < encode_bytes(bytes).len() ==> query_safe(#[trigger] encode_bytes(bytes)[i]),
    decreases bytes.len(),
{
    if bytes.len() > 0 {
        law_encoded_values_stay_in_place(bytes.drop_last());
        let head = encode_bytes(bytes.drop_last());
        let tail = encode_byte(bytes.last());
        let b = bytes.last();
        assert forall|j: int| 0 <= j < tail.len() implies query_safe(tail[j]) by {
            if is_unreserved(b) {
                assert(tail[j] == b as char);
            } else if b == 32 {
            } else {
                assert(b / 16 < 16);
                assert(b % 16 < 16);
            }
        }
        assert forall|i: int| 0 <= i < (head + tail).len() implies query_safe(#[trigger] (head + tail)[i]) by {
            if i < head.len() {
                assert((head + tail)[i] == head[i]);
            } else {
                assert((head + tail)[i] == tail[i - head.len()]);
            }
        }
    }
}

/// The value of an optional text filter: given and not blank once trimmed.
pub open spec fn filter_value(v: Option<String>) -> Option<Seq<char>> {
    match v {
        Some(s) => if trim(s@).len() > 0 { Some(trim(s@)) } else { None },
        None => None,
    }
}

/// `?k1=v1&k2=v2...` with the values encoded, or nothing without parameters.
pub open spec fn query_string(params: Seq<(Seq<char>, Seq<char>)>) -> Seq<char> {
    if params.len() == 0 {
        Seq::empty()
    } else {
        "?"@ + joined_params(params)
    }
}

pub open spec fn joined_params(params: Seq<(Seq<char>, Seq<char>)>) -> Seq<char>
    decreases params.len(),
{
    if params.len() == 0 {
        Seq::empty()
    } else if params.len() == 1 {
        params[0].0 + "="@ + params[0].1
    } else {
        joined_params(params.drop_last()) + "&"@ + params.last().0 + "="@ + params.last().1
    }
}

fn build_query(params: &Vec<(String, String)>) -> (r: String)
    ensures
        r@ == query_string(params@.map_values(|p: (String, String)| (p.0@, encode_bytes(vstd::utf8::encode_utf8(p.1@))))),
{
    let ghost ps = params@.map_values(|p: (String, String)| (p.0@, encode_bytes(vstd::utf8::encode_utf8(p.1@))));
    if params.len() == 0 {
        proof {
            reveal_strlit("");
        }
        return "".to_string();
    }
    let mut out = "?".to_string();
    let mut i: usize = 0;
    while i < params.len()
        invariant
            i <= params@.len(),
            params@.len() > 0,
            ps == params@.map_values(|p: (String, String)| (p.0@, encode_bytes(vstd::utf8::encode_utf8(p.1@)))),
            out@ == "?"@ + joined_params(ps.take(i as int)),
        decreases params@.len() - i,
    {
        let ghost t = ps.take(i + 1);
        assert(t.drop_last() =~= ps.take(i as int));
        let enc = encode_query_component(params[i].1.as_str());
        let sep = if i > 0 {
            "&"
        } else {
            ""
        };
        proof {
            reveal_strlit("");
        }
        let a = concat2(out.as_str(), sep);
        let b = concat2(a.as_str(), params[i].0.as_str());
        let c = concat2(b.as_str(), "=");
        out = concat2(c.as_str(), enc.as_str());
        assert(out@ =~= "?"@ + joined_params(t));
        i += 1;
    }
    assert(ps.take(i as int) =~= ps);
    out
}

/// The path listing audit events, filtered by type and actor when given,
/// and limited in number when asked.
pub fn audit_events_path(event_type: Option<String>, actor: Option<String>, limit: Option<u32>) -> (r: String)
    ensures
        r@ == "/v1/admin/audit-events"@ + query_string(
            (match filter_value(event_type) {
                Some(v) => seq![("event_type"@, encode_bytes(vstd::utf8::encode_utf8(v)))],
                None => Seq::empty(),
            }) + (match filter_value(actor) {
                Some(v) => seq![("actor"@, encode_bytes(vstd::utf8::encode_utf8(v)))],
                None => Seq::empty(),
            }) + (match limit {
                Some(n) => seq![("limit"@, encode_bytes(vstd::utf8::encode_utf8(dec(n as nat))))],
                None => Seq::empty(),
            }),
        ),
{
    let mut params: Vec<(String, String)> = Vec::new();
    if let Some(v) = &event_type {
        let t = trim_str(v.as_str());
        if !t.as_str().is_empty() {
            params.push(("event_type".to_string(), t));
        }
    }
    let ghost p1 = params@;
    if let Some(v) = &actor {
        let t = trim_str(v.as_str());
        if !t.as_str().is_empty() {
            params.push(("actor".to_string(), t));
        }
    }
    let ghost p2 = params@;
    if let Some(n) = limit {
        params.push(("limit".to_string(), u64_to_string(n as u64)));
    }
    let q = build_query(&params);
    proof {
        let f = |p: (String, String)| (p.0@, encode_bytes(vstd::utf8::encode_utf8(p.1@)));
        assert(params@.map_values(f) =~= (match filter_value(event_type) {
            Some(v) => seq![("event_type"@, encode_bytes(vstd::utf8::encode_utf8(v)))],
            None => Seq::empty(),
        }) + (match filter_value(actor) {
            Some(v) => seq![("actor"@, encode_bytes(vstd::utf8::encode_utf8(v)))],
            None => Seq::empty(),
        }) + (match limit {
            Some(n) => seq![("limit"@, encode_bytes(vstd::utf8::encode_utf8(dec(n as nat))))],
            None => Seq::empty(),
        }));
    }
    concat2("/v1/admin/audit-events", q.as_str())
}

/// The path listing idempotency records, filtered by operation when given,
/// and limited in number when asked.
pub fn idempotency_records_path(op: Option<String>, limit: Option<u32>) -> (r: String)
    ensures
        r@ == "/v1/admin/idempotency-records"@ + query_string(
            (match filter_value(op) {
                Some(v) => seq![("op"@, encode_bytes(vstd::utf8::encode_utf8(v)))],
                None => Seq::empty(),
            }) + (match limit {
                Some(n) => seq![("limit"@, encode_bytes(vstd::utf8::encode_utf8(dec(n as nat))))],
                None => Seq::empty(),
            }),
        ),
{
    let mut params: Vec<(String, String)> = Vec::new();
    if let Some(v) = &op {
        let t = trim_str(v.as_str());
        if !t.as_str().is_empty() {
            params.push(("op".to_string(), t));
        }
    }
    if let Some(n) = limit {
        params.push(("limit".to_string(), u64_to_string(n as u64)));
    }
    let q = build_query(&params);
    proof {
        let f = |p: (String, String)| (p.0@, encode_bytes(vstd::utf8::encode_utf8(p.1@)));
        assert(params@.map_values(f) =~= (match filter_value(op) {
            Some(v) => seq![("op"@, encode_bytes(vstd::utf8::encode_utf8(v)))],
            None => Seq::empty(),
        }) + (match limit {
            Some(n) => seq![("limit"@, encode_bytes(vstd::utf8::encode_utf8(dec(n as nat))))],
            None => Seq::empty(),
        }));
    }
    concat2("/v1/admin/idempotency-records", q.as_str())
}

/// The path listing reset requests in a state.
pub fn reset_requests_path(status: ResetRequestStatus) -> (r: String)
    ensures
        r@ == "/v1/admin/reset/requests?status="@ + reset_status_name(status),
{
    concat2("/v1/admin/reset/requests?status=", status.as_str())
}

/// The path listing deletion requests in a state.
pub fn deletion_requests_path(status: DeletionRequestStatus) -> (r: String)
    ensures
        r@ == "/v1/admin/privacy/delete-requests?status="@ + deletion_status_name(status),
{
    concat2("/v1/admin/privacy/delete-requests?status=", status.as_str())
}

/// An optional reason as a reset decision sends it: trimmed, left out when
/// blank.
pub fn optional_reason(reason: Option<&str>) -> (r: Option<String>)
    ensures
        match reason {
            Some(v) => if trim(v@).len() > 0 {
                r matches Some(t) && t@ == trim(v@)
            } else {
                r is None
            },
            None => r is None,
        },
{
    match reason {
        Some(v) => {
            let t = trim_str(v);
            if t.as_str().is_empty() {
                None
            } else {
                Some(t)
            }
        },
        None => None,
    }
}

/// Approving a deletion needs the typed confirmation `DELETE USER DATA`
/// (trimmed) and a reason. Gives the trimmed confirmation and reason.
pub fn check_deletion_approval(confirmation: &str, reason: Option<&str>) -> (r: Result<(String, String), AdminCommandError>)
    ensures
        trim(confirmation@) != "DELETE USER DATA"@ ==> (r matches Err(e) && is_command_error(
            e,
            "bad_request"@,
            "Deletion approval requires DELETE USER DATA confirmation."@,
            None,
            false,
        )),
        trim(confirmation@) == "DELETE USER DATA"@ ==> match reason {
            Some(v) => if trim(v@).len() > 0 {
                r matches Ok((c, t)) && c@ == "DELETE USER DATA"@ && t@ == trim(v@)
            } else {
                r matches Err(e) && e.code@ == "bad_request"@
            },
            None => r matches Err(e) && e.code@ == "bad_request"@,
        },
{
    let c = trim_str(confirmation);
    let expected = "DELETE USER DATA".to_string();
    if c != expected {
        return Err(
            command_error("bad_request", "Deletion approval requires DELETE USER DATA confirmation.", None, false),
        );
    }
    match validate_support_reason(reason) {
        Ok(t) => Ok((c, t)),
        Err(e) => Err(e),
    }
}

/// Disabling a license needs a hash prefix and a reason, both non-blank
/// once trimmed. Gives them trimmed.
pub fn check_disable_license(license_hash_prefix: &str, reason: &str) -> (r: Result<(String, String), AdminCommandError>)
    ensures
        trim(license_hash_prefix@).len() == 0 || trim(reason@).len() == 0 ==> (r matches Err(e)
            && is_command_error(
            e,
            "bad_request"@,
            "License hash prefix and reason are required."@,
            None,
            false,
        )),
        trim(license_hash_prefix@).len() > 0 && trim(reason@).len() > 0 ==> (r matches Ok((p, q)) && p@
            == trim(license_hash_prefix@) && q@ == trim(reason@)),
{
    let p = trim_str(license_hash_prefix);
    let q = trim_str(reason);
    if p.as_str().is_empty() || q.as_str().is_empty() {
        return Err(command_error("bad_request", "License hash prefix and reason are required.", None, false));
    }
    Ok((p, q))
}

// ---------------------------------------------------------------------------
// Replies
// ---------------------------------------------------------------------------

/// Whether a license is bound to a device.
#[derive(Debug, Clone, Copy, PartialEq, Eq, Structural)]
pub enum LicenseState {
    BoundActive,
    Unbound,
}

/// A device-reset request as the worker lists it.
#[derive(Debug, Clone)]
pub struct AdminResetRequestItem {
    pub reset_request_id: String,
    pub status: ResetRequestStatus,
    pub license_state: LicenseState,
    pub message: String,
    pub masked_license_key: Option<String>,
    pub has_license_hash: bool,
    pub purchaser_email: Option<String>,
    pub created_at_ms: u64,
    pub updated_at_ms: u64,
}

#[derive(Debug, Clone)]
pub struct AdminResetListData {
    pub requests: Vec<AdminResetRequestItem>,
}

/// The state of a reset request after a decision on it.
#[derive(Debug, Clone)]
pub struct AdminResetDecisionData {
    pub reset_request_id: String,
    pub status: ResetRequestStatus,
    pub license_state: LicenseState,
}

/// A user-data deletion request as the worker lists it.
#[derive(Debug)]
pub struct AdminDeletionRequestItem {
    pub deletion_request_id: String,
    pub status: DeletionRequestStatus,
    pub masked_license_key: Option<String>,
    pub has_license_hash: bool,
    pub license_hash_prefix: Option<String>,
    pub purchaser_email: Option<String>,
    pub requested_scope: String,
    pub deletion_preview: Option<serde_json::Value>,
    pub deletion_summary: Option<serde_json::Value>,
    pub privacy_review: Option<serde_json::Value>,
    pub error_code: Option<String>,
    pub error_message_safe: Option<String>,
    pub created_at_ms: u64,
    pub updated_at_ms: u64,
    pub decided_at_ms: Option<u64>,
    pub completed_at_ms: Option<u64>,
}

#[derive(Debug)]
pub struct AdminDeletionListData {
    pub requests: Vec<AdminDeletionRequestItem>,
}

/// The state of a deletion request after a decision on it.
#[derive(Debug)]
pub struct AdminDeletionDecisionData {
    pub deletion_request_id: String,
    pub status: DeletionRequestStatus,
    pub deletion_summary: Option<serde_json::Value>,
    pub privacy_review: Option<serde_json::Value>,
}

/// What disabling a license changed.
#[derive(Debug, Clone)]
pub struct AdminDisableLicenseData {
    pub license_hash_prefix: String,
    pub entitlement_status: String,
    pub deactivate_bindings: bool,
}

/// Counts over the worker's licenses, bindings and requests.
#[derive(Debug, Clone)]
pub struct AdminOverviewData {
    pub total_licenses: u64,
    pub entitlement_counts: BTreeMap<String, u64>,
    pub device_binding_counts: BTreeMap<String, u64>,
    pub reset_request_counts: BTreeMap<String, u64>,
    pub deletion_request_counts: BTreeMap<String, u64>,
    pub recent_audit_events_24h: u64,
}

/// One entry of the worker's audit log.
#[derive(Debug)]
pub struct AdminAuditEventItem {
    pub event_type: String,
    pub actor: Option<String>,
    pub created_at_ms: u64,
    pub metadata_summary: serde_json::Value,
}

#[derive(Debug)]
pub struct AdminAuditEventListData {
    pub events: Vec<AdminAuditEventItem>,
}

/// One stored idempotent response, by prefixes of its key and payload hash.
#[derive(Debug, Clone)]
pub struct AdminIdempotencyRecordItem {
    pub op: String,
    pub idempotency_key_prefix: String,
    pub payload_hash_prefix: String,
    pub response_status: u16,
    pub response_body_size: usize,
    pub created_at_ms: u64,
}

#[derive(Debug, Clone)]
pub struct AdminIdempotencyRecordListData {
    pub records: Vec<AdminIdempotencyRecordItem>,
}

/// The error object of a worker reply.
#[derive(Debug, Clone)]
pub struct WorkerError {
    pub code: String,
    pub message: String,
    pub request_id: String,
    pub retryable: bool,
}

/// The envelope of a worker reply: whether the worker reports success,
/// its data when present and of the expected shape, and its error.
#[derive(Debug, Clone)]
pub struct WorkerEnvelope<T> {
    pub ok: bool,
    pub data: Option<T>,
    pub error: Option<WorkerError>,
}

/// Reads a worker reply: a body that is not an envelope is a retryable
/// serialization error; a successful status with `ok` gives the data (a
/// missing one is a serialization error); anything else is the worker's
/// error, or a generic one when it gave none.
pub fn parse_worker_response<T>(status: u16, envelope: Option<WorkerEnvelope<T>>) -> (r: Result<T, AdminCommandError>)
    ensures
        match envelope {
            None => r matches Err(e) && is_command_error(
                e,
                "serialization"@,
                "Worker API returned an invalid response."@,
                None,
                true,
            ),
            Some(env) => if 200 <= status <= 299 && env.ok {
                match env.data {
                    Some(d) => r == Ok::<T, AdminCommandError>(d),
                    None => r matches Err(e) && is_command_error(
                        e,
                        "serialization"@,
                        "Worker API response was missing data."@,
                        None,
                        true,
                    ),
                }
            } else {
                match env.error {
                    Some(w) => r matches Err(e) && is_command_error(
                        e,
                        w.code@,
                        w.message@,
                        Some(w.request_id@),
                        w.retryable,
                    ),
                    None => r matches Err(e) && is_command_error(
                        e,
                        "unknown"@,
                        "Worker API request failed."@,
                        None,
                        false,
                    ),
                }
            },
        },
{
    let env = match envelope {
        None => {
            return Err(command_error("serialization", "Worker API returned an invalid response.", None, true));
        },
        Some(e) => e,
    };
    if 200 <= status && status <= 299 && env.ok {
        return match env.data {
            Some(d) => Ok(d),
            None => Err(command_error("serialization", "Worker API response was missing data.", None, true)),
        };
    }
    match &env.error {
        Some(w) => Err(
            command_error(w.code.as_str(), w.message.as_str(), Some(w.request_id.clone()), w.retryable),
        ),
        None => Err(command_error("unknown", "Worker API request failed.", None, false)),
    }
}

} // verus!
