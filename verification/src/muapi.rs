//! The media provider's job API: submit a job, fetch its result, poll it
//! until it finishes.
//!
//! The HTTP calls and the waiting are the caller's; these functions decide,
//! call by call, whether to retry, wait, report or stop.

use vstd::prelude::*;
use crate::errors::{config_error_message, ConfigError};
use crate::text::{all_ascii, lower_seq, concat2, strip_start_char, strip_start_char_chars, chars_of, string_of, to_lowercase, u64_to_string, unicode_lower, dec};

verus! {

/// A failed provider call.
#[derive(Debug, Clone)]
pub enum MuApiError {
    Config(ConfigError),
    Transport { stage: String, message: String },
    Api { stage: String, message: String },
}

pub open spec fn muapi_error_text(e: MuApiError) -> Seq<char> {
    match e {
        MuApiError::Config(c) => config_error_message(c),
        MuApiError::Transport { message, .. } => message@,
        MuApiError::Api { message, .. } => message@,
    }
}

impl MuApiError {
    /// What the error says to a user.
    pub fn message(&self) -> (r: String)
        ensures
            r@ == muapi_error_text(*self),
    {
        match self {
            MuApiError::Config(c) => c.message(),
            MuApiError::Transport { message, .. } => message.clone(),
            MuApiError::Api { message, .. } => message.clone(),
        }
    }
}

/// `{base}/{endpoint without leading slashes}`.
pub open spec fn submit_url(base: Seq<char>, endpoint: Seq<char>) -> Seq<char> {
    base + "/"@ + strip_start_char(endpoint, '/')
}

pub fn job_url(base: &str, endpoint: &str) -> (r: String)
    ensures
        r@ == submit_url(base@, endpoint@),
{
    let e = chars_of(endpoint);
    let stripped = strip_start_char_chars(&e, '/');
    let tail = string_of(stripped.as_slice());
    let a = concat2(base, "/");
    concat2(a.as_str(), tail.as_str())
}

/// `{base}/predictions/{request id}/result`.
pub fn result_url(base: &str, request_id: &str) -> (r: String)
    ensures
        r@ == base@ + "/predictions/"@ + request_id@ + "/result"@,
{
    let a = concat2(base, "/predictions/");
    let b = concat2(a.as_str(), request_id);
    concat2(b.as_str(), "/result")
}

/// Which call a retry loop makes.
#[derive(Debug, Clone)]
pub enum JobCall {
    /// Submitting a job to an endpoint.
    Submit { endpoint: String },
    /// Fetching a job's result.
    Fetch,
}

pub open spec fn call_stage(c: JobCall) -> Seq<char> {
    match c {
        JobCall::Submit { .. } => "submit"@,
        JobCall::Fetch => "poll"@,
    }
}

/// What a failed HTTP exchange was: a timeout or a failed connection may
/// be retried; anything else may not.
#[derive(Debug, Clone)]
pub enum TransportFailure {
    Retryable(String),
    Fatal(String),
}

/// A field of a JSON object: absent, a text, or something else.
#[derive(Debug, Clone)]
pub enum JsonField {
    Absent,
    Text(String),
    Other,
}

/// What came back from the provider.
#[derive(Debug, Clone)]
pub enum JobReply {
    /// A 4xx or 5xx status, with the body as text (empty when unreadable).
    HttpError { status: u16, body: String },
    /// A body that is not JSON, with the decoder's message.
    Undecodable(String),
    /// A JSON body: its `request_id` and `id` fields, and the body as text.
    Decoded { request_id: JsonField, id: JsonField, body: String },
}

/// The loop state: which attempt is next, out of how many, and the last
/// retryable failure.
#[derive(Debug, Clone)]
pub struct RetryLoop {
    pub call: JobCall,
    pub attempt: usize,
    pub retries: usize,
    pub last_error: Option<String>,
}

/// What the caller does next.
#[derive(Debug)]
pub enum RetryDecision {
    /// The call is settled: for a submission the job id, for a fetch the
    /// decoded body (which the caller holds).
    Done(Result<Option<String>, MuApiError>),
    /// Wait two seconds, then make the next attempt.
    RetryAfter { sleep_ms: u64 },
}

/// The job id a submission reply names: its `request_id` field when
/// present, else its `id` field; only a text counts.
pub open spec fn named_job_id(request_id: JsonField, id: JsonField) -> Option<Seq<char>> {
    match request_id {
        JsonField::Text(t) => Some(t@),
        JsonField::Other => None,
        JsonField::Absent => match id {
            JsonField::Text(t) => Some(t@),
            _ => None,
        },
    }
}

pub open spec fn is_api_error(e: MuApiError, stage: Seq<char>, message: Seq<char>) -> bool {
    e matches MuApiError::Api { stage: s, message: m } && s@ == stage && m@ == message
}

pub open spec fn is_transport_error(e: MuApiError, stage: Seq<char>, message: Seq<char>) -> bool {
    e matches MuApiError::Transport { stage: s, message: m } && s@ == stage && m@ == message
}

/// `{endpoint} submit failed [{status}]: {body}` or `poll failed [{status}]: {body}`.
pub open spec fn status_failure_text(c: JobCall, status: u16, body: Seq<char>) -> Seq<char> {
    match c {
        JobCall::Submit { endpoint } => endpoint@ + " submit failed ["@ + dec(status as nat) + "]: "@ + body,
        JobCall::Fetch => "poll failed ["@ + dec(status as nat) + "]: "@ + body,
    }
}

/// `{endpoint} submit failed after {n} retries: {last}` or
/// `poll failed after {n} retries: {last}`.
pub open spec fn exhausted_text(c: JobCall, retries: usize, last: Option<String>) -> Seq<char> {
    let tail = " retries: "@ + match last {
        Some(e) => e@,
        None => "unknown transport error"@,
    };
    match c {
        JobCall::Submit { endpoint } => endpoint@ + " submit failed after "@ + dec(retries as nat) + tail,
        JobCall::Fetch => "poll failed after "@ + dec(retries as nat) + tail,
    }
}

impl RetryLoop {
    pub fn new(call: JobCall, retries: usize) -> (r: Self)
        ensures
            r.call == call,
            r.attempt == 0,
            r.retries == retries,
            r.last_error is None,
    {
        RetryLoop { call, attempt: 0, retries, last_error: None }
    }

    /// Whether another attempt is due.
    pub fn has_attempt(&self) -> (b: bool)
        ensures
            b == (self.attempt < self.retries),
    {
        self.attempt < self.retries
    }

    /// The error once every attempt failed to get through.
    pub fn exhausted(&self) -> (e: MuApiError)
        ensures
            is_api_error(e, call_stage(self.call), exhausted_text(self.call, self.retries, self.last_error)),
    {
        let stage = match &self.call {
            JobCall::Submit { .. } => "submit",
            JobCall::Fetch => "poll",
        };
        let n = u64_to_string(self.retries as u64);
        let last = match &self.last_error {
            Some(e) => e.clone(),
            None => "unknown transport error".to_string(),
        };
        let head = match &self.call {
            JobCall::Submit { endpoint } => concat2(endpoint.as_str(), " submit failed after "),
            JobCall::Fetch => "poll failed after ".to_string(),
        };
        let a = concat2(head.as_str(), n.as_str());
        let b = concat2(a.as_str(), " retries: ");
        let m = concat2(b.as_str(), last.as_str());
        assert(m@ =~= exhausted_text(self.call, self.retries, self.last_error));
        MuApiError::Api { stage: stage.to_string(), message: m }
    }

    /// Decides what an attempt's outcome leads to. An error status is
    /// final, as is a body that does not decode and a non-retryable
    /// failure. A retryable failure is remembered and retried after two
    /// seconds unless this was the last attempt (then the loop ends). A
    /// submission succeeds with the job id its reply names, a fetch with
    /// its body.
    pub fn on_outcome(&mut self, outcome: Result<JobReply, TransportFailure>) -> (d: RetryDecision)
        requires
            old(self).attempt < old(self).retries,
        ensures
            final(self).call == old(self).call,
            final(self).retries == old(self).retries,
            final(self).attempt == old(self).attempt + 1,
            match outcome {
                Ok(JobReply::HttpError { status, body }) => d matches RetryDecision::Done(Err(e))
                    && is_api_error(
                    e,
                    call_stage(old(self).call),
                    status_failure_text(old(self).call, status, body@),
                ),
                Ok(JobReply::Undecodable(m)) => d matches RetryDecision::Done(Err(e))
                    && is_transport_error(
                    e,
                    call_stage(old(self).call),
                    call_stage(old(self).call) + " decode failed: "@ + m@,
                ),
                Ok(JobReply::Decoded { request_id, id, body }) => match old(self).call {
                    JobCall::Fetch => d matches RetryDecision::Done(Ok(None)),
                    JobCall::Submit { endpoint } => match named_job_id(request_id, id) {
                        Some(j) => d matches RetryDecision::Done(Ok(Some(x))) && x@ == j,
                        None => d matches RetryDecision::Done(Err(e)) && is_api_error(
                            e,
                            "submit"@,
                            endpoint@ + " response had no request_id: "@ + body@,
                        ),
                    },
                },
                Err(TransportFailure::Fatal(m)) => d matches RetryDecision::Done(Err(e))
                    && is_transport_error(e, call_stage(old(self).call), m@),
                Err(TransportFailure::Retryable(m)) => final(self).last_error == Some(m) && if old(
                    self,
                ).attempt + 1 < old(self).retries {
                    d == RetryDecision::RetryAfter { sleep_ms: 2000 }
                } else {
                    d matches RetryDecision::Done(Err(e)) && is_api_error(
                        e,
                        call_stage(old(self).call),
                        exhausted_text(old(self).call, old(self).retries, Some(m)),
                    )
                },
            },
    {
        self.attempt = self.attempt + 1;
        let stage = match &self.call {
            JobCall::Submit { .. } => "submit",
            JobCall::Fetch => "poll",
        };
        match outcome {
            Ok(JobReply::HttpError { status, body }) => {
                let code = u64_to_string(status as u64);
                let head = match &self.call {
                    JobCall::Submit { endpoint } => concat2(endpoint.as_str(), " submit failed ["),
                    JobCall::Fetch => "poll failed [".to_string(),
                };
                let a = concat2(head.as_str(), code.as_str());
                let b = concat2(a.as_str(), "]: ");
                RetryDecision::Done(
                    Err(MuApiError::Api { stage: stage.to_string(), message: concat2(b.as_str(), body.as_str()) }),
                )
            },
            Ok(JobReply::Undecodable(m)) => {
                let a = concat2(stage, " decode failed: ");
                RetryDecision::Done(
                    Err(MuApiError::Transport { stage: stage.to_string(), message: concat2(a.as_str(), m.as_str()) }),
                )
            },
            Ok(JobReply::Decoded { request_id, id, body }) => match &self.call {
                JobCall::Fetch => RetryDecision::Done(Ok(None)),
                JobCall::Submit { endpoint } => {
                    let found = match request_id {
                        JsonField::Text(t) => Some(t),
                        JsonField::Other => None,
                        JsonField::Absent => match id {
                            JsonField::Text(t) => Some(t),
                            _ => None,
                        },
                    };
                    match found {
                        Some(j) => RetryDecision::Done(Ok(Some(j))),
                        None => {
                            let a = concat2(endpoint.as_str(), " response had no request_id: ");
                            RetryDecision::Done(
                                Err(MuApiError::Api { stage: "submit".to_string(), message: concat2(a.as_str(), body.as_str()) }),
                            )
                        },
                    }
                },
            },
            Err(TransportFailure::Fatal(m)) => RetryDecision::Done(
                Err(MuApiError::Transport { stage: stage.to_string(), message: m }),
            ),
            Err(TransportFailure::Retryable(m)) => {
                self.last_error = Some(m);
                if self.attempt < self.retries {
                    RetryDecision::RetryAfter { sleep_ms: 2000 }
                } else {
                    RetryDecision::Done(Err(self.exhausted()))
                }
            },
        }
    }
}

// ---------------------------------------------------------------------------
// Polling
// ---------------------------------------------------------------------------

/// Polling a job: who it is reported as, and the last status seen.
#[derive(Debug, Clone)]
pub struct PollState {
    pub label: String,
    pub last_status: String,
}

/// What one poll leads to.
#[derive(Debug, Clone)]
pub enum PollDecision {
    /// The job finished; its result is the fetched body.
    Completed,
    /// The job failed.
    Failed(MuApiError),
    /// Wait the poll interval and poll again.
    Pending,
}

pub open spec fn finished_ok(status: Seq<char>) -> bool {
    status == "completed"@ || status == "succeeded"@ || status == "success"@
}

pub open spec fn finished_failed(status: Seq<char>) -> bool {
    status == "failed"@ || status == "error"@
}

/// A job is finished when its lower-cased status is exactly `completed`,
/// `succeeded` or `success`, failed when it is exactly `failed` or `error`,
/// and still running otherwise; no status is both.
pub proof fn law_poll_outcome_by_status(s: Seq<char>)
    ensures
        finished_ok(s) <==> (s =~= "completed"@ || s =~= "succeeded"@ || s =~= "success"@),
        finished_failed(s) <==> (s =~= "failed"@ || s =~= "error"@),
        !(finished_ok(s) && finished_failed(s)),
{
    reveal_strlit("completed");
    reveal_strlit("succeeded");
    reveal_strlit("success");
    reveal_strlit("failed");
    reveal_strlit("error");
    if finished_ok(s) {
        assert(s.len() == 9 || s.len() == 7);
    }
}

/// The status a fetched body reports, in lower case (empty when it has no
/// text `status`).
pub open spec fn reported_status(status: Option<Seq<char>>) -> Seq<char> {
    match status {
        Some(s) => unicode_lower(s),
        None => unicode_lower(Seq::empty()),
    }
}

pub open spec fn poll_status_of(status: Option<&str>) -> Seq<char> {
    reported_status(
        match status {
            Some(x) => Some(x@),
            None => None,
        },
    )
}

impl PollState {
    /// Starts polling; the job is reported under its label, else its id.
    pub fn new(request_id: &str, label: Option<&str>) -> (r: Self)
        ensures
            r.label@ == match label {
                Some(l) => l@,
                None => request_id@,
            },
            r.last_status@ == Seq::<char>::empty(),
    {
        proof {
            reveal_strlit("");
        }
        PollState {
            label: match label {
                Some(l) => l.to_string(),
                None => request_id.to_string(),
            },
            last_status: "".to_string(),
        }
    }

    /// Reads one fetched body. A new non-empty status is reported (given
    /// back for the caller to emit) and remembered; a finished status ends
    /// the polling, a failed one with `{label} failed: {body}`.
    pub fn on_result(&mut self, status: Option<&str>, body: &str) -> (r: (PollDecision, Option<String>))
        ensures
            final(self).label == old(self).label,
            poll_status_of(status).len() > 0 && poll_status_of(status) != old(self).last_status@ ==> (
            r.1 matches Some(x) && x@ == poll_status_of(status) && final(self).last_status@
                == poll_status_of(status)),
            !(poll_status_of(status).len() > 0 && poll_status_of(status) != old(self).last_status@)
                ==> (r.1 is None && final(self).last_status == old(self).last_status),
            finished_ok(poll_status_of(status)) ==> r.0 is Completed,
            finished_failed(poll_status_of(status)) ==> (r.0 matches PollDecision::Failed(e)
                && is_api_error(e, "poll"@, old(self).label@ + " failed: "@ + body@)),
            !finished_ok(poll_status_of(status)) && !finished_failed(poll_status_of(status))
                ==> r.0 is Pending,
            status is Some && all_ascii(status->0@) ==> poll_status_of(status) == lower_seq(status->0@),
    {
        let raw = match status {
            Some(x) => x.to_string(),
            None => String::new(),
        };
        proof {
            reveal_strlit("");
        }
        assert(raw@ == match status {
            Some(x) => x@,
            None => Seq::<char>::empty(),
        });
        let s = to_lowercase(raw.as_str());
        assert(s@ == poll_status_of(status));
        let report = if !s.as_str().is_empty() && s != self.last_status {
            self.last_status = s.clone();
            Some(s.clone())
        } else {
            None
        };
        proof {
            reveal_strlit("completed");
            reveal_strlit("succeeded");
            reveal_strlit("success");
            reveal_strlit("failed");
            reveal_strlit("error");
        }
        let completed = "completed".to_string();
        let succeeded = "succeeded".to_string();
        let success = "success".to_string();
        let failed = "failed".to_string();
        let error = "error".to_string();
        let decision = if s == completed || s == succeeded || s == success {
            PollDecision::Completed
        } else if s == failed || s == error {
            let a = concat2(self.label.as_str(), " failed: ");
            let m = concat2(a.as_str(), body);
            PollDecision::Failed(MuApiError::Api { stage: "poll".to_string(), message: m })
        } else {
            PollDecision::Pending
        };
        (decision, report)
    }

    /// The error once the polling time is up: `{label} timed out after {t}s`,
    /// with the time limit as the caller prints it.
    pub fn timed_out(&self, timeout_text: &str) -> (e: MuApiError)
        ensures
            is_api_error(e, "poll"@, self.label@ + " timed out after "@ + timeout_text@ + "s"@),
    {
        let a = concat2(self.label.as_str(), " timed out after ");
        let b = concat2(a.as_str(), timeout_text);
        MuApiError::Api { stage: "poll".to_string(), message: concat2(b.as_str(), "s") }
    }
}

/// What a run of polls reports, from the last status `last` on, when the
/// fetched bodies report `statuses` (lower-cased, as [`PollState::on_result`]
/// reads them): each non-empty status that differs from the one before it.
pub open spec fn status_reports(last: Seq<char>, statuses: Seq<Seq<char>>) -> Seq<Seq<char>>
    decreases statuses.len(),
{
    if statuses.len() == 0 {
        Seq::empty()
    } else {
        let s = statuses[0];
        if s.len() > 0 && s != last {
            seq![s] + status_reports(s, statuses.drop_first())
        } else {
            status_reports(last, statuses.drop_first())
        }
    }
}

/// A whole polling run reports no status twice in a row, never an empty
/// one, and never again the one it started from.
pub proof fn law_poll_reports_each_change_once(last: Seq<char>, statuses: Seq<Seq<char>>)
    ensures
        forall|i: int| 0 <= i < status_reports(last, statuses).len() ==> (#[trigger] status_reports(last, statuses)[i]).len() > 0,
        status_reports(last, statuses).len() > 0 ==> status_reports(last, statuses)[0] != last,
        forall|i: int|
            0 <= i < status_reports(last, statuses).len() - 1 ==> #[trigger] status_reports(last, statuses)[i]
                != status_reports(last, statuses)[i + 1],
    decreases statuses.len(),
{
    if statuses.len() > 0 {
        let s = statuses[0];
        let rest = statuses.drop_first();
        if s.len() > 0 && s != last {
            law_poll_reports_each_change_once(s, rest);
            let r = status_reports(s, rest);
            let all = status_reports(last, statuses);
            assert(all == seq![s] + r);
            assert forall|i: int| 0 <= i < all.len() implies (#[trigger] all[i]).len() > 0 by {
                if i > 0 {
                    assert(all[i] == r[i - 1]);
                }
            }
            assert forall|i: int| 0 <= i < all.len() - 1 implies #[trigger] all[i] != all[i + 1] by {
                assert(all[i + 1] == r[i]);
                if i > 0 {
                    assert(all[i] == r[i - 1]);
                }
            }
        } else {
            law_poll_reports_each_change_once(last, rest);
        }
    }
}

/// Where the status changes of a provider job are reported.
pub trait ProgressEmitter {
    fn emit_status_change(&self, label: &str, status: &str);
}

/// Reports nothing.
pub struct NoopProgressEmitter;

impl ProgressEmitter for NoopProgressEmitter {
    fn emit_status_change(&self, label: &str, status: &str) {
    }
}

/// The progress payload of a status change:
/// `[muapi] {label}: {status}`, code `E_MUAPI_STATUS`, retryable.
#[derive(Debug, Clone)]
pub struct StatusChangePayload {
    pub event: String,
    pub stage: String,
    pub per_mille: u32,
    pub message: String,
    pub code: String,
    pub retryable: bool,
}

pub fn status_change_payload(label: &str, status: &str) -> (p: StatusChangePayload)
    ensures
        p.event@ == "progress"@,
        p.stage@ == "muapi_poll"@,
        p.per_mille == 0,
        p.message@ == "[muapi] "@ + label@ + ": "@ + status@,
        p.code@ == "E_MUAPI_STATUS"@,
        p.retryable,
{
    let a = concat2("[muapi] ", label);
    let b = concat2(a.as_str(), ": ");
    StatusChangePayload {
        event: "progress".to_string(),
        stage: "muapi_poll".to_string(),
        per_mille: 0,
        message: concat2(b.as_str(), status),
        code: crate::errors::ErrorCode::MuApiStatus.as_str().to_string(),
        retryable: true,
    }
}

} // verus!
