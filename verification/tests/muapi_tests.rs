use shorts_tauri_app::muapi::{
    job_url, result_url, JobCall, JobReply, JsonField, MuApiError, PollDecision, PollState,
    RetryDecision, RetryLoop, TransportFailure,
};

fn submit_loop(retries: usize) -> RetryLoop {
    RetryLoop::new(JobCall::Submit { endpoint: "youtube-download".to_string() }, retries)
}

fn api_parts(e: &MuApiError) -> (&str, &str) {
    match e {
        MuApiError::Api { stage, message } => (stage.as_str(), message.as_str()),
        other => panic!("unexpected error: {other:?}"),
    }
}

#[test]
fn submit_success_returns_request_id() {
    let mut l = submit_loop(1);
    let reply = JobReply::Decoded {
        request_id: JsonField::Text("req_123".to_string()),
        id: JsonField::Absent,
        body: "{\"request_id\":\"req_123\"}".to_string(),
    };
    match l.on_outcome(Ok(reply)) {
        RetryDecision::Done(Ok(Some(id))) => assert_eq!(id, "req_123"),
        other => panic!("unexpected decision: {other:?}"),
    }
}

#[test]
fn submit_missing_request_id_returns_error() {
    let mut l = submit_loop(1);
    let reply = JobReply::Decoded {
        request_id: JsonField::Absent,
        id: JsonField::Other,
        body: "{\"status\":\"queued\"}".to_string(),
    };
    match l.on_outcome(Ok(reply)) {
        RetryDecision::Done(Err(e)) => {
            let (stage, message) = api_parts(&e);
            assert_eq!(stage, "submit");
            assert!(message.contains("response had no request_id"));
        }
        other => panic!("unexpected decision: {other:?}"),
    }
}

#[test]
fn submit_falls_back_to_id_field() {
    let mut l = submit_loop(1);
    let reply = JobReply::Decoded {
        request_id: JsonField::Absent,
        id: JsonField::Text("abc".to_string()),
        body: String::new(),
    };
    assert!(matches!(l.on_outcome(Ok(reply)), RetryDecision::Done(Ok(Some(ref id))) if id == "abc"));
}

#[test]
fn retryable_failures_are_retried_then_exhausted() {
    let mut l = submit_loop(2);
    assert!(l.has_attempt());
    let d = l.on_outcome(Err(TransportFailure::Retryable("timeout".to_string())));
    assert!(matches!(d, RetryDecision::RetryAfter { sleep_ms: 2000 }));
    assert!(l.has_attempt());
    match l.on_outcome(Err(TransportFailure::Retryable("reset".to_string()))) {
        RetryDecision::Done(Err(e)) => {
            let (stage, message) = api_parts(&e);
            assert_eq!(stage, "submit");
            assert_eq!(message, "youtube-download submit failed after 2 retries: reset");
        }
        other => panic!("unexpected decision: {other:?}"),
    }
    assert!(!l.has_attempt());
}

#[test]
fn http_errors_and_undecodable_bodies_are_final() {
    let mut l = RetryLoop::new(JobCall::Fetch, 3);
    match l.on_outcome(Ok(JobReply::HttpError { status: 502, body: "bad gateway".to_string() })) {
        RetryDecision::Done(Err(e)) => {
            assert_eq!(api_parts(&e), ("poll", "poll failed [502]: bad gateway"));
        }
        other => panic!("unexpected decision: {other:?}"),
    }
    let mut l = RetryLoop::new(JobCall::Fetch, 3);
    match l.on_outcome(Ok(JobReply::Undecodable("eof".to_string()))) {
        RetryDecision::Done(Err(MuApiError::Transport { stage, message })) => {
            assert_eq!(stage, "poll");
            assert_eq!(message, "poll decode failed: eof");
        }
        other => panic!("unexpected decision: {other:?}"),
    }
}

#[test]
fn poll_terminal_success_returns_payload() {
    let mut p = PollState::new("req_123", Some("download"));
    let (d, _) = p.on_result(Some("processing"), "{\"status\":\"processing\"}");
    assert!(matches!(d, PollDecision::Pending));
    let (d, _) = p.on_result(Some("completed"), "{\"status\":\"completed\"}");
    assert!(matches!(d, PollDecision::Completed));
}

#[test]
fn poll_emits_status_change_events_in_order() {
    let mut p = PollState::new("req_123", Some("download"));
    let mut statuses = Vec::new();
    for s in ["processing", "processing", "COMPLETED"] {
        let (_, report) = p.on_result(Some(s), "{}");
        if let Some(status) = report {
            statuses.push(format!("{}:{}", p.label, status));
        }
    }
    assert_eq!(statuses, vec!["download:processing", "download:completed"]);
}

#[test]
fn poll_timeout_returns_error() {
    let p = PollState::new("req_123", Some("download"));
    let e = p.timed_out("0.02");
    let (stage, message) = api_parts(&e);
    assert_eq!(stage, "poll");
    assert!(message.contains("timed out after 0.02s"));
}

#[test]
fn poll_failure_status_returns_error() {
    let mut p = PollState::new("req_123", None);
    let (d, _) = p.on_result(Some("failed"), "{\"status\":\"failed\"}");
    match d {
        PollDecision::Failed(e) => {
            let (stage, message) = api_parts(&e);
            assert_eq!(stage, "poll");
            assert_eq!(message, "req_123 failed: {\"status\":\"failed\"}");
        }
        other => panic!("unexpected decision: {other:?}"),
    }
}

#[test]
fn job_and_result_urls() {
    assert_eq!(job_url("https://api/v1", "//youtube-download"), "https://api/v1/youtube-download");
    assert_eq!(result_url("https://api/v1", "req_1"), "https://api/v1/predictions/req_1/result");
}

#[test]
fn a_polling_run_reports_each_status_change_once() {
    let mut poll = PollState::new("req_9", None);
    let mut reported = Vec::new();
    let mut end = None;
    for status in ["queued", "queued", "", "Processing", "processing", "COMPLETED"] {
        let (decision, report) = poll.on_result(Some(status), "{}");
        if let Some(r) = report {
            reported.push(r);
        }
        if !matches!(decision, PollDecision::Pending) {
            end = Some(decision);
            break;
        }
    }
    assert_eq!(reported, vec!["queued", "processing", "completed"]);
    assert!(matches!(end, Some(PollDecision::Completed)));
}
