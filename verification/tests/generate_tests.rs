use shorts_tauri_app::generate::{
    as_request, cancelled_envelope, close_failed_run, close_live_run, generation_auth_error,
    normalize_run_id, output_json_envelope, run_mock, run_timed_out, run_timeout_secs,
    should_forward, start_event, status_change_event, GenerateCommandArgs, GenerateShortsCommand,
    ProgressEvent,
};
use shorts_tauri_app::muapi::status_change_payload;
use shorts_tauri_app::pipeline::{ErrorEnvelope, PipelinePoint, PipelineRun};

fn base_req() -> GenerateShortsCommand {
    GenerateShortsCommand {
        run_id: None,
        youtube_url: "https://youtube.com/watch?v=abc".into(),
        num_clips: 1,
        aspect_ratio: "9:16".into(),
        download_format: "720".into(),
        language: None,
        output_json: None,
        mode: "api".into(),
    }
}

fn run(test_mode: &str) -> (Result<PipelineRun, ErrorEnvelope>, Vec<ProgressEvent>) {
    let args = GenerateCommandArgs { request: base_req(), test_mode: Some(test_mode.to_string()) };
    let req = as_request(&args.request);
    let run_id = normalize_run_id(args.request.run_id.as_deref(), 1_700_000_000_000, 42);
    let mut events = Vec::new();
    let out = run_mock(&mut events, run_id.as_str(), &req, test_mode);
    (out, events)
}

#[test]
fn fail_transcribe_maps_stage_code_retryable() {
    let (out, _events) = run("fail_transcribe");
    let error = out.err().expect("expected failure");
    let details = error.details.expect("details required");
    assert_eq!(details.stage, "transcribe");
    assert_eq!(details.code, "E_TRANSCRIBE_FAILED");
    assert_eq!(details.retryable, Some(false));
}

#[test]
fn muapi_status_payload_contains_structured_metadata() {
    let payload = status_change_payload("transcribe", "queued");
    assert_eq!(payload.event, "progress");
    assert_eq!(payload.stage, "muapi_poll");
    assert_eq!(payload.message, "[muapi] transcribe: queued");
    assert_eq!(payload.code, "E_MUAPI_STATUS");
    assert!(payload.retryable);
}

#[test]
fn generate_success_returns_envelope() {
    let (out, _) = run("success");
    let result = out.expect("expected success envelope");
    assert_eq!(result.mode, "api");
    assert_eq!(result.point, PipelinePoint::Done);
}

#[test]
fn generate_failure_returns_stable_error_envelope() {
    let (out, _) = run("fail_transcribe");
    let error = out.err().expect("expected failure envelope");
    assert!(!error.error.is_empty());
    assert!(error.mode.is_some());
    assert!(error.source_video_url.is_some());
}

#[test]
fn event_order_includes_stage_start_end_and_status_changes() {
    let (_out, events) = run("success_with_status");
    let stages: Vec<&str> = events.iter().map(|e| e.stage.as_str()).collect();
    assert!(stages.windows(2).any(|w| w == ["download:start", "download:end"]));
    assert!(stages.iter().any(|s| *s == "muapi_poll:queued"));
    assert!(stages.iter().any(|s| *s == "muapi_poll:completed"));
}

#[test]
fn authorized_generate_rejects_unauthenticated_state() {
    let args = GenerateCommandArgs { request: base_req(), test_mode: Some("success".to_string()) };
    let error = generation_auth_error(&args, Ok(false)).expect("license failure");
    assert_eq!(error.error, "license required");
    assert_eq!(error.mode.as_deref(), Some("api"));
    assert_eq!(error.details.expect("details").code, "E_LICENSE_REQUIRED");
}

#[test]
fn authorized_generate_allows_licensed_state() {
    let args = GenerateCommandArgs { request: base_req(), test_mode: Some("success".to_string()) };
    assert!(generation_auth_error(&args, Ok(true)).is_none());
    let (out, events) = run("success");
    assert!(out.is_ok());
    assert!(!events.is_empty());
}

#[test]
fn session_read_failure_is_reported_as_license_error() {
    let args = GenerateCommandArgs { request: base_req(), test_mode: None };
    let error = generation_auth_error(&args, Err("keyring locked".to_string())).expect("error");
    assert_eq!(error.error, "keyring locked");
    assert_eq!(error.details.expect("details").stage, "auth");
}

#[test]
fn run_id_is_trimmed_or_made_from_time_and_process() {
    assert_eq!(normalize_run_id(Some("  my-run "), 5, 6), "my-run");
    assert_eq!(normalize_run_id(Some("   "), 1700, 42), "run-1700-42");
    assert_eq!(normalize_run_id(None, 0, 7), "run-0-7");
}

#[test]
fn command_language_defaults_to_english_and_blank_means_none() {
    let mut c = base_req();
    assert_eq!(as_request(&c).language.as_deref(), Some("English"));
    c.language = Some("  German ".to_string());
    assert_eq!(as_request(&c).language.as_deref(), Some("German"));
    c.language = Some("   ".to_string());
    assert_eq!(as_request(&c).language, None);
}

#[test]
fn cancelled_envelope_carries_run_id() {
    let args = GenerateCommandArgs { request: base_req(), test_mode: None };
    let e = cancelled_envelope(&args, "run-9");
    assert_eq!(e.error, "Generation cancelled.");
    let d = e.details.expect("details");
    assert_eq!(d.code, "E_GENERATION_CANCELLED");
    assert_eq!(d.run_id.as_deref(), Some("run-9"));
}

#[test]
fn output_json_failure_envelope() {
    let c = base_req();
    let e = output_json_envelope(&as_request(&c), "disk full");
    assert_eq!(e.error, "failed to write output json: disk full");
    assert_eq!(e.details.expect("details").code, "E_OUTPUT_JSON_WRITE_FAILED");
}

#[test]
fn status_change_event_names_stage_and_message() {
    let e = status_change_event("run-1", "transcribe", "queued");
    assert_eq!(e.stage, "muapi_poll:queued");
    assert_eq!(e.message.as_deref(), Some("[muapi] transcribe: queued"));
    assert_eq!(e.per_mille, 400);
}

#[test]
fn forwarding_keeps_own_events_and_only_terminal_after_cancel() {
    let args = GenerateCommandArgs { request: base_req(), test_mode: None };
    let start = start_event("run-1", &args);
    assert!(should_forward(&start, "run-1", false));
    assert!(!should_forward(&start, "run-2", false));
    assert!(!should_forward(&start, "run-1", true));
    let mut events = Vec::new();
    assert!(close_live_run(&mut events, "run-1", false, true));
    assert!(should_forward(&events[0], "run-1", true));
    assert_eq!(events[0].stage, "generate:cancelled");
}

#[test]
fn closing_runs_appends_the_terminal_event() {
    let mut events = Vec::new();
    assert!(!close_live_run(&mut events, "r", true, true));
    assert_eq!(events.len(), 1);
    assert_eq!(events[0].stage, "generate:success");
    let mut events = Vec::new();
    assert!(!close_live_run(&mut events, "r", false, false));
    assert!(events.is_empty());
    let args = GenerateCommandArgs { request: base_req(), test_mode: None };
    let e = cancelled_envelope(&args, "r");
    close_failed_run(&mut events, "r", &e, false);
    assert_eq!(events[0].message.as_deref(), Some("Generation cancelled."));
    close_failed_run(&mut events, "r", &e, true);
    assert_eq!(events.len(), 1);
}

#[test]
fn run_timeout_parses_or_defaults_to_half_an_hour() {
    assert_eq!(run_timeout_secs(None), 1800);
    assert_eq!(run_timeout_secs(Some(" 90 ")), 90);
    assert_eq!(run_timeout_secs(Some("soon")), 1800);
    assert!(run_timed_out(true, 0, 0));
    assert!(!run_timed_out(false, 0, u64::MAX));
    assert!(run_timed_out(false, 2, 2000));
    assert!(!run_timed_out(false, 2, 1999));
}
