//! The generate command: how a request from the user interface becomes a
//! pipeline run, which progress events the run produces, and which envelope
//! it ends with.

use vstd::prelude::*;
use crate::numbers::{parse_u64_str, parse_unsigned};
use crate::errors::{error_code_name, error_stage_name, payload_marker, payload_redacted, ErrorCode, ErrorStage};
use crate::pipeline::{
    is_top_ranking, scores_of, ClipsReading, ErrorDetails, ErrorEnvelope, GenerateShortsRequest, PipelineAction,
    PipelineEvent, PipelinePoint, PipelineRun, StageReport, TranscriptReading, pipeline_mode,
    unknown_mode_text,
};
use crate::text::{concat2, dec, replace_all, trim, trim_str, u64_to_string};
use crate::provider_json::Json;

verus! {

pub fn default_num_clips() -> (r: usize)
    ensures
        r == 3,
{
    3
}

pub fn default_aspect_ratio() -> (r: String)
    ensures
        r@ == "9:16"@,
{
    "9:16".to_string()
}

pub fn default_download_format() -> (r: String)
    ensures
        r@ == "720"@,
{
    "720".to_string()
}

pub fn default_language() -> (r: String)
    ensures
        r@ == "English"@,
{
    "English".to_string()
}

pub fn default_mode() -> (r: String)
    ensures
        r@ == "api"@,
{
    "api".to_string()
}

/// A generate request as the user interface sends it.
#[derive(Debug, Clone)]
pub struct GenerateShortsCommand {
    pub run_id: Option<String>,
    pub youtube_url: String,
    pub num_clips: usize,
    pub aspect_ratio: String,
    pub download_format: String,
    pub language: Option<String>,
    pub output_json: Option<String>,
    pub mode: String,
}

/// The request, with the name of a canned scenario to run in place of the
/// provider when testing.
#[derive(Debug, Clone)]
pub struct GenerateCommandArgs {
    pub request: GenerateShortsCommand,
    pub test_mode: Option<String>,
}

/// A request to cancel a running generation.
#[derive(Debug, Clone)]
pub struct CancelGenerateArgs {
    pub run_id: String,
}

/// The language a command asks for: English unless it names one; a
/// language that is blank once trimmed means none.
pub open spec fn requested_language(language: Option<String>) -> Option<Seq<char>> {
    let l = match language {
        Some(l) => l@,
        None => "English"@,
    };
    if trim(l).len() == 0 {
        None
    } else {
        Some(trim(l))
    }
}

/// The pipeline request for a command.
pub fn as_request(c: &GenerateShortsCommand) -> (r: GenerateShortsRequest)
    ensures
        r.youtube_url == c.youtube_url,
        r.num_clips == c.num_clips,
        r.aspect_ratio == c.aspect_ratio,
        r.download_format == c.download_format,
        r.mode == c.mode,
        match requested_language(c.language) {
            Some(l) => r.language matches Some(x) && x@ == l,
            None => r.language is None,
        },
{
    let lang = match &c.language {
        Some(l) => l.clone(),
        None => default_language(),
    };
    let trimmed = trim_str(lang.as_str());
    let language = if trimmed.as_str().is_empty() {
        None
    } else {
        Some(trimmed)
    };
    GenerateShortsRequest {
        youtube_url: c.youtube_url.clone(),
        num_clips: c.num_clips,
        aspect_ratio: c.aspect_ratio.clone(),
        download_format: c.download_format.clone(),
        language,
        mode: c.mode.clone(),
    }
}

/// `run-{now}-{process id}`.
pub open spec fn fallback_run_id(now_ms: u64, process_id: u32) -> Seq<char> {
    "run-"@ + dec(now_ms as nat) + "-"@ + dec(process_id as nat)
}

/// The id a run goes by: the one the request gives, trimmed, unless it is
/// blank; else one made of the time and the process id.
pub open spec fn normalized_run_id(value: Option<Seq<char>>, now_ms: u64, process_id: u32) -> Seq<char> {
    match value {
        Some(v) => if trim(v).len() > 0 {
            trim(v)
        } else {
            fallback_run_id(now_ms, process_id)
        },
        None => fallback_run_id(now_ms, process_id),
    }
}

/// Picks the id a run goes by.
pub fn normalize_run_id(value: Option<&str>, now_ms: u64, process_id: u32) -> (r: String)
    ensures
        r@ == normalized_run_id(
            match value {
                Some(v) => Some(v@),
                None => None,
            },
            now_ms,
            process_id,
        ),
{
    if let Some(v) = value {
        let t = trim_str(v);
        if !t.as_str().is_empty() {
            return t;
        }
    }
    let a = concat2("run-", u64_to_string(now_ms).as_str());
    let b = concat2(a.as_str(), "-");
    concat2(b.as_str(), u64_to_string(process_id as u64).as_str())
}

/// An envelope for a command, with the command's mode and video and the
/// given details.
pub open spec fn is_command_envelope(
    e: ErrorEnvelope,
    c: GenerateShortsCommand,
    message: Seq<char>,
    stage: Seq<char>,
    code: Seq<char>,
    run_id: Option<Seq<char>>,
) -> bool {
    &&& e.mode == Some(c.mode)
    &&& e.source_video_url == Some(c.youtube_url)
    &&& e.error@ == message
    &&& e.details matches Some(d) && d.stage@ == stage && d.code@ == code && d.retryable is None
        && match run_id {
        Some(id) => d.run_id matches Some(x) && x@ == id,
        None => d.run_id is None,
    }
}

fn command_envelope(
    c: &GenerateShortsCommand,
    message: &str,
    stage: &str,
    code: &str,
    run_id: Option<&str>,
) -> (e: ErrorEnvelope)
    ensures
        is_command_envelope(
            e,
            *c,
            message@,
            stage@,
            code@,
            match run_id {
                Some(id) => Some(id@),
                None => None,
            },
        ),
{
    ErrorEnvelope {
        mode: Some(c.mode.clone()),
        source_video_url: Some(c.youtube_url.clone()),
        error: message.to_string(),
        details: Some(
            ErrorDetails {
                stage: stage.to_string(),
                code: code.to_string(),
                retryable: None,
                run_id: match run_id {
                    Some(id) => Some(id.to_string()),
                    None => None,
                },
            },
        ),
    }
}

/// A run stopped by the user.
pub fn cancelled_envelope(args: &GenerateCommandArgs, run_id: &str) -> (e: ErrorEnvelope)
    ensures
        is_command_envelope(
            e,
            args.request,
            "Generation cancelled."@,
            "cancel"@,
            "E_GENERATION_CANCELLED"@,
            Some(run_id@),
        ),
{
    command_envelope(&args.request, "Generation cancelled.", "cancel", "E_GENERATION_CANCELLED", Some(run_id))
}

/// A run stopped because it took too long.
pub fn timeout_envelope(args: &GenerateCommandArgs, run_id: &str) -> (e: ErrorEnvelope)
    ensures
        is_command_envelope(
            e,
            args.request,
            "Generation timed out."@,
            "timeout"@,
            "E_GENERATION_TIMEOUT"@,
            Some(run_id@),
        ),
{
    command_envelope(&args.request, "Generation timed out.", "timeout", "E_GENERATION_TIMEOUT", Some(run_id))
}

/// A run refused for want of a license.
pub fn auth_error_envelope(args: &GenerateCommandArgs, message: &str) -> (e: ErrorEnvelope)
    ensures
        is_command_envelope(e, args.request, message@, "auth"@, "E_LICENSE_REQUIRED"@, None),
{
    command_envelope(&args.request, message, "auth", "E_LICENSE_REQUIRED", None)
}

/// Whether a session lets the user generate: only a licensed one (also
/// within its offline grace); any other state or a failure to read it
/// gives the refusal envelope.
pub fn generation_auth_error(
    args: &GenerateCommandArgs,
    session: Result<bool, String>,
) -> (r: Option<ErrorEnvelope>)
    ensures
        session == Ok::<bool, String>(true) ==> r is None,
        session == Ok::<bool, String>(false) ==> (r matches Some(e) && is_command_envelope(
            e,
            args.request,
            "license required"@,
            "auth"@,
            "E_LICENSE_REQUIRED"@,
            None,
        )),
        session matches Err(m) ==> (r matches Some(e) && is_command_envelope(
            e,
            args.request,
            m@,
            "auth"@,
            "E_LICENSE_REQUIRED"@,
            None,
        )),
{
    match session {
        Ok(true) => None,
        Ok(false) => Some(auth_error_envelope(args, "license required")),
        Err(m) => Some(auth_error_envelope(args, m.as_str())),
    }
}

/// Writing the result file failed.
pub fn output_json_envelope(request: &GenerateShortsRequest, error: &str) -> (e: ErrorEnvelope)
    ensures
        e.mode == Some(request.mode),
        e.source_video_url == Some(request.youtube_url),
        e.error@ == "failed to write output json: "@ + error@,
        e.details matches Some(d) && d.stage@ == "output_json"@ && d.code@
            == "E_OUTPUT_JSON_WRITE_FAILED"@ && d.retryable is None && d.run_id is None,
{
    ErrorEnvelope {
        mode: Some(request.mode.clone()),
        source_video_url: Some(request.youtube_url.clone()),
        error: concat2("failed to write output json: ", error),
        details: Some(
            ErrorDetails {
                stage: "output_json".to_string(),
                code: "E_OUTPUT_JSON_WRITE_FAILED".to_string(),
                retryable: None,
                run_id: None,
            },
        ),
    }
}

// ---------------------------------------------------------------------------
// Progress events
// ---------------------------------------------------------------------------

/// A progress event sent to the user interface; progress in thousandths.
#[derive(Debug, Clone)]
pub struct ProgressEvent {
    pub event: String,
    pub run_id: Option<String>,
    pub stage: String,
    pub per_mille: u32,
    pub message: Option<String>,
    pub mode: Option<String>,
    pub source_video_url: Option<String>,
}

pub open spec fn is_event(
    e: ProgressEvent,
    kind: Seq<char>,
    run_id: Seq<char>,
    stage: Seq<char>,
    per_mille: u32,
    message: Option<Seq<char>>,
) -> bool {
    &&& e.event@ == kind
    &&& e.run_id matches Some(r) && r@ == run_id
    &&& e.stage@ == stage
    &&& e.per_mille == per_mille
    &&& match message {
        Some(m) => e.message matches Some(x) && x@ == m,
        None => e.message is None,
    }
    &&& e.mode is None
    &&& e.source_video_url is None
}

pub open spec fn opt_view(o: Option<&str>) -> Option<Seq<char>> {
    match o {
        Some(s) => Some(s@),
        None => None,
    }
}

fn make_event(kind: &str, run_id: &str, stage: &str, per_mille: u32, message: Option<&str>) -> (e: ProgressEvent)
    ensures
        is_event(e, kind@, run_id@, stage@, per_mille, opt_view(message)),
{
    ProgressEvent {
        event: kind.to_string(),
        run_id: Some(run_id.to_string()),
        stage: stage.to_string(),
        per_mille,
        message: match message {
            Some(m) => Some(m.to_string()),
            None => None,
        },
        mode: None,
        source_video_url: None,
    }
}

/// Appends a progress event for the run.
pub fn push_progress(
    events: &mut Vec<ProgressEvent>,
    run_id: &str,
    stage: &str,
    per_mille: u32,
    message: Option<&str>,
)
    ensures
        final(events)@.len() == old(events)@.len() + 1,
        final(events)@.take(old(events)@.len() as int) == old(events)@,
        is_event(final(events)@.last(), "progress"@, run_id@, stage@, per_mille, opt_view(message)),
{
    let e = make_event("progress", run_id, stage, per_mille, message);
    events.push(e);
    assert(events@.take(old(events)@.len() as int) =~= old(events)@);
}

/// Appends the event that ends the run; it always reports completion.
pub fn push_terminal(events: &mut Vec<ProgressEvent>, run_id: &str, stage: &str, message: Option<&str>)
    ensures
        final(events)@.len() == old(events)@.len() + 1,
        final(events)@.take(old(events)@.len() as int) == old(events)@,
        is_event(final(events)@.last(), "terminal"@, run_id@, stage@, 1000, opt_view(message)),
{
    let e = make_event("terminal", run_id, stage, 1000, message);
    events.push(e);
    assert(events@.take(old(events)@.len() as int) =~= old(events)@);
}

/// The event for a status change of a provider job:
/// `muapi_poll:{status}`, `[muapi] {label}: {status}`.
pub fn status_change_event(run_id: &str, label: &str, status: &str) -> (e: ProgressEvent)
    ensures
        e.event@ == "progress"@,
        e.run_id matches Some(r) && r@ == run_id@,
        e.stage@ == "muapi_poll:"@ + status@,
        e.per_mille == 400,
        e.message matches Some(m) && m@ == "[muapi] "@ + label@ + ": "@ + status@,
        e.mode matches Some(m) && m@ == "api"@,
        e.source_video_url is None,
{
    let a = concat2("[muapi] ", label);
    let b = concat2(a.as_str(), ": ");
    ProgressEvent {
        event: "progress".to_string(),
        run_id: Some(run_id.to_string()),
        stage: concat2("muapi_poll:", status),
        per_mille: 400,
        message: Some(concat2(b.as_str(), status)),
        mode: Some("api".to_string()),
        source_video_url: None,
    }
}

/// The event that opens a streamed run.
pub fn start_event(run_id: &str, args: &GenerateCommandArgs) -> (e: ProgressEvent)
    ensures
        e.event@ == "progress"@,
        e.run_id matches Some(r) && r@ == run_id@,
        e.stage@ == "generate:start"@,
        e.per_mille == 0,
        e.message matches Some(m) && m@ == "pipeline started"@,
        e.mode == Some(args.request.mode),
        e.source_video_url == Some(args.request.youtube_url),
{
    ProgressEvent {
        event: "progress".to_string(),
        run_id: Some(run_id.to_string()),
        stage: "generate:start".to_string(),
        per_mille: 0,
        message: Some("pipeline started".to_string()),
        mode: Some(args.request.mode.clone()),
        source_video_url: Some(args.request.youtube_url.clone()),
    }
}

/// The event that closes a streamed run that took too long.
pub fn timeout_event(run_id: &str, args: &GenerateCommandArgs) -> (e: ProgressEvent)
    ensures
        e.event@ == "terminal"@,
        e.run_id matches Some(r) && r@ == run_id@,
        e.stage@ == "generate:timeout"@,
        e.per_mille == 1000,
        e.message matches Some(m) && m@ == "pipeline timed out"@,
        e.mode == Some(args.request.mode),
        e.source_video_url == Some(args.request.youtube_url),
{
    ProgressEvent {
        event: "terminal".to_string(),
        run_id: Some(run_id.to_string()),
        stage: "generate:timeout".to_string(),
        per_mille: 1000,
        message: Some("pipeline timed out".to_string()),
        mode: Some(args.request.mode.clone()),
        source_video_url: Some(args.request.youtube_url.clone()),
    }
}

/// Whether a streamed run passes an event on to the user interface: only
/// the run's own events, and once it is cancelled only the closing one.
pub fn should_forward(e: &ProgressEvent, run_id: &str, cancelled: bool) -> (b: bool)
    ensures
        b <==> (e.run_id matches Some(r) && r@ == run_id@) && (!cancelled || e.event@ == "terminal"@),
{
    let own = match &e.run_id {
        Some(r) => *r == run_id.to_string(),
        None => false,
    };
    if !own {
        return false;
    }
    if cancelled {
        let terminal = "terminal".to_string();
        return e.event == terminal;
    }
    true
}

/// How long a streamed run may take, in seconds: the configured value when
/// it parses once trimmed, else half an hour.
pub fn run_timeout_secs(raw: Option<&str>) -> (r: u64)
    ensures
        r == match raw {
            Some(v) => match parse_unsigned(trim(v@), u64::MAX as nat) {
                Some(n) => n,
                None => 1800,
            },
            None => 1800,
        },
{
    match raw {
        Some(v) => {
            let t = trim_str(v);
            match parse_u64_str(t.as_str()) {
                Some(n) => n,
                None => 1800,
            }
        },
        None => 1800,
    }
}

/// Whether a streamed run has timed out: the timer fired, or the time
/// limit (when there is one) has passed.
pub fn run_timed_out(timer_fired: bool, timeout_secs: u64, elapsed_ms: u64) -> (b: bool)
    ensures
        b <==> timer_fired || (timeout_secs > 0 && elapsed_ms >= timeout_secs * 1000),
{
    timer_fired || (timeout_secs > 0 && elapsed_ms as u128 >= timeout_secs as u128 * 1000)
}

// ---------------------------------------------------------------------------
// Canned runs
// ---------------------------------------------------------------------------

/// The video every canned scenario downloads.
pub open spec fn canned_video() -> Seq<char> {
    "https://cdn.example.com/video.mp4"@
}

/// The failure of the transcription stage with `message`, for the video at
/// `video`.
pub open spec fn is_transcribe_failure(e: ErrorEnvelope, message: Seq<char>, video: Seq<char>) -> bool {
    &&& e.mode matches Some(md) && md@ == "api"@
    &&& e.source_video_url matches Some(u) && u@ == video
    &&& e.error@ == replace_all(message, payload_marker(), payload_redacted())
    &&& e.details matches Some(d) && d.stage@ == error_stage_name(ErrorStage::Transcribe) && d.code@
        == error_code_name(ErrorCode::TranscribeFailed) && d.retryable == Some(false) && d.run_id is None
}

/// Runs a request through the pipeline on a canned scenario's stage
/// results: the video downloads; `fail_transcribe` then fails at
/// transcription with `transcribe failed`; any other scenario transcribes
/// one segment, finds one highlight scored 90 and renders it.
/// What a canned run renders: its single highlight when a clip is asked
/// for.
pub open spec fn canned_selection(num_clips: usize) -> Seq<usize> {
    if num_clips >= 1 {
        seq![0usize]
    } else {
        Seq::empty()
    }
}

proof fn lemma_single_ranking(scores: Seq<i64>, n: int, top: Seq<usize>)
    requires
        scores.len() == 1,
        n >= 0,
        is_top_ranking(scores, n, top),
    ensures
        top == (if n >= 1 {
            seq![0usize]
        } else {
            Seq::<usize>::empty()
        }),
{
    if n >= 1 {
        assert(top[0] < 1);
        assert(top =~= seq![0usize]);
    } else {
        assert(top =~= Seq::<usize>::empty());
    }
}

pub fn canned_run(req: &GenerateShortsRequest, mode: &str) -> (r: Result<PipelineRun, ErrorEnvelope>)
    ensures
        pipeline_mode(req.mode@) != "api"@ ==> (r matches Err(e) && e.mode is None
            && e.source_video_url is None && e.details is None && e.error@ == unknown_mode_text(
            pipeline_mode(req.mode@),
        )),
        pipeline_mode(req.mode@) == "api"@ && mode@ == "fail_transcribe"@ ==> (r matches Err(e)
            && is_transcribe_failure(e, "transcribe failed"@, canned_video())),
        pipeline_mode(req.mode@) == "api"@ && mode@ != "fail_transcribe"@ ==> (r matches Ok(run)
            && run.point == PipelinePoint::Done && run.mode@ == "api"@ && run.youtube_url == req.youtube_url
            && run.num_clips == req.num_clips && run.selected@ == canned_selection(req.num_clips)
            && (run.source_url matches Some(u) && u@ == canned_video())),
{
    let mut run = match PipelineRun::start(req) {
        Ok(run) => run,
        Err(e) => return Err(e),
    };
    let _ = run.step(PipelineEvent::Ready { cancelled: false });
    let url = "https://cdn.example.com/video.mp4".to_string();
    let _ = run.step(PipelineEvent::Finished { report: StageReport::Downloaded(Ok(url)), cancelled: false });
    let _ = run.step(PipelineEvent::Ready { cancelled: false });
    let fail = "fail_transcribe".to_string();
    if mode.to_string() == fail {
        let a = run.step(
            PipelineEvent::Finished {
                report: StageReport::Transcribed(Err("transcribe failed".to_string())),
                cancelled: false,
            },
        );
        return match a {
            PipelineAction::Fail { error, .. } => Err(error),
            _ => vstd::pervasive::unreached(),
        };
    }
    let _ = run.step(
        PipelineEvent::Finished { report: StageReport::Transcribed(Ok(TranscriptReading::Segments(1))), cancelled: false },
    );
    let _ = run.step(PipelineEvent::Ready { cancelled: false });
    let mut fields: Vec<(String, Json)> = Vec::new();
    fields.push(("score".to_string(), Json::Number("90".to_string())));
    let mut highlights: Vec<Json> = Vec::new();
    highlights.push(Json::Object(fields));
    let ghost hv = highlights@;
    proof {
        assert(scores_of(hv).len() == 1);
    }
    let _ = run.step(PipelineEvent::Finished { report: StageReport::Highlighted(Ok(highlights)), cancelled: false });
    proof {
        lemma_single_ranking(scores_of(hv), req.num_clips as int, run.selected@);
    }
    let _ = run.step(PipelineEvent::Ready { cancelled: false });
    let clips = ClipsReading { highlights_error: None, shorts_error: None, shorts: Vec::new() };
    let a = run.step(PipelineEvent::Finished { report: StageReport::Clipped(Ok(clips)), cancelled: false });
    match a {
        PipelineAction::Succeed { .. } => Ok(run),
        _ => vstd::pervasive::unreached(),
    }
}

/// The progress a canned scenario reports, as (stage, thousandths,
/// message): the download and the start of the transcription, two provider
/// status changes in the `success_with_status` scenario, and the remaining
/// stages when the run succeeded.
pub open spec fn canned_script(mode: Seq<char>, succeeded: bool) -> Seq<(Seq<char>, u32, Option<Seq<char>>)> {
    let head = seq![
        ("download:start"@, 100u32, None::<Seq<char>>),
        ("download:end"@, 250u32, None::<Seq<char>>),
        ("transcribe:start"@, 300u32, None::<Seq<char>>),
    ];
    let status = if mode == "success_with_status"@ {
        seq![
            ("muapi_poll:queued"@, 350u32, Some("[muapi] transcribe: queued"@)),
            ("muapi_poll:completed"@, 400u32, Some("[muapi] transcribe: completed"@)),
        ]
    } else {
        Seq::empty()
    };
    let tail = if succeeded {
        seq![
            ("transcribe:end"@, 550u32, None::<Seq<char>>),
            ("highlights:start"@, 600u32, None::<Seq<char>>),
            ("highlights:end"@, 750u32, None::<Seq<char>>),
            ("clip:start"@, 800u32, None::<Seq<char>>),
            ("clip:end"@, 1000u32, None::<Seq<char>>),
        ]
    } else {
        Seq::empty()
    };
    head + status + tail
}

/// Whether `added` are the progress events of `script` for the run.
pub open spec fn follows_script(
    added: Seq<ProgressEvent>,
    run_id: Seq<char>,
    script: Seq<(Seq<char>, u32, Option<Seq<char>>)>,
) -> bool {
    &&& added.len() == script.len()
    &&& forall|i: int| 0 <= i < script.len() ==> is_event(#[trigger] added[i], "progress"@, run_id, script[i].0, script[i].1, script[i].2)
}

/// Runs a canned scenario ([`canned_run`]) and reports its progress
/// ([`canned_script`]).
pub fn run_mock(
    events: &mut Vec<ProgressEvent>,
    run_id: &str,
    req: &GenerateShortsRequest,
    mode: &str,
) -> (r: Result<PipelineRun, ErrorEnvelope>)
    ensures
        final(events)@.take(old(events)@.len() as int) == old(events)@,
        follows_script(final(events)@.skip(old(events)@.len() as int), run_id@, canned_script(mode@, r is Ok)),
        pipeline_mode(req.mode@) != "api"@ ==> (r matches Err(e) && e.mode is None
            && e.source_video_url is None && e.details is None && e.error@ == unknown_mode_text(
            pipeline_mode(req.mode@),
        )),
        pipeline_mode(req.mode@) == "api"@ && mode@ == "fail_transcribe"@ ==> (r matches Err(e)
            && is_transcribe_failure(e, "transcribe failed"@, canned_video())),
        pipeline_mode(req.mode@) == "api"@ && mode@ != "fail_transcribe"@ ==> (r matches Ok(run)
            && run.point == PipelinePoint::Done && run.mode@ == "api"@ && run.youtube_url == req.youtube_url
            && run.num_clips == req.num_clips && run.selected@ == canned_selection(req.num_clips)
            && (run.source_url matches Some(u) && u@ == canned_video())),
{
    let ghost start = events@;
    push_progress(events, run_id, "download:start", 100, None);
    let ghost e0 = events@.last();
    push_progress(events, run_id, "download:end", 250, None);
    let ghost e1 = events@.last();
    push_progress(events, run_id, "transcribe:start", 300, None);
    let ghost e2 = events@.last();
    let ghost mut added: Seq<ProgressEvent> = seq![e0, e1, e2];
    assert(events@ =~= start + added);
    let with_status = "success_with_status".to_string();
    if mode.to_string() == with_status {
        push_progress(events, run_id, "muapi_poll:queued", 350, Some("[muapi] transcribe: queued"));
        let ghost e3 = events@.last();
        push_progress(events, run_id, "muapi_poll:completed", 400, Some("[muapi] transcribe: completed"));
        let ghost e4 = events@.last();
        proof {
            added = added + seq![e3, e4];
        }
        assert(events@ =~= start + added);
    }
    let ghost mid = added;
    let out = canned_run(req, mode);
    if out.is_ok() {
        push_progress(events, run_id, "transcribe:end", 550, None);
        let ghost t0 = events@.last();
        push_progress(events, run_id, "highlights:start", 600, None);
        let ghost t1 = events@.last();
        push_progress(events, run_id, "highlights:end", 750, None);
        let ghost t2 = events@.last();
        push_progress(events, run_id, "clip:start", 800, None);
        let ghost t3 = events@.last();
        push_progress(events, run_id, "clip:end", 1000, None);
        let ghost t4 = events@.last();
        proof {
            added = added + seq![t0, t1, t2, t3, t4];
        }
        assert(events@ =~= start + added);
    }
    proof {
        assert(events@.take(start.len() as int) =~= start);
        assert(events@.skip(start.len() as int) =~= added);
        let script = canned_script(mode@, out is Ok);
        assert(added.len() == script.len());
        assert forall|i: int| 0 <= i < script.len() implies is_event(
            #[trigger] added[i],
            "progress"@,
            run_id@,
            script[i].0,
            script[i].1,
            script[i].2,
        ) by {
        }
    }
    out
}

/// What a finished live run adds to its events: the closing event for a
/// success, or for a cancellation (and then the run ends as cancelled);
/// nothing otherwise. Gives whether the run ends as cancelled.
pub fn close_live_run(events: &mut Vec<ProgressEvent>, run_id: &str, succeeded: bool, cancelled: bool) -> (ends_cancelled: bool)
    ensures
        ends_cancelled <==> !succeeded && cancelled,
        succeeded ==> final(events)@.len() == old(events)@.len() + 1 && final(events)@.take(
            old(events)@.len() as int,
        ) == old(events)@ && is_event(
            final(events)@.last(),
            "terminal"@,
            run_id@,
            "generate:success"@,
            1000,
            Some("pipeline completed"@),
        ),
        ends_cancelled ==> final(events)@.len() == old(events)@.len() + 1 && final(events)@.take(
            old(events)@.len() as int,
        ) == old(events)@ && is_event(
            final(events)@.last(),
            "terminal"@,
            run_id@,
            "generate:cancelled"@,
            1000,
            Some("pipeline cancelled"@),
        ),
        !succeeded && !cancelled ==> final(events)@ == old(events)@,
{
    if succeeded {
        push_terminal(events, run_id, "generate:success", Some("pipeline completed"));
        false
    } else if cancelled {
        push_terminal(events, run_id, "generate:cancelled", Some("pipeline cancelled"));
        true
    } else {
        false
    }
}

/// A failed run that was not cancelled closes with its error message.
pub fn close_failed_run(events: &mut Vec<ProgressEvent>, run_id: &str, error: &ErrorEnvelope, cancelled: bool)
    ensures
        cancelled ==> final(events)@ == old(events)@,
        !cancelled ==> final(events)@.len() == old(events)@.len() + 1 && final(events)@.take(
            old(events)@.len() as int,
        ) == old(events)@ && is_event(
            final(events)@.last(),
            "terminal"@,
            run_id@,
            "generate:failure"@,
            1000,
            Some(error.error@),
        ),
{
    if !cancelled {
        push_terminal(events, run_id, "generate:failure", Some(error.error.as_str()));
    }
}

} // verus!
