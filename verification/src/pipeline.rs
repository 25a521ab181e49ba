//! The shorts generation pipeline: download, transcribe, pick highlights,
//! render clips.
//!
//! The stages themselves (network calls to the media provider) are run by
//! the caller. A [`PipelineRun`] decides, one step at a time, what comes
//! next: which progress to report, which stage to run, and which error ends
//! the run.

use vstd::prelude::*;
use crate::errors::{error_code_name, error_stage_name, redact_message, ErrorCode, ErrorStage};
use crate::numbers::{parse_i64_str, parse_signed};
use crate::text::{all_ascii, concat2, lower_seq, replace_all, to_lowercase, trim, trim_str, unicode_lower};
use crate::errors::{payload_marker, payload_redacted};
use crate::provider_json::{get, json_get, Json};

verus! {

/// Machine-readable details of an error envelope.
#[derive(Debug, Clone)]
pub struct ErrorDetails {
    pub stage: String,
    pub code: String,
    pub retryable: Option<bool>,
    pub run_id: Option<String>,
}

/// The error a generation run ends with.
#[derive(Debug, Clone)]
pub struct ErrorEnvelope {
    pub mode: Option<String>,
    pub source_video_url: Option<String>,
    pub error: String,
    pub details: Option<ErrorDetails>,
}

/// What to generate.
#[derive(Debug, Clone)]
pub struct GenerateShortsRequest {
    pub youtube_url: String,
    pub num_clips: usize,
    pub aspect_ratio: String,
    pub download_format: String,
    pub language: Option<String>,
    pub mode: String,
}

impl Default for GenerateShortsRequest {
    /// Three vertical clips from a 720p download, in api mode.
    fn default() -> (r: Self)
        ensures
            r.youtube_url@ == Seq::<char>::empty(),
            r.num_clips == 3,
            r.aspect_ratio@ == "9:16"@,
            r.download_format@ == "720"@,
            r.language is None,
            r.mode@ == "api"@,
    {
        proof {
            reveal_strlit("");
        }
        GenerateShortsRequest {
            youtube_url: "".to_string(),
            num_clips: 3,
            aspect_ratio: "9:16".to_string(),
            download_format: "720".to_string(),
            language: None,
            mode: "api".to_string(),
        }
    }
}

pub open spec fn no_segments_error() -> Seq<char> {
    "Whisper produced no segments. The video may have no detectable speech."@
}

pub open spec fn no_highlights_error() -> Seq<char> {
    "Highlight generator returned zero clips."@
}

/// The envelope of a failed api stage; the message has its provider
/// payload blobs masked.
pub fn map_api_error(
    stage: ErrorStage,
    code: ErrorCode,
    message: &str,
    source_video_url: Option<String>,
) -> (r: ErrorEnvelope)
    ensures
        r.mode matches Some(m) && m@ == "api"@,
        r.source_video_url == source_video_url,
        r.error@ == replace_all(message@, payload_marker(), payload_redacted()),
        r.details matches Some(d) && d.stage@ == error_stage_name(stage) && d.code@
            == error_code_name(code) && d.retryable == Some(false) && d.run_id is None,
{
    ErrorEnvelope {
        mode: Some("api".to_string()),
        source_video_url,
        error: redact_message(message),
        details: Some(
            ErrorDetails {
                stage: stage.as_str().to_string(),
                code: code.as_str().to_string(),
                retryable: Some(false),
                run_id: None,
            },
        ),
    }
}

/// The mode a request runs in: `api` when none is given, else the given
/// mode in lower case.
pub open spec fn pipeline_mode(mode: Seq<char>) -> Seq<char> {
    if trim(mode).len() == 0 {
        "api"@
    } else {
        unicode_lower(mode)
    }
}

/// The mode of a request written in ASCII: `api` when none is given, else
/// the given mode with `A`-`Z` lowered.
pub open spec fn ascii_pipeline_mode(mode: Seq<char>) -> Seq<char> {
    if trim(mode).len() == 0 {
        "api"@
    } else {
        lower_seq(mode)
    }
}

/// `Unknown mode: '{mode}'. Use 'api'.`
pub open spec fn unknown_mode_text(mode: Seq<char>) -> Seq<char> {
    "Unknown mode: '"@ + mode + "'. Use 'api'."@
}

/// The envelope of a run stopped by its cancel signal.
pub open spec fn is_cancel_envelope(e: ErrorEnvelope, mode: Seq<char>, url: Seq<char>) -> bool {
    &&& e.mode matches Some(m) && m@ == mode
    &&& e.source_video_url matches Some(u) && u@ == url
    &&& e.error@ == "Generation cancelled."@
    &&& e.details matches Some(d) && d.stage@ == "cancel"@ && d.code@ == "E_GENERATION_CANCELLED"@
        && d.retryable is None && d.run_id is None
}

fn cancel_envelope(mode: &String, url: &String) -> (r: ErrorEnvelope)
    ensures
        is_cancel_envelope(r, mode@, url@),
{
    ErrorEnvelope {
        mode: Some(mode.clone()),
        source_video_url: Some(url.clone()),
        error: "Generation cancelled.".to_string(),
        details: Some(
            ErrorDetails {
                stage: "cancel".to_string(),
                code: "E_GENERATION_CANCELLED".to_string(),
                retryable: None,
                run_id: None,
            },
        ),
    }
}

// ---------------------------------------------------------------------------
// Progress
// ---------------------------------------------------------------------------

/// A progress report: the stage marker, how far the run is in thousandths,
/// and a message.
#[derive(Debug, Clone)]
pub struct StageProgress {
    pub stage: String,
    pub per_mille: u32,
    pub message: String,
}

/// The four stages, in the order they run.
#[derive(Debug, Clone, Copy, PartialEq, Eq, Structural)]
pub enum PipelineStage {
    Download,
    Transcribe,
    Highlights,
    Clip,
}

pub open spec fn stage_index(s: PipelineStage) -> int {
    match s {
        PipelineStage::Download => 0,
        PipelineStage::Transcribe => 1,
        PipelineStage::Highlights => 2,
        PipelineStage::Clip => 3,
    }
}

/// Marker, thousandths and message reported when a stage starts.
pub open spec fn start_report(s: PipelineStage) -> (Seq<char>, u32, Seq<char>) {
    match s {
        PipelineStage::Download => ("download:start"@, 100, "downloading source video"@),
        PipelineStage::Transcribe => ("transcribe:start"@, 300, "transcription started"@),
        PipelineStage::Highlights => ("highlights:start"@, 600, "highlight detection started"@),
        PipelineStage::Clip => ("clip:start"@, 800, "clip rendering started"@),
    }
}

/// Marker, thousandths and message reported when a stage has ended.
pub open spec fn end_report(s: PipelineStage) -> (Seq<char>, u32, Seq<char>) {
    match s {
        PipelineStage::Download => ("download:end"@, 250, "download completed"@),
        PipelineStage::Transcribe => ("transcribe:end"@, 550, "transcription completed"@),
        PipelineStage::Highlights => ("highlights:end"@, 750, "highlight detection completed"@),
        PipelineStage::Clip => ("clip:end"@, 1000, "clip rendering completed"@),
    }
}

pub open spec fn is_report(p: StageProgress, r: (Seq<char>, u32, Seq<char>)) -> bool {
    p.stage@ == r.0 && p.per_mille == r.1 && p.message@ == r.2
}

fn start_progress(s: PipelineStage) -> (p: StageProgress)
    ensures
        is_report(p, start_report(s)),
{
    match s {
        PipelineStage::Download => StageProgress {
            stage: "download:start".to_string(),
            per_mille: 100,
            message: "downloading source video".to_string(),
        },
        PipelineStage::Transcribe => StageProgress {
            stage: "transcribe:start".to_string(),
            per_mille: 300,
            message: "transcription started".to_string(),
        },
        PipelineStage::Highlights => StageProgress {
            stage: "highlights:start".to_string(),
            per_mille: 600,
            message: "highlight detection started".to_string(),
        },
        PipelineStage::Clip => StageProgress {
            stage: "clip:start".to_string(),
            per_mille: 800,
            message: "clip rendering started".to_string(),
        },
    }
}

fn end_progress(s: PipelineStage) -> (p: StageProgress)
    ensures
        is_report(p, end_report(s)),
{
    match s {
        PipelineStage::Download => StageProgress {
            stage: "download:end".to_string(),
            per_mille: 250,
            message: "download completed".to_string(),
        },
        PipelineStage::Transcribe => StageProgress {
            stage: "transcribe:end".to_string(),
            per_mille: 550,
            message: "transcription completed".to_string(),
        },
        PipelineStage::Highlights => StageProgress {
            stage: "highlights:end".to_string(),
            per_mille: 750,
            message: "highlight detection completed".to_string(),
        },
        PipelineStage::Clip => StageProgress {
            stage: "clip:end".to_string(),
            per_mille: 1000,
            message: "clip rendering completed".to_string(),
        },
    }
}

// ---------------------------------------------------------------------------
// The run
// ---------------------------------------------------------------------------

/// Where a run stands: about to start a stage, waiting for a stage's
/// result, or over.
#[derive(Debug, Clone, Copy, PartialEq, Eq, Structural)]
pub enum PipelinePoint {
    Before(PipelineStage),
    After(PipelineStage),
    Done,
}

/// How far along the run a point is; every step moves it forward.
pub open spec fn point_index(p: PipelinePoint) -> int {
    match p {
        PipelinePoint::Before(s) => 2 * stage_index(s),
        PipelinePoint::After(s) => 2 * stage_index(s) + 1,
        PipelinePoint::Done => 8,
    }
}

/// The progress last reported when a run stands at a point.
pub open spec fn reported_at(p: PipelinePoint) -> int {
    match p {
        PipelinePoint::Before(PipelineStage::Download) => 0,
        PipelinePoint::Before(s) => end_report(previous_stage(s)).1 as int,
        PipelinePoint::After(s) => start_report(s).1 as int,
        PipelinePoint::Done => 1000,
    }
}

pub open spec fn previous_stage(s: PipelineStage) -> PipelineStage {
    match s {
        PipelineStage::Download => PipelineStage::Download,
        PipelineStage::Transcribe => PipelineStage::Download,
        PipelineStage::Highlights => PipelineStage::Transcribe,
        PipelineStage::Clip => PipelineStage::Highlights,
    }
}

pub open spec fn next_stage(s: PipelineStage) -> PipelineStage {
    match s {
        PipelineStage::Download => PipelineStage::Transcribe,
        PipelineStage::Transcribe => PipelineStage::Highlights,
        PipelineStage::Highlights => PipelineStage::Clip,
        PipelineStage::Clip => PipelineStage::Clip,
    }
}

/// What the caller read from a transcript: its number of segments, or why
/// the payload is not a transcript.
#[derive(Debug, Clone)]
pub enum TranscriptReading {
    Segments(usize),
    Invalid(String),
}

/// What the clip stage gave: the rendered clips, and why the highlights or
/// the rendered clips are not well-formed, if they are not.
#[derive(Debug)]
pub struct ClipsReading {
    pub highlights_error: Option<String>,
    pub shorts_error: Option<String>,
    pub shorts: Vec<Json>,
}

/// The result of a stage, as the caller hands it back.
#[derive(Debug)]
pub enum StageReport {
    /// The URL of the downloaded source video, or the stage's error.
    Downloaded(Result<String, String>),
    Transcribed(Result<TranscriptReading, String>),
    /// The highlights found, in the order they came.
    Highlighted(Result<Vec<Json>, String>),
    Clipped(Result<ClipsReading, String>),
}

pub open spec fn report_stage(r: StageReport) -> PipelineStage {
    match r {
        StageReport::Downloaded(_) => PipelineStage::Download,
        StageReport::Transcribed(_) => PipelineStage::Transcribe,
        StageReport::Highlighted(_) => PipelineStage::Highlights,
        StageReport::Clipped(_) => PipelineStage::Clip,
    }
}

/// What the caller tells the run: that it may go on, or what a stage gave;
/// with whether the run has been cancelled meanwhile.
#[derive(Debug)]
pub enum PipelineEvent {
    Ready { cancelled: bool },
    Finished { report: StageReport, cancelled: bool },
}

/// What the run asks of the caller.
#[derive(Debug)]
pub enum PipelineAction {
    /// Report the progress, then run the stage and hand back its result.
    Run { progress: StageProgress, stage: PipelineStage },
    /// Report the progress, then hand back `Ready`.
    Continue { progress: StageProgress },
    /// Report the progress, if any; the run failed with this error.
    Fail { progress: Option<StageProgress>, error: ErrorEnvelope },
    /// Report the progress; the run succeeded.
    Succeed { progress: StageProgress },
}

/// A generation run.
#[derive(Debug)]
pub struct PipelineRun {
    /// The mode the run is in (always `api` once started).
    pub mode: String,
    pub youtube_url: String,
    pub num_clips: usize,
    pub point: PipelinePoint,
    /// The downloaded video, once there is one.
    pub source_url: Option<String>,
    /// The positions of the highlights chosen for rendering, best first.
    pub selected: Vec<usize>,
    /// All the highlights found, in the order they came.
    pub highlights: Vec<Json>,
    /// The rendered clips.
    pub shorts: Vec<Json>,
}

/// The event a run at a point can take.
pub open spec fn expects(p: PipelinePoint, e: PipelineEvent) -> bool {
    match p {
        PipelinePoint::Before(_) => e is Ready,
        PipelinePoint::After(s) => e matches PipelineEvent::Finished { report, .. } && report_stage(
            report,
        ) == s,
        PipelinePoint::Done => false,
    }
}

/// The progress an action reports.
pub open spec fn action_progress(a: PipelineAction) -> Option<StageProgress> {
    match a {
        PipelineAction::Run { progress, .. } => Some(progress),
        PipelineAction::Continue { progress } => Some(progress),
        PipelineAction::Fail { progress, .. } => progress,
        PipelineAction::Succeed { progress } => Some(progress),
    }
}

/// The failure of stage `s` with message `m`.
pub open spec fn is_stage_failure(
    e: ErrorEnvelope,
    s: ErrorStage,
    c: ErrorCode,
    m: Seq<char>,
    source: Option<String>,
) -> bool {
    &&& e.mode matches Some(md) && md@ == "api"@
    &&& e.source_video_url == source
    &&& e.error@ == replace_all(m, payload_marker(), payload_redacted())
    &&& e.details matches Some(d) && d.stage@ == error_stage_name(s) && d.code@ == error_code_name(c)
        && d.retryable == Some(false) && d.run_id is None
}

pub open spec fn failure_stage(s: PipelineStage) -> ErrorStage {
    match s {
        PipelineStage::Download => ErrorStage::Download,
        PipelineStage::Transcribe => ErrorStage::Transcribe,
        PipelineStage::Highlights => ErrorStage::Highlights,
        PipelineStage::Clip => ErrorStage::Clip,
    }
}

pub open spec fn failure_code(s: PipelineStage) -> ErrorCode {
    match s {
        PipelineStage::Download => ErrorCode::DownloadFailed,
        PipelineStage::Transcribe => ErrorCode::TranscribeFailed,
        PipelineStage::Highlights => ErrorCode::HighlightsFailed,
        PipelineStage::Clip => ErrorCode::ClipFailed,
    }
}

/// The error of a stage's own failure, if the report carries one.
pub open spec fn report_error(r: StageReport) -> Option<String> {
    match r {
        StageReport::Downloaded(Err(e)) => Some(e),
        StageReport::Transcribed(Err(e)) => Some(e),
        StageReport::Highlighted(Err(e)) => Some(e),
        StageReport::Clipped(Err(e)) => Some(e),
        _ => None,
    }
}

/// What the stage left to check after its end is reported: the failure it
/// ends the run with, if any, as (stage, code, message).
pub open spec fn payload_failure(r: StageReport) -> Option<(ErrorStage, ErrorCode, Seq<char>)> {
    match r {
        StageReport::Transcribed(Ok(TranscriptReading::Invalid(m))) => Some(
            (ErrorStage::Transcribe, ErrorCode::TranscribeFailed, "invalid transcript payload: "@ + m@),
        ),
        StageReport::Transcribed(Ok(TranscriptReading::Segments(n))) => if n == 0 {
            Some((ErrorStage::Transcribe, ErrorCode::NoTranscriptSegments, no_segments_error()))
        } else {
            None
        },
        StageReport::Highlighted(Ok(v)) => if v@.len() == 0 {
            Some((ErrorStage::Highlights, ErrorCode::NoHighlights, no_highlights_error()))
        } else {
            None
        },
        StageReport::Clipped(Ok(c)) => match (c.highlights_error, c.shorts_error) {
            (Some(m), _) => Some(
                (ErrorStage::Highlights, ErrorCode::HighlightsFailed, "invalid highlights payload: "@ + m@),
            ),
            (None, Some(m)) => Some(
                (ErrorStage::Clip, ErrorCode::ClipFailed, "invalid shorts payload: "@ + m@),
            ),
            (None, None) => None,
        },
        _ => None,
    }
}

/// The scores of the highlights, in order.
pub open spec fn scores_of(v: Seq<Json>) -> Seq<i64> {
    v.map_values(|h: Json| item_score(h))
}

/// The highlights a run keeps after a report: those of a non-empty list of
/// highlights, else those it had.
pub open spec fn highlights_after(r: StageReport, before: Vec<Json>) -> Vec<Json> {
    match r {
        StageReport::Highlighted(Ok(v)) => if v@.len() > 0 {
            v
        } else {
            before
        },
        _ => before,
    }
}

/// The clips a run keeps after a report: those of well-formed rendered
/// clips, else those it had.
pub open spec fn shorts_after(r: StageReport, before: Vec<Json>) -> Vec<Json> {
    match r {
        StageReport::Clipped(Ok(c)) => if c.highlights_error is None && c.shorts_error is None {
            c.shorts
        } else {
            before
        },
        _ => before,
    }
}

/// The scores a report hands to the ranking: those of a non-empty list of
/// highlights.
pub open spec fn ranked_scores(r: StageReport) -> Option<Seq<i64>> {
    match r {
        StageReport::Highlighted(Ok(v)) => if v@.len() > 0 {
            Some(scores_of(v@))
        } else {
            None
        },
        _ => None,
    }
}

impl PipelineRun {
    /// Starts a run for a request: in `api` mode when the request names
    /// none, refused when it names another mode.
    pub fn start(request: &GenerateShortsRequest) -> (r: Result<PipelineRun, ErrorEnvelope>)
        ensures
            pipeline_mode(request.mode@) == "api"@ ==> (r matches Ok(run) && run.mode@ == "api"@
                && run.youtube_url == request.youtube_url && run.num_clips == request.num_clips
                && run.point == PipelinePoint::Before(PipelineStage::Download)
                && run.source_url is None && run.selected@.len() == 0 && run.highlights@.len() == 0
                && run.shorts@.len() == 0),
            pipeline_mode(request.mode@) != "api"@ ==> (r matches Err(e) && e.mode is None
                && e.source_video_url is None && e.details is None && e.error@ == unknown_mode_text(
                pipeline_mode(request.mode@),
            )),
            all_ascii(request.mode@) ==> pipeline_mode(request.mode@) == ascii_pipeline_mode(request.mode@),
    {
        let trimmed = trim_str(request.mode.as_str());
        let mode = if trimmed.as_str().is_empty() {
            proof {
                reveal_strlit("");
            }
            "api".to_string()
        } else {
            to_lowercase(request.mode.as_str())
        };
        assert(mode@ == pipeline_mode(request.mode@)) by {
            if trim(request.mode@).len() == 0 {
            }
        }
        let api = "api".to_string();
        if mode != api {
            let a = concat2("Unknown mode: '", mode.as_str());
            let b = concat2(a.as_str(), "'. Use 'api'.");
            return Err(ErrorEnvelope { mode: None, source_video_url: None, error: b, details: None });
        }
        Ok(PipelineRun {
            mode,
            youtube_url: request.youtube_url.clone(),
            num_clips: request.num_clips,
            point: PipelinePoint::Before(PipelineStage::Download),
            source_url: None,
            selected: Vec::new(),
            highlights: Vec::new(),
            shorts: Vec::new(),
        })
    }

    /// Takes one event and says what comes next.
    ///
    /// Before a stage: a cancelled run fails as cancelled, else the stage
    /// starts. After a stage: its own error ends the run first, then a
    /// cancellation; otherwise its end is reported, and a malformed or
    /// empty result ends the run there. The best `num_clips` highlights are
    /// kept for rendering; the run succeeds once the clips are rendered.
    pub fn step(&mut self, event: PipelineEvent) -> (a: PipelineAction)
        requires
            expects(old(self).point, event),
        ensures
            final(self).mode == old(self).mode,
            final(self).youtube_url == old(self).youtube_url,
            final(self).num_clips == old(self).num_clips,
            point_index(final(self).point) > point_index(old(self).point),
            // the progress reported only grows
            action_progress(a) matches Some(p) ==> reported_at(old(self).point) < p.per_mille
                && (final(self).point != PipelinePoint::Done ==> p.per_mille == reported_at(
                final(self).point,
            )),
            (a is Fail || a is Succeed) <==> final(self).point == PipelinePoint::Done,
            a matches PipelineAction::Run { stage, .. } ==> final(self).point == PipelinePoint::After(stage),
            a is Continue ==> final(self).point is Before,
            event is Ready ==> final(self).source_url == old(self).source_url && final(self).selected
                == old(self).selected && final(self).highlights == old(self).highlights && final(self).shorts
                == old(self).shorts,
            match (old(self).point, event) {
                (PipelinePoint::Before(s), PipelineEvent::Ready { cancelled }) => if cancelled {
                    a matches PipelineAction::Fail { progress: None, error } && is_cancel_envelope(
                        error,
                        old(self).mode@,
                        old(self).youtube_url@,
                    )
                } else {
                    a matches PipelineAction::Run { progress, stage } && stage == s && is_report(
                        progress,
                        start_report(s),
                    ) && final(self).point == PipelinePoint::After(s)
                },
                (PipelinePoint::After(s), PipelineEvent::Finished { report, cancelled }) => {
                    let source = if s == PipelineStage::Download {
                        None
                    } else {
                        old(self).source_url
                    };
                    if report_error(report) is Some {
                        a matches PipelineAction::Fail { progress: None, error } && is_stage_failure(
                            error,
                            failure_stage(s),
                            failure_code(s),
                            report_error(report)->0@,
                            source,
                        )
                    } else if cancelled {
                        a matches PipelineAction::Fail { progress: None, error } && is_cancel_envelope(
                            error,
                            old(self).mode@,
                            old(self).youtube_url@,
                        )
                    } else {
                        let src = match report {
                            StageReport::Downloaded(Ok(u)) => Some(u),
                            _ => old(self).source_url,
                        };
                        &&& final(self).source_url == src
                        &&& match payload_failure(report) {
                            Some(f) => a matches PipelineAction::Fail { progress: Some(p), error }
                                && is_report(p, end_report(s)) && is_stage_failure(
                                error,
                                f.0,
                                f.1,
                                f.2,
                                src,
                            ),
                            None => if s == PipelineStage::Clip {
                                a matches PipelineAction::Succeed { progress } && is_report(
                                    progress,
                                    end_report(s),
                                )
                            } else {
                                a matches PipelineAction::Continue { progress } && is_report(
                                    progress,
                                    end_report(s),
                                ) && final(self).point == PipelinePoint::Before(next_stage(s))
                            },
                        }
                        &&& ranked_scores(report) matches Some(sc) ==> is_top_ranking(
                            sc,
                            old(self).num_clips as int,
                            final(self).selected@,
                        )
                        &&& ranked_scores(report) is None ==> final(self).selected == old(self).selected
                        &&& payload_failure(report) is None ==> final(self).highlights == highlights_after(
                            report,
                            old(self).highlights,
                        ) && final(self).shorts == shorts_after(report, old(self).shorts)
                    }
                },
                _ => true,
            },
    {
        match event {
            PipelineEvent::Ready { cancelled } => {
                let s = match self.point {
                    PipelinePoint::Before(s) => s,
                    _ => PipelineStage::Download,  // not reached
                };
                if cancelled {
                    self.point = PipelinePoint::Done;
                    return PipelineAction::Fail {
                        progress: None,
                        error: cancel_envelope(&self.mode, &self.youtube_url),
                    };
                }
                self.point = PipelinePoint::After(s);
                let progress = start_progress(s);
                assert(reported_at(PipelinePoint::Before(s)) < start_report(s).1) by {
                    match s {
                        PipelineStage::Download => {},
                        PipelineStage::Transcribe => {},
                        PipelineStage::Highlights => {},
                        PipelineStage::Clip => {},
                    }
                }
                PipelineAction::Run { progress, stage: s }
            },
            PipelineEvent::Finished { report, cancelled } => {
                let s = match self.point {
                    PipelinePoint::After(s) => s,
                    _ => PipelineStage::Download,  // not reached
                };
                let source = match s {
                    PipelineStage::Download => None,
                    _ => self.source_url.clone(),
                };
                self.finish(s, report, cancelled, source)
            },
        }
    }

    fn finish(&mut self, s: PipelineStage, report: StageReport, cancelled: bool, source: Option<String>) -> (a: PipelineAction)
        requires
            old(self).point == PipelinePoint::After(s),
            report_stage(report) == s,
            source == if s == PipelineStage::Download { None } else { old(self).source_url },
        ensures
            final(self).mode == old(self).mode,
            final(self).youtube_url == old(self).youtube_url,
            final(self).num_clips == old(self).num_clips,
            (a is Fail || a is Succeed) <==> final(self).point == PipelinePoint::Done,
            !(a is Fail || a is Succeed) ==> final(self).point == PipelinePoint::Before(next_stage(s)),
            a is Run ==> false,
            action_progress(a) matches Some(p) ==> is_report(p, end_report(s)),
            if report_error(report) is Some {
                a matches PipelineAction::Fail { progress: None, error } && is_stage_failure(
                    error,
                    failure_stage(s),
                    failure_code(s),
                    report_error(report)->0@,
                    source,
                )
            } else if cancelled {
                a matches PipelineAction::Fail { progress: None, error } && is_cancel_envelope(
                    error,
                    old(self).mode@,
                    old(self).youtube_url@,
                )
            } else {
                let src = match report {
                    StageReport::Downloaded(Ok(u)) => Some(u),
                    _ => old(self).source_url,
                };
                &&& final(self).source_url == src
                &&& match payload_failure(report) {
                    Some(f) => a matches PipelineAction::Fail { progress: Some(p), error }
                        && is_stage_failure(error, f.0, f.1, f.2, src),
                    None => if s == PipelineStage::Clip {
                        a is Succeed
                    } else {
                        a is Continue
                    },
                }
                &&& ranked_scores(report) matches Some(sc) ==> is_top_ranking(
                    sc,
                    old(self).num_clips as int,
                    final(self).selected@,
                )
                &&& ranked_scores(report) is None ==> final(self).selected == old(self).selected
                &&& payload_failure(report) is None ==> final(self).highlights == highlights_after(
                    report,
                    old(self).highlights,
                ) && final(self).shorts == shorts_after(report, old(self).shorts)
            },
    {
        let stage_error = match &report {
            StageReport::Downloaded(Err(e)) => Some(e.clone()),
            StageReport::Transcribed(Err(e)) => Some(e.clone()),
            StageReport::Highlighted(Err(e)) => Some(e.clone()),
            StageReport::Clipped(Err(e)) => Some(e.clone()),
            _ => None,
        };
        if let Some(e) = stage_error {
            self.point = PipelinePoint::Done;
            let (es, ec) = match s {
                PipelineStage::Download => (ErrorStage::Download, ErrorCode::DownloadFailed),
                PipelineStage::Transcribe => (ErrorStage::Transcribe, ErrorCode::TranscribeFailed),
                PipelineStage::Highlights => (ErrorStage::Highlights, ErrorCode::HighlightsFailed),
                PipelineStage::Clip => (ErrorStage::Clip, ErrorCode::ClipFailed),
            };
            return PipelineAction::Fail { progress: None, error: map_api_error(es, ec, e.as_str(), source) };
        }
        if cancelled {
            self.point = PipelinePoint::Done;
            return PipelineAction::Fail {
                progress: None,
                error: cancel_envelope(&self.mode, &self.youtube_url),
            };
        }
        let end = end_progress(s);
        let failure: Option<(ErrorStage, ErrorCode, String)> = match &report {
            StageReport::Downloaded(Ok(u)) => {
                self.source_url = Some(u.clone());
                None
            },
            StageReport::Transcribed(Ok(TranscriptReading::Invalid(m))) => Some(
                (ErrorStage::Transcribe, ErrorCode::TranscribeFailed, concat2("invalid transcript payload: ", m.as_str())),
            ),
            StageReport::Transcribed(Ok(TranscriptReading::Segments(n))) => if *n == 0 {
                Some((ErrorStage::Transcribe, ErrorCode::NoTranscriptSegments, "Whisper produced no segments. The video may have no detectable speech.".to_string()))
            } else {
                None
            },
            StageReport::Highlighted(Ok(v)) => if v.len() == 0 {
                Some((ErrorStage::Highlights, ErrorCode::NoHighlights, "Highlight generator returned zero clips.".to_string()))
            } else {
                let mut scores: Vec<i64> = Vec::new();
                let mut i: usize = 0;
                while i < v.len()
                    invariant
                        i <= v@.len(),
                        scores@ == scores_of(v@).take(i as int),
                    decreases v@.len() - i,
                {
                    scores.push(highlight_score(&v[i]));
                    i += 1;
                    assert(scores@ =~= scores_of(v@).take(i as int));
                }
                assert(scores@ =~= scores_of(v@));
                self.selected = top_highlights(&scores, self.num_clips);
                None
            },
            StageReport::Clipped(Ok(c)) => match (&c.highlights_error, &c.shorts_error) {
                (Some(m), _) => Some(
                    (ErrorStage::Highlights, ErrorCode::HighlightsFailed, concat2("invalid highlights payload: ", m.as_str())),
                ),
                (None, Some(m)) => Some(
                    (ErrorStage::Clip, ErrorCode::ClipFailed, concat2("invalid shorts payload: ", m.as_str())),
                ),
                (None, None) => None,
            },
            _ => None,  // not reached: the stage's own error was handled above
        };
        match failure {
            Some((es, ec, m)) => {
                self.point = PipelinePoint::Done;
                let src = self.source_url.clone();
                PipelineAction::Fail { progress: Some(end), error: map_api_error(es, ec, m.as_str(), src) }
            },
            None => {
                match report {
                    StageReport::Highlighted(Ok(v)) => {
                        self.highlights = v;
                    },
                    StageReport::Clipped(Ok(c)) => {
                        self.shorts = c.shorts;
                    },
                    _ => {},
                }
                match s {
                    PipelineStage::Clip => {
                        self.point = PipelinePoint::Done;
                        PipelineAction::Succeed { progress: end }
                    },
                    PipelineStage::Download => {
                        self.point = PipelinePoint::Before(PipelineStage::Transcribe);
                        PipelineAction::Continue { progress: end }
                    },
                    PipelineStage::Transcribe => {
                        self.point = PipelinePoint::Before(PipelineStage::Highlights);
                        PipelineAction::Continue { progress: end }
                    },
                    PipelineStage::Highlights => {
                        self.point = PipelinePoint::Before(PipelineStage::Clip);
                        PipelineAction::Continue { progress: end }
                    },
                }
            },
        }
    }
}

// ---------------------------------------------------------------------------
// Running the stages
// ---------------------------------------------------------------------------

/// One call of a stage, with what it was handed and what it gave back.
pub enum StageCall {
    Download { video_url: Seq<char>, fmt: Seq<char>, result: Result<String, String> },
    Transcribe {
        media_url: Seq<char>,
        language: Option<Seq<char>>,
        result: Result<TranscriptReading, String>,
    },
    Highlights { num_clips: usize, result: Result<Vec<Json>, String> },
    Crop {
        source_video_url: Seq<char>,
        selected: Seq<usize>,
        aspect_ratio: Seq<char>,
        result: Result<ClipsReading, String>,
    },
}

pub open spec fn opt_text(o: Option<&str>) -> Option<Seq<char>> {
    match o {
        Some(s) => Some(s@),
        None => None,
    }
}

/// The four stages of a generation run, as a media provider performs them.
/// Each stage hands back what the run needs to decide; whatever comes back
/// is taken as it is. Every call is recorded, with its arguments and its
/// result, in [`PipelineStages::calls`].
pub trait PipelineStages {
    /// The calls made so far, oldest first.
    closed spec fn calls(&self) -> Seq<StageCall> {
        Seq::empty()
    }

    /// Fetches the source video; gives the URL of the downloaded media.
    fn download_youtube(&mut self, video_url: &str, fmt: &str) -> (r: Result<String, String>)
        ensures
            final(self).calls() == old(self).calls().push(
                StageCall::Download { video_url: video_url@, fmt: fmt@, result: r },
            ),
    ;

    /// Transcribes the media; gives the number of segments, or why the
    /// transcript is malformed.
    fn transcribe(&mut self, media_url: &str, language: Option<&str>) -> (r: Result<TranscriptReading, String>)
        ensures
            final(self).calls() == old(self).calls().push(
                StageCall::Transcribe { media_url: media_url@, language: opt_text(language), result: r },
            ),
    ;

    /// Finds highlights in the last transcript; gives them in order.
    fn get_highlights(&mut self, num_clips: usize) -> (r: Result<Vec<Json>, String>)
        ensures
            final(self).calls() == old(self).calls().push(StageCall::Highlights { num_clips, result: r }),
    ;

    /// Renders the chosen highlights (by position, best first) as clips.
    fn crop_highlights(
        &mut self,
        source_video_url: &str,
        selected: &Vec<usize>,
        aspect_ratio: &str,
    ) -> (r: Result<ClipsReading, String>)
        ensures
            final(self).calls() == old(self).calls().push(
                StageCall::Crop {
                    source_video_url: source_video_url@,
                    selected: selected@,
                    aspect_ratio: aspect_ratio@,
                    result: r,
                },
            ),
    ;
}

/// What an observer was told or asked: a progress report (marker,
/// thousandths, message), or a question whether the run was cancelled,
/// with its answer.
pub enum WatchEntry {
    Progress((Seq<char>, u32, Seq<char>)),
    Asked(bool),
}

/// Who watches a run: told of its progress, and asked whether it has been
/// cancelled. Both are recorded in [`PipelineObserver::watched`].
pub trait PipelineObserver {
    /// What the observer was told and asked so far, oldest first.
    closed spec fn watched(&self) -> Seq<WatchEntry> {
        Seq::empty()
    }

    fn report_progress(&mut self, progress: &StageProgress)
        ensures
            final(self).watched() == old(self).watched().push(
                WatchEntry::Progress((progress.stage@, progress.per_mille, progress.message@)),
            ),
    ;

    fn is_cancelled(&mut self) -> (b: bool)
        ensures
            final(self).watched() == old(self).watched().push(WatchEntry::Asked(b)),
    ;
}

/// No question in `w` was answered "cancelled".
pub open spec fn never_cancelled(w: Seq<WatchEntry>) -> bool {
    forall|i: int| 0 <= i < w.len() ==> !(#[trigger] w[i] matches WatchEntry::Asked(true))
}

/// An observer that ignores progress and never cancels.
pub struct NoObserver {
    history: Ghost<Seq<WatchEntry>>,
}

impl NoObserver {
    #[verifier::type_invariant]
    closed spec fn never_says_cancelled(self) -> bool {
        never_cancelled(self.history@)
    }

    pub fn new() -> (r: Self)
        ensures
            r.watched().len() == 0,
    {
        NoObserver { history: Ghost(Seq::empty()) }
    }
}

impl PipelineObserver for NoObserver {
    closed spec fn watched(&self) -> Seq<WatchEntry> {
        self.history@
    }

    fn report_progress(&mut self, progress: &StageProgress) {
        proof {
            use_type_invariant(&*self);
        }
        let ghost e = WatchEntry::Progress((progress.stage@, progress.per_mille, progress.message@));
        let ghost h = self.history@.push(e);
        assert forall|i: int| 0 <= i < h.len() implies !(#[trigger] h[i] matches WatchEntry::Asked(true)) by {
            if i < self.history@.len() {
                assert(h[i] == self.history@[i]);
            }
        }
        self.history = Ghost(h);
    }

    /// Never cancelled.
    fn is_cancelled(&mut self) -> (b: bool)
        ensures
            !b,
    {
        proof {
            use_type_invariant(&*self);
        }
        let ghost h = self.history@.push(WatchEntry::Asked(false));
        assert forall|i: int| 0 <= i < h.len() implies !(#[trigger] h[i] matches WatchEntry::Asked(true)) by {
            if i < self.history@.len() {
                assert(h[i] == self.history@[i]);
            }
        }
        self.history = Ghost(h);
        false
    }
}

// ---------------------------------------------------------------------------
// What a run does with its stages and its observer
// ---------------------------------------------------------------------------

/// The `i`-th stage of a run.
pub open spec fn stage_at(i: int) -> PipelineStage {
    if i == 0 {
        PipelineStage::Download
    } else if i == 1 {
        PipelineStage::Transcribe
    } else if i == 2 {
        PipelineStage::Highlights
    } else {
        PipelineStage::Clip
    }
}

proof fn lemma_stage_at_index()
    ensures
        forall|s: PipelineStage| #[trigger] stage_at(stage_index(s)) == s,
{
    assert forall|s: PipelineStage| #[trigger] stage_at(stage_index(s)) == s by {
        match s {
            PipelineStage::Download => {},
            PipelineStage::Transcribe => {},
            PipelineStage::Highlights => {},
            PipelineStage::Clip => {},
        }
    }
}

/// What a stage call hands back to the run.
pub open spec fn call_report(c: StageCall) -> StageReport {
    match c {
        StageCall::Download { result, .. } => StageReport::Downloaded(result),
        StageCall::Transcribe { result, .. } => StageReport::Transcribed(result),
        StageCall::Highlights { result, .. } => StageReport::Highlighted(result),
        StageCall::Crop { result, .. } => StageReport::Clipped(result),
    }
}

/// A call after which the run goes on: no error, nothing malformed or empty.
pub open spec fn passed(c: StageCall) -> bool {
    report_error(call_report(c)) is None && payload_failure(call_report(c)) is None
}

/// The downloaded video, once the first call downloaded one.
pub open spec fn downloaded(calls: Seq<StageCall>) -> Option<String> {
    if calls.len() > 0 {
        match calls[0] {
            StageCall::Download { result: Ok(u), .. } => Some(u),
            _ => None,
        }
    } else {
        None
    }
}

pub open spec fn opt_string(o: Option<String>) -> Option<Seq<char>> {
    match o {
        Some(s) => Some(s@),
        None => None,
    }
}

/// The `i`-th call is the `i`-th stage, handed what the run owes it: the
/// video URL and download format; the downloaded video and the language;
/// the number of clips; the downloaded video, the best `num_clips`
/// highlights (by descending score, earlier first among equals) and the
/// aspect ratio.
pub open spec fn fits(request: GenerateShortsRequest, calls: Seq<StageCall>, i: int) -> bool {
    match calls[i] {
        StageCall::Download { video_url, fmt, .. } => i == 0 && video_url == request.youtube_url@ && fmt
            == request.download_format@,
        StageCall::Transcribe { media_url, language, .. } => i == 1 && (match downloaded(calls) {
            Some(u) => media_url == u@,
            None => false,
        }) && language == opt_string(request.language),
        StageCall::Highlights { num_clips, .. } => i == 2 && num_clips == request.num_clips,
        StageCall::Crop { source_video_url, selected, aspect_ratio, .. } => i == 3 && (match downloaded(
            calls,
        ) {
            Some(u) => source_video_url == u@,
            None => false,
        }) && aspect_ratio == request.aspect_ratio@ && (match calls[2] {
            StageCall::Highlights { result: Ok(v), .. } => is_top_ranking(
                scores_of(v@),
                request.num_clips as int,
                selected,
            ),
            _ => false,
        }),
    }
}

/// What the observer sees of a stage the run got past: asked, told of the
/// start, asked, told of the end.
pub open spec fn stage_block(i: int) -> Seq<WatchEntry> {
    seq![
        WatchEntry::Asked(false),
        WatchEntry::Progress(start_report(stage_at(i))),
        WatchEntry::Asked(false),
        WatchEntry::Progress(end_report(stage_at(i))),
    ]
}

/// What the observer sees of the first `k` stages, all got past.
pub open spec fn passed_blocks(k: nat) -> Seq<WatchEntry>
    decreases k,
{
    if k == 0 {
        Seq::empty()
    } else {
        passed_blocks((k - 1) as nat) + stage_block(k - 1)
    }
}

/// What the observer sees up to the start of stage `k`.
pub open spec fn started(k: nat) -> Seq<WatchEntry> {
    passed_blocks(k) + seq![WatchEntry::Asked(false), WatchEntry::Progress(start_report(stage_at(k as int)))]
}

/// How a run ends at its last call: that call's own error; else a
/// cancellation asked after it; else the malformed or empty result it gave,
/// after its end was reported.
pub open spec fn stage_ended(
    request: GenerateShortsRequest,
    calls: Seq<StageCall>,
    w: Seq<WatchEntry>,
    r: Result<PipelineRun, ErrorEnvelope>,
) -> bool {
    let n = calls.len();
    let c = calls[n - 1];
    let s = stage_at(n - 1);
    let base = started((n - 1) as nat);
    match report_error(call_report(c)) {
        Some(m) => {
            &&& w.len() == base.len() + 1
            &&& w.take(base.len() as int) == base
            &&& w.last() is Asked
            &&& r matches Err(e) && is_stage_failure(
                e,
                failure_stage(s),
                failure_code(s),
                m@,
                if n == 1 { None } else { downloaded(calls) },
            )
        },
        None => {
            ||| (w == base.push(WatchEntry::Asked(true)) && (r matches Err(e) && is_cancel_envelope(
                e,
                "api"@,
                request.youtube_url@,
            )))
            ||| (w == base + seq![WatchEntry::Asked(false), WatchEntry::Progress(end_report(s))] && (
            payload_failure(call_report(c)) matches Some(f) && r matches Err(e) && is_stage_failure(
                e,
                f.0,
                f.1,
                f.2,
                downloaded(calls),
            )))
        },
    }
}

/// A run in api mode, as its stages (`calls`) and its observer (`w`) saw
/// it: the stages were called in order, each handed what it is owed, each
/// after the previous one went through; the observer was asked before each
/// stage and after each call, and told of each start before the call and
/// each end after it. The run ends cancelled before a stage, at its last
/// call, or finished after all four with the downloaded video, the
/// highlights handed to the crop stage, all the highlights found (in the
/// order they came) and the rendered clips.
pub open spec fn run_ends(
    request: GenerateShortsRequest,
    calls: Seq<StageCall>,
    w: Seq<WatchEntry>,
    r: Result<PipelineRun, ErrorEnvelope>,
) -> bool {
    let n = calls.len();
    &&& n <= 4
    &&& forall|i: int| 0 <= i < n ==> fits(request, calls, i)
    &&& forall|i: int| 0 <= i < n - 1 ==> passed(#[trigger] calls[i])
    &&& {
        ||| (n < 4 && (n == 0 || passed(calls[n - 1])) && w == passed_blocks(n).push(WatchEntry::Asked(true))
            && (r matches Err(e) && is_cancel_envelope(e, "api"@, request.youtube_url@)))
        ||| (n >= 1 && stage_ended(request, calls, w, r))
        ||| (n == 4 && passed(calls[3]) && w == passed_blocks(4) && (r matches Ok(run) && run.point
            == PipelinePoint::Done && run.mode@ == "api"@ && run.youtube_url == request.youtube_url
            && run.num_clips == request.num_clips && run.source_url == downloaded(calls) && (
        match calls[3] {
            StageCall::Crop { selected, result: Ok(c), .. } => run.selected@ == selected && run.shorts == c.shorts,
            _ => false,
        }) && (match calls[2] {
            StageCall::Highlights { result: Ok(v), .. } => run.highlights == v,
            _ => false,
        })))
    }
}

/// Where a run stands, as its logs so far show: about to start stage `k`
/// with the observer's answer `c`, or after stage `k`'s call with its
/// report and the answer asked after it.
pub open spec fn logs_at(
    request: GenerateShortsRequest,
    run: PipelineRun,
    event: PipelineEvent,
    calls: Seq<StageCall>,
    w: Seq<WatchEntry>,
) -> bool {
    let k = match run.point {
        PipelinePoint::Before(s) => stage_index(s),
        PipelinePoint::After(s) => stage_index(s),
        PipelinePoint::Done => 4,
    };
    &&& forall|i: int| 0 <= i < calls.len() ==> fits(request, calls, i)
    &&& forall|i: int| 0 <= i < k ==> passed(#[trigger] calls[i])
    &&& k >= 1 ==> run.source_url is Some && run.source_url == downloaded(calls)
    &&& k >= 3 ==> (match calls[2] {
        StageCall::Highlights { result: Ok(v), .. } => is_top_ranking(
            scores_of(v@),
            request.num_clips as int,
            run.selected@,
        ) && run.highlights == v,
        _ => false,
    })
    &&& k >= 3 && calls.len() > 3 ==> (calls[3] matches StageCall::Crop { selected, .. } && selected
        == run.selected@)
    &&& match (run.point, event) {
        (PipelinePoint::Before(_), PipelineEvent::Ready { cancelled }) => calls.len() == k && w
            == passed_blocks(k as nat).push(WatchEntry::Asked(cancelled)),
        (PipelinePoint::After(_), PipelineEvent::Finished { report, cancelled }) => calls.len() == k + 1
            && call_report(calls[k]) == report && w == started(k as nat).push(WatchEntry::Asked(cancelled)),
        _ => false,
    }
}

/// Runs a request through the stages without an observer: as
/// [`generate_shorts_with_progress`] with an observer that never cancels.
pub fn generate_shorts_with<S: PipelineStages>(
    request: &GenerateShortsRequest,
    stages: &mut S,
) -> (r: Result<PipelineRun, ErrorEnvelope>)
    ensures
        pipeline_mode(request.mode@) != "api"@ ==> (r matches Err(e) && e.mode is None
            && e.source_video_url is None && e.details is None && e.error@ == unknown_mode_text(
            pipeline_mode(request.mode@),
        )) && final(stages).calls() == old(stages).calls(),
        pipeline_mode(request.mode@) == "api"@ ==> final(stages).calls().take(old(stages).calls().len() as int)
            == old(stages).calls() && exists|w: Seq<WatchEntry>|
            never_cancelled(w) && run_ends(
                *request,
                final(stages).calls().skip(old(stages).calls().len() as int),
                w,
                r,
            ),
        r matches Ok(run) ==> run.point == PipelinePoint::Done && run.mode@ == "api"@
            && run.youtube_url == request.youtube_url && run.num_clips == request.num_clips
            && run.source_url is Some,
        all_ascii(request.mode@) ==> pipeline_mode(request.mode@) == ascii_pipeline_mode(request.mode@),
{
    let mut observer = NoObserver::new();
    let r = generate_shorts_with_progress(request, stages, &mut observer);
    proof {
        use_type_invariant(&observer);
        if pipeline_mode(request.mode@) == "api"@ {
            let w = observer.watched().skip(0);
            assert(w =~= observer.watched());
            assert(never_cancelled(w));
        }
    }
    r
}

/// Runs a request through the stages, step by step as [`PipelineRun::step`]
/// decides, reporting progress to the observer and asking it before each
/// stage and after each call whether the run was cancelled. What it does
/// with the stages and the observer, and how it ends, is [`run_ends`]; in a
/// mode other than api it calls neither.
#[verifier::rlimit(60)]
pub fn generate_shorts_with_progress<S: PipelineStages, O: PipelineObserver>(
    request: &GenerateShortsRequest,
    stages: &mut S,
    observer: &mut O,
) -> (r: Result<PipelineRun, ErrorEnvelope>)
    ensures
        pipeline_mode(request.mode@) != "api"@ ==> (r matches Err(e) && e.mode is None
            && e.source_video_url is None && e.details is None && e.error@ == unknown_mode_text(
            pipeline_mode(request.mode@),
        )) && final(stages).calls() == old(stages).calls() && final(observer).watched() == old(
            observer,
        ).watched(),
        pipeline_mode(request.mode@) == "api"@ ==> final(stages).calls().take(old(stages).calls().len() as int)
            == old(stages).calls() && final(observer).watched().take(old(observer).watched().len() as int)
            == old(observer).watched() && run_ends(
            *request,
            final(stages).calls().skip(old(stages).calls().len() as int),
            final(observer).watched().skip(old(observer).watched().len() as int),
            r,
        ),
        r matches Ok(run) ==> run.point == PipelinePoint::Done && run.mode@ == "api"@
            && run.youtube_url == request.youtube_url && run.num_clips == request.num_clips
            && run.source_url is Some,
        all_ascii(request.mode@) ==> pipeline_mode(request.mode@) == ascii_pipeline_mode(request.mode@),
{
    let ghost c0 = stages.calls();
    let ghost w0 = observer.watched();
    let mut run = match PipelineRun::start(request) {
        Ok(run) => run,
        Err(e) => return Err(e),
    };
    let asked = observer.is_cancelled();
    let mut event = PipelineEvent::Ready { cancelled: asked };
    let ghost mut calls: Seq<StageCall> = Seq::empty();
    let ghost mut w: Seq<WatchEntry> = seq![WatchEntry::Asked(asked)];
    assert(observer.watched() =~= w0 + w);
    assert(stages.calls() =~= c0 + calls);
    assert(passed_blocks(0).push(WatchEntry::Asked(asked)) =~= w);
    loop
        invariant
            expects(run.point, event),
            pipeline_mode(request.mode@) == "api"@,
            all_ascii(request.mode@) ==> pipeline_mode(request.mode@) == ascii_pipeline_mode(request.mode@),
            run.mode@ == "api"@,
            run.youtube_url == request.youtube_url,
            run.num_clips == request.num_clips,
            c0 == old(stages).calls(),
            w0 == old(observer).watched(),
            stages.calls() == c0 + calls,
            observer.watched() == w0 + w,
            logs_at(*request, run, event, calls, w),
        decreases 8 - point_index(run.point),
    {
        let ghost before = run;
        let ghost ev = event;
        let ghost calls_before = calls;
        let action = run.step(event);
        proof {
            lemma_stage_at_index();
        }
        match action {
            PipelineAction::Run { progress, stage } => {
                proof {
                    assert(before.point == PipelinePoint::Before(stage));
                    assert(ev == PipelineEvent::Ready { cancelled: false });
                }
                observer.report_progress(&progress);
                proof {
                    w = w.push(WatchEntry::Progress((progress.stage@, progress.per_mille, progress.message@)));
                }
                let report = match stage {
                    PipelineStage::Download => {
                        let r = stages.download_youtube(run.youtube_url.as_str(), request.download_format.as_str());
                        proof {
                            calls = calls.push(
                                StageCall::Download {
                                    video_url: run.youtube_url@,
                                    fmt: request.download_format@,
                                    result: r,
                                },
                            );
                        }
                        StageReport::Downloaded(r)
                    },
                    PipelineStage::Transcribe => {
                        let source = match &run.source_url {
                            Some(u) => u.clone(),
                            None => String::new(),
                        };
                        let language = match &request.language {
                            Some(l) => Some(l.as_str()),
                            None => None,
                        };
                        let r = stages.transcribe(source.as_str(), language);
                        proof {
                            calls = calls.push(
                                StageCall::Transcribe { media_url: source@, language: opt_text(language), result: r },
                            );
                        }
                        StageReport::Transcribed(r)
                    },
                    PipelineStage::Highlights => {
                        let r = stages.get_highlights(request.num_clips);
                        proof {
                            calls = calls.push(StageCall::Highlights { num_clips: request.num_clips, result: r });
                        }
                        StageReport::Highlighted(r)
                    },
                    PipelineStage::Clip => {
                        let source = match &run.source_url {
                            Some(u) => u.clone(),
                            None => String::new(),
                        };
                        let r = stages.crop_highlights(source.as_str(), &run.selected, request.aspect_ratio.as_str());
                        proof {
                            calls = calls.push(
                                StageCall::Crop {
                                    source_video_url: source@,
                                    selected: run.selected@,
                                    aspect_ratio: request.aspect_ratio@,
                                    result: r,
                                },
                            );
                        }
                        StageReport::Clipped(r)
                    },
                };
                let asked = observer.is_cancelled();
                proof {
                    let k = stage_index(stage);
                    w = w.push(WatchEntry::Asked(asked));
                    assert(calls.len() == k + 1);
                    assert(calls.take(k) =~= calls_before);
                    assert(call_report(calls[k]) == report);
                    assert(w =~= started(k as nat).push(WatchEntry::Asked(asked)));
                    assert(downloaded(calls) == downloaded(calls_before) || k == 0);
                    assert forall|i: int| 0 <= i < calls.len() implies fits(*request, calls, i) by {
                        if i < k {
                            assert(calls[i] == calls_before[i]);
                            assert(fits(*request, calls_before, i));
                            if k >= 3 {
                                assert(calls[2] == calls_before[2]);
                            }
                        }
                    }
                    assert forall|i: int| 0 <= i < k implies passed(#[trigger] calls[i]) by {
                        assert(calls[i] == calls_before[i]);
                    }
                }
                event = PipelineEvent::Finished { report, cancelled: asked };
                assert(observer.watched() =~= w0 + w);
                assert(stages.calls() =~= c0 + calls);
            },
            PipelineAction::Continue { progress } => {
                observer.report_progress(&progress);
                let asked = observer.is_cancelled();
                proof {
                    let s = match before.point {
                        PipelinePoint::After(s) => s,
                        _ => PipelineStage::Download,
                    };
                    let k = stage_index(s);
                    assert(before.point == PipelinePoint::After(s));
                    w = w.push(WatchEntry::Progress((progress.stage@, progress.per_mille, progress.message@))).push(
                        WatchEntry::Asked(asked),
                    );
                    assert(passed_blocks((k + 1) as nat) =~= passed_blocks(k as nat) + stage_block(k));
                    assert(w =~= passed_blocks((k + 1) as nat).push(WatchEntry::Asked(asked)));
                    assert(passed(calls[k]));
                }
                event = PipelineEvent::Ready { cancelled: asked };
                assert(observer.watched() =~= w0 + w);
            },
            PipelineAction::Fail { progress, error } => {
                if let Some(p) = progress {
                    observer.report_progress(&p);
                    proof {
                        w = w.push(WatchEntry::Progress((p.stage@, p.per_mille, p.message@)));
                    }
                }
                proof {
                    match before.point {
                        PipelinePoint::Before(s) => {
                            let k = stage_index(s);
                            assert(calls.len() == k);
                            assert(w == passed_blocks(k as nat).push(WatchEntry::Asked(true)));
                            assert(k < 4);
                            assert(k == 0 || passed(calls[k - 1]));
                            assert(run_ends(*request, calls, w, Err(error)));
                        },
                        PipelinePoint::After(s) => {
                            let k = stage_index(s);
                            let base = started(k as nat);
                            assert(calls.len() == k + 1);
                            assert(stage_at(k) == s);
                            assert(call_report(calls[k]) == ev->Finished_report);
                            if report_error(ev->Finished_report) is Some {
                                assert(w.len() == base.len() + 1);
                                assert(w.take(base.len() as int) =~= base);
                                assert(k >= 1 ==> before.source_url == downloaded(calls));
                            } else if ev->Finished_cancelled {
                                assert(w =~= base.push(WatchEntry::Asked(true)));
                            } else {
                                assert(w =~= base + seq![WatchEntry::Asked(false), WatchEntry::Progress(end_report(s))]);
                            }
                            assert(stage_ended(*request, calls, w, Err(error)));
                            assert(forall|i: int| 0 <= i < calls.len() - 1 ==> passed(#[trigger] calls[i]));
                            assert(run_ends(*request, calls, w, Err(error)));
                        },
                        PipelinePoint::Done => {},
                    }
                    assert(calls =~= (c0 + calls).skip(c0.len() as int));
                    assert(w =~= (w0 + w).skip(w0.len() as int));
                    assert((c0 + calls).take(c0.len() as int) =~= c0);
                    assert((w0 + w).take(w0.len() as int) =~= w0);
                }
                assert(observer.watched() =~= w0 + w);
                return Err(error);
            },
            PipelineAction::Succeed { progress } => {
                observer.report_progress(&progress);
                proof {
                    w = w.push(WatchEntry::Progress((progress.stage@, progress.per_mille, progress.message@)));
                    assert(before.point == PipelinePoint::After(PipelineStage::Clip));
                    assert(passed_blocks(4) =~= passed_blocks(3) + stage_block(3));
                    assert(w =~= passed_blocks(4));
                    assert(passed(calls[3]));
                    assert(calls.len() == 4);
                    assert(run.source_url == downloaded(calls));
                    assert(calls[3] matches StageCall::Crop { selected, .. } && selected == run.selected@);
                    assert(run_ends(*request, calls, w, Ok(run)));
                    assert(calls =~= (c0 + calls).skip(c0.len() as int));
                    assert(w =~= (w0 + w).skip(w0.len() as int));
                    assert((c0 + calls).take(c0.len() as int) =~= c0);
                    assert((w0 + w).take(w0.len() as int) =~= w0);
                }
                assert(observer.watched() =~= w0 + w);
                return Ok(run);
            },
        }
    }
}

/// Stages that hand back what they were stubbed with, and log each call.
/// The download and transcript stubs answer every call; the highlights and
/// clips, which are documents, are handed out to the first call.
pub struct MockPipelineStages {
    pub download: Option<Result<String, String>>,
    pub transcript: Option<Result<TranscriptReading, String>>,
    pub highlights: Option<Result<Vec<Json>, String>>,
    pub crop: Option<Result<ClipsReading, String>>,
    pub call_log: Vec<String>,
    pub history: Ghost<Seq<StageCall>>,
}

fn copy_text_result(r: &Result<String, String>) -> (c: Result<String, String>)
    ensures
        c == *r,
{
    match r {
        Ok(v) => Ok(v.clone()),
        Err(e) => Err(e.clone()),
    }
}

fn stub_or(stub: &Option<Result<String, String>>, missing: &str) -> (c: Result<String, String>)
    ensures
        match *stub {
            Some(v) => c == v,
            None => c matches Err(e) && e@ == missing@,
        },
{
    match stub {
        Some(v) => copy_text_result(v),
        None => Err(missing.to_string()),
    }
}

impl MockPipelineStages {
    /// Stages with nothing stubbed: every call fails.
    pub fn new() -> (r: Self)
        ensures
            r.download is None,
            r.transcript is None,
            r.highlights is None,
            r.crop is None,
            r.call_log@.len() == 0,
            r.calls().len() == 0,
    {
        MockPipelineStages {
            download: None,
            transcript: None,
            highlights: None,
            crop: None,
            call_log: Vec::new(),
            history: Ghost(Seq::empty()),
        }
    }

    pub fn with_download(self, value: Result<String, String>) -> (r: Self)
        ensures
            r.download == Some(value),
            r.transcript == self.transcript,
            r.highlights == self.highlights,
            r.crop == self.crop,
            r.call_log == self.call_log,
            r.calls() == self.calls(),
    {
        MockPipelineStages { download: Some(value), ..self }
    }

    pub fn with_transcript(self, value: Result<TranscriptReading, String>) -> (r: Self)
        ensures
            r.download == self.download,
            r.transcript == Some(value),
            r.highlights == self.highlights,
            r.crop == self.crop,
            r.call_log == self.call_log,
            r.calls() == self.calls(),
    {
        MockPipelineStages { transcript: Some(value), ..self }
    }

    pub fn with_highlights(self, value: Result<Vec<Json>, String>) -> (r: Self)
        ensures
            r.download == self.download,
            r.transcript == self.transcript,
            r.highlights == Some(value),
            r.crop == self.crop,
            r.call_log == self.call_log,
            r.calls() == self.calls(),
    {
        MockPipelineStages { highlights: Some(value), ..self }
    }

    pub fn with_crop(self, value: Result<ClipsReading, String>) -> (r: Self)
        ensures
            r.download == self.download,
            r.transcript == self.transcript,
            r.highlights == self.highlights,
            r.crop == Some(value),
            r.call_log == self.call_log,
            r.calls() == self.calls(),
    {
        MockPipelineStages { crop: Some(value), ..self }
    }

    /// The stages called so far, in order.
    pub fn call_log(&self) -> (r: Vec<String>)
        ensures
            r@.len() == self.call_log@.len(),
            forall|i: int| 0 <= i < r@.len() ==> #[trigger] r@[i]@ == self.call_log@[i]@,
    {
        let mut r: Vec<String> = Vec::new();
        let mut i: usize = 0;
        while i < self.call_log.len()
            invariant
                i <= self.call_log@.len(),
                r@.len() == i,
                forall|k: int| 0 <= k < i ==> #[trigger] r@[k]@ == self.call_log@[k]@,
            decreases self.call_log@.len() - i,
        {
            r.push(self.call_log[i].clone());
            i += 1;
        }
        r
    }
}

fn copy_transcript(r: &Result<TranscriptReading, String>) -> (c: Result<TranscriptReading, String>)
    ensures
        c == *r,
{
    match r {
        Ok(TranscriptReading::Segments(n)) => Ok(TranscriptReading::Segments(*n)),
        Ok(TranscriptReading::Invalid(m)) => Ok(TranscriptReading::Invalid(m.clone())),
        Err(e) => Err(e.clone()),
    }
}

fn copy_opt_text(o: &Option<String>) -> (c: Option<String>)
    ensures
        c == *o,
{
    match o {
        Some(v) => Some(v.clone()),
        None => None,
    }
}

/// A call logged as `name`: the log grows by that entry at its end, and the
/// download and transcript stubs stay as they were.
pub open spec fn logged_call(before: MockPipelineStages, after: MockPipelineStages, name: Seq<char>) -> bool {
    &&& after.call_log@.len() == before.call_log@.len() + 1
    &&& after.call_log@.take(before.call_log@.len() as int) == before.call_log@
    &&& after.call_log@.last()@ == name
    &&& after.download == before.download
    &&& after.transcript == before.transcript
}

fn log_call(log: &mut Vec<String>, name: &str)
    ensures
        final(log)@.len() == old(log)@.len() + 1,
        final(log)@.take(old(log)@.len() as int) == old(log)@,
        final(log)@.last()@ == name@,
{
    log.push(name.to_string());
    assert(log@.take(old(log)@.len() as int) =~= old(log)@);
}

impl PipelineStages for MockPipelineStages {
    closed spec fn calls(&self) -> Seq<StageCall> {
        self.history@
    }

    /// Logs `download`; gives the stubbed download, or an error when none
    /// was stubbed.
    fn download_youtube(&mut self, video_url: &str, fmt: &str) -> (r: Result<String, String>)
        ensures
            logged_call(*old(self), *final(self), "download"@),
            final(self).highlights == old(self).highlights,
            final(self).crop == old(self).crop,
            match old(self).download {
                Some(v) => r == v,
                None => r matches Err(e) && e@ == "download not stubbed"@,
            },
    {
        log_call(&mut self.call_log, "download");
        let r = stub_or(&self.download, "download not stubbed");
        self.history = Ghost(self.history@.push(StageCall::Download { video_url: video_url@, fmt: fmt@, result: r }));
        r
    }

    /// Logs `transcribe`; gives the stubbed transcript reading, or an error
    /// when none was stubbed.
    fn transcribe(&mut self, media_url: &str, language: Option<&str>) -> (r: Result<TranscriptReading, String>)
        ensures
            logged_call(*old(self), *final(self), "transcribe"@),
            final(self).highlights == old(self).highlights,
            final(self).crop == old(self).crop,
            match old(self).transcript {
                Some(v) => r == v,
                None => r matches Err(e) && e@ == "transcribe not stubbed"@,
            },
    {
        log_call(&mut self.call_log, "transcribe");
        let r = match &self.transcript {
            Some(r) => copy_transcript(r),
            None => Err("transcribe not stubbed".to_string()),
        };
        self.history = Ghost(
            self.history@.push(StageCall::Transcribe { media_url: media_url@, language: opt_text(language), result: r }),
        );
        r
    }

    /// Logs `highlights`; hands out the stubbed highlights, or an error when
    /// none are stubbed (any more).
    fn get_highlights(&mut self, num_clips: usize) -> (r: Result<Vec<Json>, String>)
        ensures
            logged_call(*old(self), *final(self), "highlights"@),
            final(self).highlights is None,
            final(self).crop == old(self).crop,
            match old(self).highlights {
                Some(v) => r == v,
                None => r matches Err(e) && e@ == "highlights not stubbed"@,
            },
    {
        log_call(&mut self.call_log, "highlights");
        let r = match self.highlights.take() {
            Some(r) => r,
            None => Err("highlights not stubbed".to_string()),
        };
        self.history = Ghost(self.history@.push(StageCall::Highlights { num_clips, result: r }));
        r
    }

    /// Logs `crop`; hands out the stubbed clips, or an error when none are
    /// stubbed (any more).
    fn crop_highlights(
        &mut self,
        source_video_url: &str,
        selected: &Vec<usize>,
        aspect_ratio: &str,
    ) -> (r: Result<ClipsReading, String>)
        ensures
            logged_call(*old(self), *final(self), "crop"@),
            final(self).crop is None,
            final(self).highlights == old(self).highlights,
            match old(self).crop {
                Some(v) => r == v,
                None => r matches Err(e) && e@ == "crop not stubbed"@,
            },
    {
        log_call(&mut self.call_log, "crop");
        let r = match self.crop.take() {
            Some(r) => r,
            None => Err("crop not stubbed".to_string()),
        };
        self.history = Ghost(
            self.history@.push(
                StageCall::Crop {
                    source_video_url: source_video_url@,
                    selected: selected@,
                    aspect_ratio: aspect_ratio@,
                    result: r,
                },
            ),
        );
        r
    }
}

// ---------------------------------------------------------------------------
// Highlight ranking
// ---------------------------------------------------------------------------

/// A score as the ranking reads it: an integer (a number written as one,
/// or a text that parses as one), and 0 for anything else.
pub open spec fn score_of(v: Json) -> i64 {
    match v {
        Json::Number(t) => match parse_signed(t@) {
            Some(n) => n as i64,
            None => 0,
        },
        Json::Text(t) => match parse_signed(t@) {
            Some(n) => n as i64,
            None => 0,
        },
        _ => 0,
    }
}

/// The score of a highlight: that of its `score` field, 0 without one.
pub open spec fn item_score(h: Json) -> i64 {
    match json_get(h, "score"@) {
        Some(v) => score_of(v),
        None => 0,
    }
}

/// Reads a score.
pub fn score_as_i64(v: &Json) -> (r: i64)
    ensures
        r == score_of(*v),
{
    match v {
        Json::Number(t) => match parse_i64_str(t.as_str()) {
            Some(n) => n,
            None => 0,
        },
        Json::Text(t) => match parse_i64_str(t.as_str()) {
            Some(n) => n,
            None => 0,
        },
        _ => 0,
    }
}

/// Reads the score of a highlight.
pub fn highlight_score(h: &Json) -> (r: i64)
    ensures
        r == item_score(*h),
{
    match get(h, "score") {
        Some(v) => score_as_i64(v),
        None => 0,
    }
}

/// In the ranking, highlight `a` comes before highlight `b`: a higher score,
/// or the same score and an earlier position (the sort is stable).
pub open spec fn ranks_before(scores: Seq<i64>, a: int, b: int) -> bool {
    scores[a] > scores[b] || (scores[a] == scores[b] && a < b)
}

/// `top` holds the first `n` highlights of the stable ranking by descending
/// score (all of them when there are fewer), best first.
pub open spec fn is_top_ranking(scores: Seq<i64>, n: int, top: Seq<usize>) -> bool {
    &&& top.len() == if n < scores.len() { n } else { scores.len() as int }
    &&& forall|i: int| 0 <= i < top.len() ==> #[trigger] top[i] < scores.len()
    &&& forall|i: int, j: int| 0 <= i < j < top.len() ==> ranks_before(scores, top[i] as int, top[j] as int)
    &&& forall|i: int, k: int|
        #![trigger top[i], scores[k]]
        0 <= i < top.len() && 0 <= k < scores.len() && !top.contains(k as usize) ==> ranks_before(
            scores,
            top[i] as int,
            k,
        )
}

/// The positions of the `n` best highlights, best first; among equal
/// scores the earlier highlight comes first.
pub fn top_highlights(scores: &Vec<i64>, n: usize) -> (top: Vec<usize>)
    ensures
        is_top_ranking(scores@, n as int, top@),
{
    let len = scores.len();
    let want: usize = if n < len {
        n
    } else {
        len
    };
    let mut taken: Vec<bool> = Vec::new();
    let mut i: usize = 0;
    while i < len
        invariant
            i <= len,
            len == scores@.len(),
            taken@.len() == i,
            forall|k: int| 0 <= k < i ==> !(#[trigger] taken@[k]),
        decreases len - i,
    {
        taken.push(false);
        i += 1;
    }
    let mut top: Vec<usize> = Vec::new();
    while top.len() < want
        invariant
            len == scores@.len(),
            want <= len,
            want as int == if n < scores@.len() { n as int } else { scores@.len() as int },
            taken@.len() == len,
            top@.len() <= want,
            forall|i: int| 0 <= i < top@.len() ==> #[trigger] top@[i] < len,
            forall|k: int| 0 <= k < len ==> (#[trigger] taken@[k] <==> top@.contains(k as usize)),
            forall|i: int, j: int|
                0 <= i < j < top@.len() ==> ranks_before(scores@, top@[i] as int, top@[j] as int),
            forall|i: int, k: int|
                #![trigger top@[i], taken@[k]]
                0 <= i < top@.len() && 0 <= k < len && !taken@[k] ==> ranks_before(
                    scores@,
                    top@[i] as int,
                    k,
                ),
        decreases want - top@.len(),
    {
        // Some position is still free: fewer are taken than there are.
        proof {
            lemma_free_position_exists(taken@, top@);
        }
        let mut best: usize = len;
        let mut k: usize = 0;
        while k < len
            invariant
                len == scores@.len(),
                taken@.len() == len,
                k <= len,
                best == len || (best < k && !taken@[best as int]),
                best == len ==> forall|m: int| 0 <= m < k ==> #[trigger] taken@[m],
                best < len ==> forall|m: int|
                    0 <= m < k && !(#[trigger] taken@[m]) && m != best ==> ranks_before(
                        scores@,
                        best as int,
                        m,
                    ),
            decreases len - k,
        {
            if !taken[k] {
                if best == len || scores[k] > scores[best] {
                    best = k;
                }
            }
            k += 1;
        }
        assert(best < len) by {
            if best == len {
                assert(forall|m: int| 0 <= m < len ==> taken@[m]);
                lemma_all_taken_means_full(taken@, top@);
            }
        }
        let ghost old_top = top@;
        let ghost old_taken = taken@;
        top.push(best);
        taken.set(best, true);
        proof {
            assert forall|m: int| 0 <= m < len implies (#[trigger] taken@[m] <==> top@.contains(
                m as usize,
            )) by {
                if m == best as int {
                    assert(top@[top@.len() - 1] == best);
                } else {
                    assert(taken@[m] == old_taken[m]);
                    if old_top.contains(m as usize) {
                        let w = choose|w: int| 0 <= w < old_top.len() && old_top[w] == m as usize;
                        assert(top@[w] == m as usize);
                    }
                    if top@.contains(m as usize) {
                        let w = choose|w: int| 0 <= w < top@.len() && top@[w] == m as usize;
                        assert(w < old_top.len());
                        assert(old_top[w] == m as usize);
                    }
                }
            }
            assert forall|i: int, j: int| 0 <= i < j < top@.len() implies ranks_before(
                scores@,
                top@[i] as int,
                top@[j] as int,
            ) by {
                if j == top@.len() - 1 {
                    assert(!old_taken[best as int]);
                    assert(top@[i] == old_top[i]);
                } else {
                    assert(top@[i] == old_top[i] && top@[j] == old_top[j]);
                }
            }
            assert forall|i: int, k: int|
                #![trigger top@[i], taken@[k]]
                0 <= i < top@.len() && 0 <= k < len && !taken@[k] implies ranks_before(
                scores@,
                top@[i] as int,
                k,
            ) by {
                assert(k != best as int);
                assert(!old_taken[k]);
                if i == top@.len() - 1 {
                    assert(!old_taken[k]);
                } else {
                    assert(top@[i] == old_top[i]);
                }
            }
        }
    }
    proof {
        assert forall|i: int, k: int|
            #![trigger top@[i], scores@[k]]
            0 <= i < top@.len() && 0 <= k < scores@.len() && !top@.contains(
                k as usize,
            ) implies ranks_before(scores@, top@[i] as int, k) by {
            assert(!taken@[k]);
        }
    }
    top
}

/// While fewer positions are listed than there are, some position is free.
pub proof fn lemma_free_position_exists(taken: Seq<bool>, top: Seq<usize>)
    requires
        taken.len() <= usize::MAX,
        top.len() < taken.len(),
        forall|k: int| 0 <= k < taken.len() ==> (#[trigger] taken[k] <==> top.contains(k as usize)),
    ensures
        exists|k: int| 0 <= k < taken.len() && !taken[k],
{
    if forall|k: int| 0 <= k < taken.len() ==> taken[k] {
        lemma_all_taken_means_full(taken, top);
    }
}

/// Every position taken means at least as many listed entries as positions.
pub proof fn lemma_all_taken_means_full(taken: Seq<bool>, top: Seq<usize>)
    requires
        taken.len() <= usize::MAX,
        forall|k: int| 0 <= k < taken.len() ==> #[trigger] taken[k],
        forall|k: int| 0 <= k < taken.len() ==> (#[trigger] taken[k] <==> top.contains(k as usize)),
    ensures
        top.len() >= taken.len(),
{
    broadcast use vstd::seq_lib::seq_to_set_is_finite;

    let as_int = top.map_values(|x: usize| x as int);
    let listed = as_int.to_set();
    let positions = vstd::set_lib::set_int_range(0, taken.len() as int);
    assert forall|k: int| positions.contains(k) implies listed.contains(k) by {
        assert(taken[k]);
        assert(top.contains(k as usize));
        let w = choose|w: int| 0 <= w < top.len() && top[w] == k as usize;
        assert((k as usize) as int == k);
        assert(as_int[w] == top[w] as int);
    }
    vstd::set_lib::lemma_int_range(0, taken.len() as int);
    as_int.lemma_cardinality_of_set();
    vstd::set_lib::lemma_len_subset(positions, listed);
}

} // verus!
