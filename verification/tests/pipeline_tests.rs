use shorts_tauri_app::errors::redact_message;
use shorts_tauri_app::pipeline::{
    generate_shorts_with, generate_shorts_with_progress, highlight_score, map_api_error, score_as_i64, top_highlights,
    ClipsReading, GenerateShortsRequest, MockPipelineStages, PipelineObserver, PipelinePoint, PipelineStages,
    StageProgress, TranscriptReading,
};
use shorts_tauri_app::provider_json::Json;
use shorts_tauri_app::errors::{ErrorCode, ErrorStage};

/// A highlight with the given score.
fn scored(n: i64) -> Json {
    Json::Object(vec![("score".to_string(), Json::Number(n.to_string()))])
}

fn base_request(mode: &str) -> GenerateShortsRequest {
    GenerateShortsRequest {
        youtube_url: "https://youtube.com/watch?v=abc".to_string(),
        num_clips: 1,
        aspect_ratio: "9:16".to_string(),
        download_format: "720".to_string(),
        language: None,
        mode: mode.to_string(),
    }
}

struct Recorder {
    cancel: bool,
    seen: Vec<(String, u32)>,
}

impl PipelineObserver for Recorder {
    fn report_progress(&mut self, progress: &StageProgress) {
        self.seen.push((progress.stage.clone(), progress.per_mille));
    }

    fn is_cancelled(&mut self) -> bool {
        self.cancel
    }
}

fn full_stages(scores: Vec<Json>, crop: ClipsReading) -> MockPipelineStages {
    MockPipelineStages::new()
        .with_download(Ok("https://cdn.example.com/video.mp4".to_string()))
        .with_transcript(Ok(TranscriptReading::Segments(2)))
        .with_highlights(Ok(scores))
        .with_crop(Ok(crop))
}

fn clean_crop() -> ClipsReading {
    ClipsReading { highlights_error: None, shorts_error: None, shorts: Vec::new() }
}

#[test]
fn cancel_cb_short_circuits_pipeline() {
    let mut stages = full_stages(vec![scored(90)], clean_crop());
    let req = base_request("api");
    let mut observer = Recorder { cancel: true, seen: Vec::new() };
    let out = generate_shorts_with_progress(&req, &mut stages, &mut observer);
    let err = out.err().expect("cancelled run must fail");
    assert!(err.error.to_lowercase().contains("cancel"));
    assert!(stages.call_log().is_empty());
}

#[test]
fn mode_invalid_returns_parity_error() {
    let req = base_request("weird");
    let mut stages = MockPipelineStages::new();
    let err = generate_shorts_with(&req, &mut stages).expect_err("invalid mode must fail");
    assert_eq!(err.error, "Unknown mode: 'weird'. Use 'api'.");
    assert_eq!(err.mode, None);
    assert_eq!(err.source_video_url, None);
}

#[test]
fn mode_api_success_matches_golden_and_stage_order() {
    let req = base_request("api");
    let mut stages = full_stages(
        vec![scored(92), scored(81)],
        clean_crop(),
    );
    let mut observer = Recorder { cancel: false, seen: Vec::new() };
    let out = generate_shorts_with_progress(&req, &mut stages, &mut observer).expect("api success");
    assert_eq!(out.point, PipelinePoint::Done);
    assert_eq!(out.mode, "api");
    assert_eq!(out.source_url.as_deref(), Some("https://cdn.example.com/video.mp4"));
    assert_eq!(out.selected, vec![0]);
    assert_eq!(stages.call_log(), vec!["download", "transcribe", "highlights", "crop"]);
    let per_mille: Vec<u32> = observer.seen.iter().map(|(_, p)| *p).collect();
    assert!(per_mille.windows(2).all(|w| w[0] < w[1]));
    assert_eq!(*per_mille.last().unwrap(), 1000);
}

#[test]
fn mode_api_no_segments_maps_hard_failure_envelope() {
    let req = base_request("api");
    let mut stages = MockPipelineStages::new()
        .with_download(Ok("https://cdn.example.com/video.mp4".to_string()))
        .with_transcript(Ok(TranscriptReading::Segments(0)));
    let err = generate_shorts_with(&req, &mut stages).expect_err("no segments must hard fail");
    assert_eq!(err.mode.as_deref(), Some("api"));
    assert_eq!(err.source_video_url.as_deref(), Some("https://cdn.example.com/video.mp4"));
    assert_eq!(
        err.error,
        "Whisper produced no segments. The video may have no detectable speech."
    );
    let details = err.details.expect("details");
    assert_eq!(details.stage, "transcribe");
    assert_eq!(details.code, "E_NO_TRANSCRIPT_SEGMENTS");
    assert_eq!(details.retryable, Some(false));
    assert_eq!(stages.call_log(), vec!["download", "transcribe"]);
}

#[test]
fn mode_api_clip_failure_matches_partial_success_golden() {
    let req = base_request("api");
    let mut stages = full_stages(vec![scored(92)], clean_crop());
    let out = generate_shorts_with(&req, &mut stages)
        .expect("clip failure still returns success envelope");
    assert_eq!(out.point, PipelinePoint::Done);
    assert_eq!(out.selected, vec![0]);
}

#[test]
fn download_failure_is_mapped_to_download_stage() {
    let req = base_request("api");
    let mut stages = MockPipelineStages::new().with_download(Err("network down".to_string()));
    let err = generate_shorts_with(&req, &mut stages).expect_err("download failure");
    assert_eq!(err.error, "network down");
    assert_eq!(err.source_video_url, None);
    let details = err.details.expect("details");
    assert_eq!(details.stage, "download");
    assert_eq!(details.code, "E_DOWNLOAD_FAILED");
}

#[test]
fn empty_highlights_fail_with_no_highlights_code() {
    let req = base_request("api");
    let mut stages = full_stages(vec![], clean_crop());
    let err = generate_shorts_with(&req, &mut stages).expect_err("no highlights");
    assert_eq!(err.error, "Highlight generator returned zero clips.");
    assert_eq!(err.details.expect("details").code, "E_NO_HIGHLIGHTS");
}

#[test]
fn malformed_shorts_fail_at_clip_stage() {
    let req = base_request("api");
    let crop = ClipsReading { highlights_error: None, shorts_error: Some("missing title".to_string()), shorts: Vec::new() };
    let mut stages = full_stages(vec![scored(1)], crop);
    let err = generate_shorts_with(&req, &mut stages).expect_err("bad shorts");
    assert_eq!(err.error, "invalid shorts payload: missing title");
    assert_eq!(err.details.expect("details").stage, "clip");
}

#[test]
fn mode_is_case_insensitive_and_defaults_to_api() {
    let mut stages = full_stages(vec![scored(5)], clean_crop());
    assert!(generate_shorts_with(&base_request(" API "), &mut stages).is_err());
    let mut stages = full_stages(vec![scored(5)], clean_crop());
    assert!(generate_shorts_with(&base_request("API"), &mut stages).is_ok());
    let mut stages = full_stages(vec![scored(5)], clean_crop());
    assert!(generate_shorts_with(&base_request("   "), &mut stages).is_ok());
}

#[test]
fn top_highlights_picks_best_scores_in_rank_order() {
    assert_eq!(top_highlights(&vec![10, 90, 50, 90], 2), vec![1, 3]);
    assert_eq!(top_highlights(&vec![10, 90, 50], 5), vec![1, 2, 0]);
    assert_eq!(top_highlights(&vec![7], 0), Vec::<usize>::new());
}

#[test]
fn scores_read_from_text_and_other_values() {
    assert_eq!(score_as_i64(&Json::Number("-3".to_string())), -3);
    assert_eq!(score_as_i64(&Json::Text("42".to_string())), 42);
    assert_eq!(score_as_i64(&Json::Text("-7".to_string())), -7);
    assert_eq!(score_as_i64(&Json::Text("high".to_string())), 0);
    assert_eq!(score_as_i64(&Json::Number("90.5".to_string())), 0);
    assert_eq!(score_as_i64(&Json::Null), 0);
    assert_eq!(highlight_score(&scored(12)), 12);
    assert_eq!(highlight_score(&Json::Object(Vec::new())), 0);
}

#[test]
fn api_errors_mask_payload_blobs() {
    let e = map_api_error(ErrorStage::Clip, ErrorCode::ClipFailed, "plain failure", None);
    assert_eq!(e.error, "plain failure");
    assert_eq!(e.error, redact_message("plain failure"));
    let d = e.details.expect("details");
    assert_eq!(d.stage, "clip");
    assert_eq!(d.code, "E_CLIP_FAILED");
}

#[test]
fn mock_stages_give_back_their_stubs_and_log_each_call() {
    let mut stages = MockPipelineStages::new().with_download(Ok("https://cdn/v.mp4".to_string()));
    assert_eq!(stages.download_youtube("u", "720").unwrap(), "https://cdn/v.mp4");
    assert_eq!(stages.transcribe("m", None).unwrap_err(), "transcribe not stubbed");
    assert_eq!(stages.get_highlights(3).unwrap_err(), "highlights not stubbed");
    assert_eq!(stages.crop_highlights("s", &vec![0], "9:16").unwrap_err(), "crop not stubbed");
    assert_eq!(stages.call_log(), vec!["download", "transcribe", "highlights", "crop"]);
}

/// Stages that answer like a finished provider and write down what each
/// call was handed.
struct ArgLog {
    scores: Vec<i64>,
    seen: Vec<String>,
    crop_args: Option<(String, Vec<usize>, String)>,
}

impl PipelineStages for ArgLog {
    fn download_youtube(&mut self, video_url: &str, fmt: &str) -> Result<String, String> {
        self.seen.push(format!("download {video_url} {fmt}"));
        Ok("s".to_string())
    }

    fn transcribe(&mut self, media_url: &str, language: Option<&str>) -> Result<TranscriptReading, String> {
        self.seen.push(format!("transcribe {media_url} {}", language.unwrap_or("-")));
        Ok(TranscriptReading::Segments(1))
    }

    fn get_highlights(&mut self, num_clips: usize) -> Result<Vec<Json>, String> {
        self.seen.push(format!("highlights {num_clips}"));
        Ok(self.scores.iter().map(|&n| scored(n)).collect())
    }

    fn crop_highlights(
        &mut self,
        source_video_url: &str,
        selected: &Vec<usize>,
        aspect_ratio: &str,
    ) -> Result<ClipsReading, String> {
        self.seen.push("crop".to_string());
        self.crop_args = Some((source_video_url.to_string(), selected.clone(), aspect_ratio.to_string()));
        Ok(ClipsReading { highlights_error: None, shorts_error: None, shorts: Vec::new() })
    }
}

#[test]
fn crop_gets_the_source_the_best_highlights_and_the_aspect_ratio() {
    let mut req = base_request("api");
    req.youtube_url = "u".to_string();
    req.language = Some("de".to_string());
    let mut stages = ArgLog {
        scores: vec![10, 90],
        seen: Vec::new(),
        crop_args: None,
    };
    let out = generate_shorts_with(&req, &mut stages).expect("api success");
    assert_eq!(
        stages.seen,
        vec!["download u 720", "transcribe s de", "highlights 1", "crop"]
    );
    assert_eq!(stages.crop_args, Some(("s".to_string(), vec![1], "9:16".to_string())));
    assert_eq!(out.selected, vec![1]);
    assert_eq!(out.source_url.as_deref(), Some("s"));
}

#[test]
fn unknown_mode_calls_no_stage_and_asks_nothing() {
    let req = base_request("weird");
    let mut stages = ArgLog { scores: vec![1], seen: Vec::new(), crop_args: None };
    let mut observer = Recorder { cancel: false, seen: Vec::new() };
    let err = generate_shorts_with_progress(&req, &mut stages, &mut observer).expect_err("unknown mode");
    assert_eq!(err.error, "Unknown mode: 'weird'. Use 'api'.");
    assert!(stages.seen.is_empty());
    assert!(observer.seen.is_empty());
}

#[test]
fn observer_hears_the_eight_stage_marks_in_order() {
    let req = base_request("api");
    let mut stages = ArgLog { scores: vec![5], seen: Vec::new(), crop_args: None };
    let mut observer = Recorder { cancel: false, seen: Vec::new() };
    generate_shorts_with_progress(&req, &mut stages, &mut observer).expect("api success");
    let marks: Vec<(&str, u32)> = observer.seen.iter().map(|(s, p)| (s.as_str(), *p)).collect();
    assert_eq!(
        marks,
        vec![
            ("download:start", 100),
            ("download:end", 250),
            ("transcribe:start", 300),
            ("transcribe:end", 550),
            ("highlights:start", 600),
            ("highlights:end", 750),
            ("clip:start", 800),
            ("clip:end", 1000),
        ]
    );
}

#[test]
fn cancelled_before_the_first_stage_reports_the_cancel_envelope() {
    let req = base_request("api");
    let mut stages = ArgLog { scores: vec![5], seen: Vec::new(), crop_args: None };
    let mut observer = Recorder { cancel: true, seen: Vec::new() };
    let err = generate_shorts_with_progress(&req, &mut stages, &mut observer).expect_err("cancelled");
    assert_eq!(err.error, "Generation cancelled.");
    assert_eq!(err.mode.as_deref(), Some("api"));
    assert_eq!(err.source_video_url.as_deref(), Some("https://youtube.com/watch?v=abc"));
    let details = err.details.expect("details");
    assert_eq!(details.stage, "cancel");
    assert_eq!(details.code, "E_GENERATION_CANCELLED");
    assert!(stages.seen.is_empty());
    assert!(observer.seen.is_empty());
}

#[test]
fn transcription_failure_skips_highlights_and_crop() {
    let req = base_request("api");
    let mut stages = MockPipelineStages::new()
        .with_download(Ok("https://cdn.example.com/video.mp4".to_string()))
        .with_transcript(Err("whisper down".to_string()));
    let err = generate_shorts_with(&req, &mut stages).expect_err("transcribe failure");
    assert_eq!(err.error, "whisper down");
    assert_eq!(err.source_video_url.as_deref(), Some("https://cdn.example.com/video.mp4"));
    let details = err.details.expect("details");
    assert_eq!(details.stage, "transcribe");
    assert_eq!(details.code, "E_TRANSCRIBE_FAILED");
    assert_eq!(details.retryable, Some(false));
    assert_eq!(stages.call_log(), vec!["download", "transcribe"]);
}

fn titled(title: &str, score: i64) -> Json {
    Json::Object(vec![
        ("title".to_string(), Json::Text(title.to_string())),
        ("score".to_string(), Json::Number(score.to_string())),
    ])
}

#[test]
fn a_finished_run_carries_all_highlights_in_order_and_the_clips() {
    let mut req = base_request("api");
    req.youtube_url = "u".to_string();
    let short = Json::Object(vec![("url".to_string(), Json::Text("https://cdn/clip1.mp4".to_string()))]);
    let mut stages = MockPipelineStages::new()
        .with_download(Ok("s".to_string()))
        .with_transcript(Ok(TranscriptReading::Segments(1)))
        .with_highlights(Ok(vec![titled("L", 10), titled("H", 90)]))
        .with_crop(Ok(ClipsReading { highlights_error: None, shorts_error: None, shorts: vec![short] }));
    let out = generate_shorts_with(&req, &mut stages).expect("api success");
    assert_eq!(format!("{:?}", out.highlights), format!("{:?}", vec![titled("L", 10), titled("H", 90)]));
    assert_eq!(out.selected, vec![1]);
    assert_eq!(out.shorts.len(), 1);
    assert_eq!(
        format!("{:?}", out.shorts[0]),
        format!("{:?}", Json::Object(vec![("url".to_string(), Json::Text("https://cdn/clip1.mp4".to_string()))]))
    );
    assert_eq!(out.source_url.as_deref(), Some("s"));
    assert_eq!(out.mode, "api");
}

#[test]
fn mock_hands_out_its_documents_once() {
    let mut stages = MockPipelineStages::new()
        .with_highlights(Ok(vec![scored(3)]))
        .with_crop(Ok(ClipsReading { highlights_error: None, shorts_error: None, shorts: Vec::new() }));
    assert_eq!(stages.get_highlights(1).expect("stubbed").len(), 1);
    assert_eq!(stages.get_highlights(1).unwrap_err(), "highlights not stubbed");
    assert!(stages.crop_highlights("s", &vec![0], "9:16").is_ok());
    assert_eq!(stages.crop_highlights("s", &vec![0], "9:16").unwrap_err(), "crop not stubbed");
}
