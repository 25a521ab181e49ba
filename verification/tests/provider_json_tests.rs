use shorts_tauri_app::provider_json::{
    coerce_verbose, crop_highlights_with_results, extract_model_text, extract_verbose_payload,
    extract_video_url, get, take_field, take_first, Json, JsonDecoder,
};

fn to_json(v: &serde_json::Value) -> Json {
    match v {
        serde_json::Value::Null => Json::Null,
        serde_json::Value::Bool(b) => Json::Bool(*b),
        serde_json::Value::Number(n) => Json::Number(n.to_string()),
        serde_json::Value::String(s) => Json::Text(s.clone()),
        serde_json::Value::Array(a) => Json::Array(a.iter().map(to_json).collect()),
        serde_json::Value::Object(m) => {
            Json::Object(m.iter().map(|(k, v)| (k.clone(), to_json(v))).collect())
        }
    }
}

fn parse(text: &str) -> Json {
    let v: serde_json::Value = serde_json::from_str(text).expect("test json");
    to_json(&v)
}

struct SerdeDecoder;

impl JsonDecoder for SerdeDecoder {
    fn decode(&self, text: &str) -> Option<Json> {
        serde_json::from_str::<serde_json::Value>(text).ok().map(|v| to_json(&v))
    }
}

fn text_of(v: Option<&Json>) -> Option<&str> {
    match v {
        Some(Json::Text(s)) => Some(s.as_str()),
        _ => None,
    }
}

#[test]
fn extract_video_url_fallback_order_and_shapes() {
    let top_text = r#"{"video_url": "https://cdn/top.mp4"}"#;
    assert_eq!(
        extract_video_url(&parse(top_text), top_text).expect("top-level video_url"),
        "https://cdn/top.mp4"
    );

    let nested_text = r#"{"outputs": {"output_url": "https://cdn/nested.mp4"}}"#;
    assert_eq!(
        extract_video_url(&parse(nested_text), nested_text).expect("nested output_url"),
        "https://cdn/nested.mp4"
    );

    let list_text = r#"{"output": ["https://cdn/list.mp4"]}"#;
    assert_eq!(
        extract_video_url(&parse(list_text), list_text).expect("list fallback"),
        "https://cdn/list.mp4"
    );
}

#[test]
fn extract_video_url_malformed_payload_errors() {
    let bad_text = r#"{"result": {"url": "not-http"}}"#;
    let err = extract_video_url(&parse(bad_text), bad_text).expect_err("must fail malformed payload");
    assert!(err.contains("Could not find downloaded video URL in MuAPI response"));
}

#[test]
fn top_level_link_wins_over_nested_output() {
    let text = r#"{"outputs": {"video_url": "https://cdn/nested.mp4"}, "url": "https://cdn/top.mp4"}"#;
    assert_eq!(extract_video_url(&parse(text), text).unwrap(), "https://cdn/top.mp4");
}

#[test]
fn extract_verbose_payload_fallback_shapes() {
    let text = r#"{"output": {"duration": 7, "segments": []}}"#;
    let out = extract_verbose_payload(parse(text), text, &SerdeDecoder).expect("output dict");
    assert!(matches!(get(&out, "duration"), Some(Json::Number(n)) if n == "7"));

    let text = r#"{"result": "{\"duration\":3.2,\"segments\":[{\"start\":0,\"end\":1,\"text\":\" hi \"}]}"}"#;
    let out = extract_verbose_payload(parse(text), text, &SerdeDecoder).expect("result json string");
    assert!(matches!(get(&out, "segments"), Some(Json::Array(_))));

    let text = r#"{"outputs": ["{\"duration\":2,\"segments\":[{\"start\":\"1.5\",\"end\":2,\"text\":\"x\"}]}"]}"#;
    let out = extract_verbose_payload(parse(text), text, &SerdeDecoder).expect("outputs list json");
    assert!(matches!(get(&out, "segments"), Some(Json::Array(_))));
}

#[test]
fn extract_verbose_payload_malformed_payload_errors() {
    let text = r#"{"output": "not-json"}"#;
    let err = extract_verbose_payload(parse(text), text, &SerdeDecoder)
        .expect_err("must fail when no segments found");
    assert!(err.contains("Could not find Whisper segments in MuAPI response"));
}

#[test]
fn verbose_payload_falls_back_to_the_reply_itself() {
    let text = r#"{"segments": [], "output": 5}"#;
    let out = extract_verbose_payload(parse(text), text, &SerdeDecoder).expect("reply itself");
    assert!(matches!(get(&out, "output"), Some(Json::Number(n)) if n == "5"));
}

#[test]
fn crop_highlights_partial_failure_capture() {
    let highlights = vec![
        parse(r#"{"title": "ok", "start_time": 0.0, "end_time": 10.0}"#),
        parse(r#"{"title": "bad", "start_time": 10.0, "end_time": 20.0}"#),
    ];
    let results = vec![Ok("https://cdn/clip.mp4".to_string()), Err("boom".to_string())];
    let out = crop_highlights_with_results(highlights, &results);

    assert_eq!(out.len(), 2);
    assert_eq!(text_of(get(&out[0], "clip_url")), Some("https://cdn/clip.mp4"));
    assert!(get(&out[0], "error").is_none());
    assert_eq!(text_of(get(&out[0], "title")), Some("ok"));

    assert!(matches!(get(&out[1], "clip_url"), Some(Json::Null)));
    assert_eq!(text_of(get(&out[1], "error")), Some("boom"));
    assert_eq!(text_of(get(&out[1], "title")), Some("bad"));
}

#[test]
fn coerce_verbose_reads_objects_texts_and_others() {
    let obj = coerce_verbose(parse(r#"{"segments": []}"#), &SerdeDecoder);
    assert!(get(&obj, "segments").is_some());
    let decoded = coerce_verbose(Json::Text("{\"a\":1}".to_string()), &SerdeDecoder);
    assert!(get(&decoded, "a").is_some());
    let bad = coerce_verbose(Json::Text("nope".to_string()), &SerdeDecoder);
    assert!(matches!(bad, Json::Object(ref f) if f.is_empty()));
    let other = coerce_verbose(Json::Bool(true), &SerdeDecoder);
    assert!(matches!(other, Json::Object(ref f) if f.is_empty()));
}

#[test]
fn take_field_and_take_first() {
    let v = parse(r#"{"a": "x", "b": [1, 2]}"#);
    let b = take_field(v, "b").expect("b present");
    assert!(matches!(take_first(b), Some(Json::Number(n)) if n == "1"));
    assert!(take_field(parse(r#"{"a": 1}"#), "z").is_none());
    assert!(take_first(Json::Array(vec![])).is_none());
}

#[test]
fn model_text_is_found_in_the_usual_places() {
    let text = r#"{"outputs": ["  hello  "]}"#;
    assert_eq!(extract_model_text(&parse(text), text).unwrap(), "  hello  ");
    let text = r#"{"output": {"text": "from text"}}"#;
    assert_eq!(extract_model_text(&parse(text), text).unwrap(), "from text");
    let text = r#"{"response": "plain"}"#;
    assert_eq!(extract_model_text(&parse(text), text).unwrap(), "plain");
    let text = r#"{"outputs": ["   "]}"#;
    let err = extract_model_text(&parse(text), text).unwrap_err();
    assert!(err.starts_with("Could not extract gpt-5-mini text from response: "));
}
