use shorts_tauri_app::highlights::{
    content_info_or_default, content_type_prompt, dedupe_highlights, highlight_prompt, min_clips,
    parse_json_loose, try_parse_json_loose, CONTENT_TYPE_PROMPT, HIGHLIGHT_SYSTEM_PROMPT, VIRALITY_CRITERIA,
};

#[test]
fn constants_and_prompt_templates_match_python_contract() {
    assert!(CONTENT_TYPE_PROMPT.contains("Respond with JSON only"));
    assert!(VIRALITY_CRITERIA.contains("HOOK MOMENTS"));
    assert!(HIGHLIGHT_SYSTEM_PROMPT.contains("You are an elite short-form video editor"));
}

#[test]
fn parse_json_loose_matches_python_vectors() {
    let fenced = parse_json_loose("```json\n{\"a\": 1}\n```").expect("fenced");
    assert_eq!(fenced, serde_json::from_str::<serde_json::Value>("{\"a\":1}").unwrap());

    let bare_fence = parse_json_loose("```\n[1, 2]\n```").expect("bare fence");
    assert_eq!(bare_fence, serde_json::from_str::<serde_json::Value>("[1,2]").unwrap());

    let wrapped = parse_json_loose("Sure! Here it is: {\"b\": {\"c\": true}} Hope it helps.")
        .expect("wrapped");
    assert_eq!(wrapped, serde_json::from_str::<serde_json::Value>("{\"b\":{\"c\":true}}").unwrap());

    assert!(parse_json_loose("no json at all").is_err());
    assert!(parse_json_loose("{ not json }").is_err());
}

#[test]
fn dedupe_matches_python_vectors() {
    // highlight 2 overlaps highlight 1 (the best), so it is dropped
    let scores = vec![50, 90, 70];
    let overlaps = vec![
        vec![false, false, false],
        vec![false, false, false],
        vec![false, true, false],
    ];
    assert_eq!(dedupe_highlights(&scores, &overlaps), vec![1, 0]);

    let none = vec![vec![false; 3]; 3];
    assert_eq!(dedupe_highlights(&scores, &none), vec![1, 2, 0]);

    assert_eq!(dedupe_highlights(&vec![], &vec![]), Vec::<usize>::new());
}

#[test]
fn min_clips_follows_target_duration_and_cap() {
    assert_eq!(min_clips(3, false, 20), 6);
    assert_eq!(min_clips(1, false, 20), 5);
    assert_eq!(min_clips(10, false, 20), 8);
    assert_eq!(min_clips(3, false, 1), 3);
    assert_eq!(min_clips(3, true, 0), 2);
    assert_eq!(min_clips(3, true, 4), 4);
}

#[test]
fn highlight_prompt_fills_placeholders() {
    let p = highlight_prompt(
        "A {virality_criteria} B {content_type} C {density} D {num_clips_instruction}",
        "crit",
        None,
        Some("high"),
        6,
        "hello",
    );
    assert_eq!(p, "A crit B other C high D Generate at least 6 highlights\n\nTranscript:\nhello");

    let full = highlight_prompt(HIGHLIGHT_SYSTEM_PROMPT, VIRALITY_CRITERIA, Some("podcast"), None, 3, "t");
    assert!(full.contains("Generate at least 3 highlights"));
    assert!(full.contains("Content type: podcast | Density: medium"));
    assert!(full.ends_with("\n\nTranscript:\nt"));
}

#[test]
fn content_type_prompt_samples_segment_texts() {
    let texts = vec![Some("one".to_string()), None, Some("two".to_string())];
    let p = content_type_prompt("T", &texts);
    assert!(p.starts_with("T\n\nTranscript sample:\n"));
    assert!(p.contains("one"));
    assert!(p.contains("two"));
}

#[test]
fn content_info_defaults() {
    assert_eq!(
        content_info_or_default(None),
        ("other".to_string(), "medium".to_string())
    );
    assert_eq!(
        content_info_or_default(Some((Some("podcast".to_string()), None))),
        ("podcast".to_string(), "medium".to_string())
    );
}

#[test]
fn misordered_braces_are_refused_before_slicing() {
    assert!(try_parse_json_loose("oops } then { again").is_none());
    assert!(matches!(try_parse_json_loose("x {\"a\": 2} y"), Some(Ok(_))));
    assert!(matches!(try_parse_json_loose("nothing here"), Some(Err(_))));
}

#[test]
fn a_dropped_highlight_overlaps_a_better_kept_one() {
    let scores = vec![5, 9, 1];
    let overlaps = vec![vec![false, true, false], vec![false, false, false], vec![false, false, false]];
    let kept = dedupe_highlights(&scores, &overlaps);
    assert_eq!(kept, vec![1, 2]);
    assert!(!kept.contains(&0));
    assert!(overlaps[0][1]);
}

#[test]
fn deduping_what_was_kept_keeps_all_of_it_in_order() {
    // 0 overlaps 1; 3 overlaps 2; 4 stands alone.
    let scores = vec![50, 90, 70, 60, 10];
    let mut overlaps = vec![vec![false; 5]; 5];
    overlaps[0][1] = true;
    overlaps[1][0] = true;
    overlaps[3][2] = true;
    overlaps[2][3] = true;
    let kept = dedupe_highlights(&scores, &overlaps);
    assert_eq!(kept, vec![1, 2, 4]);
    // Dedupe again, over the kept highlights alone.
    let sub_scores: Vec<i64> = kept.iter().map(|&k| scores[k]).collect();
    let sub_overlaps: Vec<Vec<bool>> =
        kept.iter().map(|&a| kept.iter().map(|&b| overlaps[a][b]).collect()).collect();
    let again = dedupe_highlights(&sub_scores, &sub_overlaps);
    assert_eq!(again, vec![0, 1, 2]);
}
