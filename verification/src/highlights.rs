//! Picking highlights: reading the language model's loosely formatted JSON,
//! writing its prompts, and keeping the best highlights that do not overlap.
//!
//! Times are floating point and stay with the caller, which also decides
//! which highlights overlap.

use vstd::prelude::*;
use crate::json::{json_accepts, parse_json_value};
use crate::pipeline::{is_top_ranking, ranks_before, top_highlights};
use crate::text::{
    chars_of, concat2, has_prefix, has_suffix, replace_all, replace_str, slice_chars, string_of,
    trim, trim_chars, trim_end, trim_end_chars, trim_start, trim_start_chars, find_char, rfind_char,
    starts_with_chars, ends_with_chars, u64_to_string, dec,
};

verus! {

/// The instructions for classifying the content of a transcript.
pub const CONTENT_TYPE_PROMPT: &'static str = "Analyze this video transcript sample and classify the content type.\nChoose one: podcast, interview, tutorial, lecture, commentary, debate, vlog, other.\nAlso estimate content density: low (mostly filler/chit-chat), medium, or high (dense info/stories).\nRespond with JSON only: {\"content_type\": \"...\", \"density\": \"...\"}";

/// What makes a clip spread, ranked.
pub const VIRALITY_CRITERIA: &'static str = r#"
Virality signals to prioritize (ranked by impact):
1. HOOK MOMENTS — statements that create immediate curiosity ("The secret is...", "Nobody talks about...", "I was completely wrong about...")
2. EMOTIONAL PEAKS — genuine surprise, laughter, anger, vulnerability, excitement; raw unscripted reactions
3. OPINION BOMBS — strong, polarizing or counter-intuitive statements that trigger agree/disagree
4. REVELATION MOMENTS — surprising facts, stats, or confessions that reframe how the viewer thinks
5. CONFLICT/TENSION — disagreement, pushback, or a problem being confronted head-on
6. QUOTABLE ONE-LINERS — a sentence that works as a standalone quote card
7. STORY PEAKS — the climax or twist of an anecdote; the payoff moment
8. PRACTICAL VALUE — a concrete tip, hack, or insight the viewer can immediately apply
"#;

/// The instructions for finding highlights; the braced names mark the
/// places that the highlight prompt fills in.
pub const HIGHLIGHT_SYSTEM_PROMPT: &'static str = "You are an elite short-form video editor who has studied thousands of viral clips on TikTok, Instagram Reels, and YouTube Shorts. You know exactly what makes viewers stop scrolling, watch to the end, and share.\n\n{virality_criteria}\n\nContent type: {content_type} | Density: {density}\n\nYour task: identify the most viral-worthy highlights from the transcript.\n\nRules:\n- Every highlight must open with a strong HOOK — a line that grabs attention within the first 3 seconds\n- Duration sweet spot: 45-90 seconds. Go shorter (20-44s) only for a perfect standalone one-liner. Go longer (91-180s) only when a story arc needs full context to land\n- Never cut mid-sentence or mid-thought — each clip must feel complete and self-contained\n- Clips must not overlap significantly with each other\n- Score 0-100 on viral potential (not general quality)\n- {num_clips_instruction}\n- For each highlight, identify the single best \"hook_sentence\" — the opening line that would make someone stop scrolling\n- Explain in one sentence why this clip is viral (\"virality_reason\")\n\nRespond ONLY with valid JSON (no markdown, no explanation):\n{{\"highlights\":[{{\"title\":\"string\",\"start_time\":float,\"end_time\":float,\"score\":int,\"hook_sentence\":\"string\",\"virality_reason\":\"string\"}}]}}";

// ---------------------------------------------------------------------------
// Loose JSON
// ---------------------------------------------------------------------------

/// The model's reply without surrounding whitespace and without a Markdown
/// code fence (` ```json ` or ` ``` ` before, ` ``` ` after).
pub open spec fn unfenced(raw: Seq<char>) -> Seq<char> {
    let t = trim(raw);
    let t1 = if has_prefix(t, "```json"@) {
        trim_start(t.skip(7))
    } else if has_prefix(t, "```"@) {
        trim_start(t.skip(3))
    } else {
        t
    };
    if has_suffix(t1, "```"@) {
        trim_end(t1.take(t1.len() - 3))
    } else {
        t1
    }
}

pub open spec fn is_first(s: Seq<char>, c: char, i: int) -> bool {
    0 <= i < s.len() && s[i] == c && forall|k: int| 0 <= k < i ==> s[k] != c
}

pub open spec fn is_last(s: Seq<char>, c: char, i: int) -> bool {
    0 <= i < s.len() && s[i] == c && forall|k: int| i < k < s.len() ==> s[k] != c
}

pub open spec fn has_char(s: Seq<char>, c: char) -> bool {
    exists|i: int| 0 <= i < s.len() && s[i] == c
}

/// Whether the loose reading succeeds: the unfenced text parses, or else
/// the span from its first `{` to its last `}` parses (or, with no such
/// span, the text itself).
pub open spec fn loose_json_accepts(raw: Seq<char>) -> bool {
    let c = unfenced(raw);
    if json_accepts(c) {
        true
    } else if has_char(c, '{') && has_char(c, '}') {
        exists|s: int, e: int| is_first(c, '{', s) && is_last(c, '}', e) && json_accepts(c.subrange(s, e + 1))
    } else {
        json_accepts(c)
    }
}

/// The loose reading cannot be sliced: the text does not parse, and its
/// last `}` comes before its first `{`.
pub open spec fn loose_json_misordered(raw: Seq<char>) -> bool {
    let c = unfenced(raw);
    &&& !json_accepts(c)
    &&& exists|s: int, e: int| is_first(c, '{', s) && is_last(c, '}', e) && e < s
}

fn unfence(raw: &str) -> (r: Vec<char>)
    ensures
        r@ == unfenced(raw@),
{
    let v = chars_of(raw);
    let t = trim_chars(&v);
    let json_fence = chars_of("```json");
    let fence = chars_of("```");
    proof {
        reveal_strlit("```json");
        reveal_strlit("```");
    }
    let t1 = if starts_with_chars(&t, &json_fence) {
        let rest = slice_chars(&t, 7, t.len());
        assert(rest@ =~= t@.skip(7));
        trim_start_chars(&rest)
    } else if starts_with_chars(&t, &fence) {
        let rest = slice_chars(&t, 3, t.len());
        assert(rest@ =~= t@.skip(3));
        trim_start_chars(&rest)
    } else {
        t
    };
    if ends_with_chars(&t1, &fence) {
        let head = slice_chars(&t1, 0, t1.len() - 3);
        assert(head@ =~= t1@.take(t1@.len() - 3));
        trim_end_chars(&head)
    } else {
        t1
    }
}

/// Reads a model reply as JSON, forgiving a code fence and text around the
/// object.
pub fn parse_json_loose(raw: &str) -> (r: Result<serde_json::Value, serde_json::Error>)
    requires
        !loose_json_misordered(raw@),
    ensures
        r is Ok <==> loose_json_accepts(raw@),
{
    let c = unfence(raw);
    let text = string_of(c.as_slice());
    match parse_json_value(text.as_str()) {
        Ok(v) => Ok(v),
        Err(e) => {
            let start = find_char(&c, '{');
            let end = rfind_char(&c, '}');
            match (start, end) {
                (Some(s), Some(e)) => {
                    proof {
                        assert(is_first(c@, '{', s as int));
                        assert(is_last(c@, '}', e as int));
                        if e < s {
                            assert(loose_json_misordered(raw@));
                        }
                    }
                    let span = slice_chars(&c, s, e + 1);
                    let span_text = string_of(span.as_slice());
                    let r = parse_json_value(span_text.as_str());
                    proof {
                        assert(has_char(c@, '{') && has_char(c@, '}'));
                        if r is Ok {
                            assert(is_first(c@, '{', s as int) && is_last(c@, '}', e as int));
                        } else {
                            assert forall|s1: int, e1: int|
                                is_first(c@, '{', s1) && is_last(c@, '}', e1) implies !json_accepts(
                                c@.subrange(s1, e1 + 1),
                            ) by {
                                assert(s1 == s as int);
                                assert(e1 == e as int);
                            }
                        }
                    }
                    r
                },
                _ => {
                    proof {
                        if has_char(c@, '{') && has_char(c@, '}') {
                            let i = choose|i: int| 0 <= i < c@.len() && c@[i] == '{';
                            let j = choose|j: int| 0 <= j < c@.len() && c@[j] == '}';
                            assert(c@[i] == '{');
                            assert(c@[j] == '}');
                        }
                    }
                    parse_json_value(text.as_str())
                },
            }
        },
    }
}

/// The language model that classifies transcripts and finds highlights:
/// given a prompt, its reply text or why the call failed.
pub trait HighlightLlm {
    fn call(&self, prompt: &str) -> Result<String, String>;
}

/// Reads a model reply as [`parse_json_loose`] does; nothing where that
/// reading would slice a span whose last `}` comes before its first `{`.
pub fn try_parse_json_loose(raw: &str) -> (r: Option<Result<serde_json::Value, serde_json::Error>>)
    ensures
        r is None <==> loose_json_misordered(raw@),
        r matches Some(p) ==> (p is Ok <==> loose_json_accepts(raw@)),
{
    let c = unfence(raw);
    let text = string_of(c.as_slice());
    if parse_json_value(text.as_str()).is_ok() {
        return Some(parse_json_loose(raw));
    }
    let start = find_char(&c, '{');
    let end = rfind_char(&c, '}');
    match (start, end) {
        (Some(s), Some(e)) => {
            proof {
                assert(is_first(c@, '{', s as int));
                assert(is_last(c@, '}', e as int));
            }
            if e < s {
                return None;
            }
            proof {
                assert forall|s1: int, e1: int| is_first(c@, '{', s1) && is_last(c@, '}', e1) implies !(e1
                    < s1) by {
                    assert(s1 == s as int);
                    assert(e1 == e as int);
                }
            }
            Some(parse_json_loose(raw))
        },
        _ => {
            proof {
                assert forall|s1: int, e1: int| is_first(c@, '{', s1) && is_last(c@, '}', e1) implies false by {
                    assert(c@[s1] == '{');
                    assert(c@[e1] == '}');
                }
            }
            Some(parse_json_loose(raw))
        },
    }
}

// ---------------------------------------------------------------------------
// Prompts
// ---------------------------------------------------------------------------

/// How many highlights to ask the model for at least: twice the clips
/// wanted (at least 5), no more than the video's length supports (one per
/// 90 seconds, at least 2 for a chunk and 3 for a whole video), and at most 8.
pub open spec fn min_clips_for(num_clips: int, is_chunk: bool, clips_by_duration: int) -> int {
    let target = if num_clips * 2 > 5 { num_clips * 2 } else { 5 };
    let floor = if is_chunk { 2int } else { 3int };
    let natural_max = if clips_by_duration > floor { clips_by_duration } else { floor };
    let m = if target < natural_max { target } else { natural_max };
    if m < 8 { m } else { 8 }
}

/// `clips_by_duration` is the duration in seconds divided by 90, rounded
/// down.
pub fn min_clips(num_clips: usize, is_chunk: bool, clips_by_duration: usize) -> (r: usize)
    requires
        num_clips <= usize::MAX / 2,
    ensures
        r as int == min_clips_for(num_clips as int, is_chunk, clips_by_duration as int),
{
    let target = if num_clips * 2 > 5 {
        num_clips * 2
    } else {
        5
    };
    let floor: usize = if is_chunk {
        2
    } else {
        3
    };
    let natural_max = if clips_by_duration > floor {
        clips_by_duration
    } else {
        floor
    };
    let m = if target < natural_max {
        target
    } else {
        natural_max
    };
    if m < 8 {
        m
    } else {
        8
    }
}

/// The instructions for the highlight model, with the placeholders filled
/// in: the virality criteria, the content type and density (`other` and
/// `medium` when unknown), and how many highlights to find.
pub open spec fn system_prompt(
    template: Seq<char>,
    criteria: Seq<char>,
    content_type: Seq<char>,
    density: Seq<char>,
    min_clips: nat,
) -> Seq<char> {
    replace_all(
        replace_all(
            replace_all(
                replace_all(template, "{virality_criteria}"@, criteria),
                "{content_type}"@,
                content_type,
            ),
            "{density}"@,
            density,
        ),
        "{num_clips_instruction}"@,
        "Generate at least "@ + dec(min_clips) + " highlights"@,
    )
}

/// The full highlight prompt: the filled-in instructions, then the
/// transcript.
pub fn highlight_prompt(
    template: &str,
    criteria: &str,
    content_type: Option<&str>,
    density: Option<&str>,
    min_clips: usize,
    transcript_text: &str,
) -> (r: String)
    ensures
        r@ == system_prompt(
            template@,
            criteria@,
            match content_type {
                Some(c) => c@,
                None => "other"@,
            },
            match density {
                Some(d) => d@,
                None => "medium"@,
            },
            min_clips as nat,
        ) + "\n\nTranscript:\n"@ + transcript_text@,
{
    proof {
        reveal_strlit("{virality_criteria}");
        reveal_strlit("{content_type}");
        reveal_strlit("{density}");
        reveal_strlit("{num_clips_instruction}");
    }
    let ct = match content_type {
        Some(c) => c,
        None => "other",
    };
    let dn = match density {
        Some(d) => d,
        None => "medium",
    };
    let a = replace_str(template, "{virality_criteria}", criteria);
    let b = replace_str(a.as_str(), "{content_type}", ct);
    let c = replace_str(b.as_str(), "{density}", dn);
    let n = u64_to_string(min_clips as u64);
    let i1 = concat2("Generate at least ", n.as_str());
    let instruction = concat2(i1.as_str(), " highlights");
    let d = replace_str(c.as_str(), "{num_clips_instruction}", instruction.as_str());
    let e = concat2(d.as_str(), "\n\nTranscript:\n");
    concat2(e.as_str(), transcript_text)
}

/// The sample of a transcript shown when classifying its content: the
/// texts of its first 25 segments that have one, joined by spaces, cut to
/// 3000 characters.
pub open spec fn content_sample(texts: Seq<Option<String>>) -> Seq<char> {
    let joined = join_present(texts.take(if texts.len() < 25 { texts.len() as int } else { 25 }));
    if joined.len() <= 3000 {
        joined
    } else {
        joined.take(3000)
    }
}

/// The texts that are present, joined by single spaces.
pub open spec fn join_present(texts: Seq<Option<String>>) -> Seq<char>
    decreases texts.len(),
{
    if texts.len() == 0 {
        Seq::empty()
    } else {
        let rest = join_present(texts.drop_last());
        match texts.last() {
            Some(t) => if present_count(texts.drop_last()) == 0 {
                t@
            } else {
                rest + " "@ + t@
            },
            None => rest,
        }
    }
}

pub open spec fn present_count(texts: Seq<Option<String>>) -> nat
    decreases texts.len(),
{
    if texts.len() == 0 {
        0
    } else {
        present_count(texts.drop_last()) + if texts.last() is Some { 1nat } else { 0nat }
    }
}

/// The prompt that asks the model what kind of content a transcript is.
pub fn content_type_prompt(template: &str, segment_texts: &Vec<Option<String>>) -> (r: String)
    ensures
        r@ == template@ + "\n\nTranscript sample:\n"@ + content_sample(segment_texts@),
{
    let n: usize = if segment_texts.len() < 25 {
        segment_texts.len()
    } else {
        25
    };
    let mut joined: Vec<char> = Vec::new();
    let mut count: usize = 0;
    let mut i: usize = 0;
    while i < n
        invariant
            n <= segment_texts@.len(),
            n as int == if segment_texts@.len() < 25 { segment_texts@.len() as int } else { 25 },
            i <= n,
            count as nat == present_count(segment_texts@.take(i as int)),
            count <= i,
            joined@ == join_present(segment_texts@.take(i as int)),
        decreases n - i,
    {
        let ghost t = segment_texts@.take(i + 1);
        assert(t.drop_last() =~= segment_texts@.take(i as int));
        if let Some(s) = &segment_texts[i] {
            let cs = chars_of(s.as_str());
            if count > 0 {
                joined.push(' ');
            }
            let mut k: usize = 0;
            let ghost before = joined@;
            while k < cs.len()
                invariant
                    k <= cs@.len(),
                    joined@ == before + cs@.take(k as int),
                decreases cs@.len() - k,
            {
                joined.push(cs[k]);
                k += 1;
                assert(joined@ =~= before + cs@.take(k as int));
            }
            assert(cs@.take(k as int) =~= cs@);
            proof {
                if count == 0 {
                    assert(before =~= Seq::<char>::empty()) by {
                        lemma_join_empty(segment_texts@.take(i as int));
                    }
                    assert(joined@ =~= s@);
                } else {
                    assert(joined@ =~= join_present(segment_texts@.take(i as int)) + " "@ + s@) by {
                        reveal_strlit(" ");
                    }
                }
            }
            count += 1;
        }
        i += 1;
    }
    let ghost all = joined@;
    let sample = if joined.len() <= 3000 {
        joined
    } else {
        slice_chars(&joined, 0, 3000)
    };
    assert(sample@ =~= content_sample(segment_texts@)) by {
        assert(segment_texts@.take(n as int) =~= segment_texts@.take(
            if segment_texts@.len() < 25 { segment_texts@.len() as int } else { 25 },
        ));
    }
    let s = string_of(sample.as_slice());
    let a = concat2(template, "\n\nTranscript sample:\n");
    concat2(a.as_str(), s.as_str())
}

proof fn lemma_join_empty(texts: Seq<Option<String>>)
    requires
        present_count(texts) == 0,
    ensures
        join_present(texts) == Seq::<char>::empty(),
    decreases texts.len(),
{
    if texts.len() > 0 {
        lemma_join_empty(texts.drop_last());
    }
}

/// What a content classification reply says: its content type and density
/// when it gave them as text; `other` and `medium` when the reply was
/// unusable.
pub fn content_info_or_default(parsed: Option<(Option<String>, Option<String>)>) -> (r: (String, String))
    ensures
        match parsed {
            Some((c, d)) => r.0@ == match c {
                Some(x) => x@,
                None => "other"@,
            } && r.1@ == match d {
                Some(x) => x@,
                None => "medium"@,
            },
            None => r.0@ == "other"@ && r.1@ == "medium"@,
        },
{
    match parsed {
        Some((c, d)) => (
            match c {
                Some(x) => x,
                None => "other".to_string(),
            },
            match d {
                Some(x) => x,
                None => "medium".to_string(),
            },
        ),
        None => ("other".to_string(), "medium".to_string()),
    }
}

// ---------------------------------------------------------------------------
// Dropping overlapping highlights
// ---------------------------------------------------------------------------

/// Keeps highlights greedily in the given order: one is kept unless it
/// overlaps a highlight kept before it. `overlaps[h][k]` says whether
/// highlight `h` overlaps highlight `k` by more than half of `h`'s length.
pub open spec fn greedy_kept(order: Seq<usize>, overlaps: Seq<Seq<bool>>) -> Seq<usize>
    decreases order.len(),
{
    if order.len() == 0 {
        Seq::empty()
    } else {
        let kept = greedy_kept(order.drop_last(), overlaps);
        let h = order.last();
        if exists|j: int| 0 <= j < kept.len() && overlaps[h as int][kept[j] as int] {
            kept
        } else {
            kept.push(h)
        }
    }
}

/// No highlight that is kept overlaps one kept before it.
pub proof fn law_kept_highlights_do_not_overlap(order: Seq<usize>, overlaps: Seq<Seq<bool>>)
    ensures
        forall|i: int, j: int|
            #![trigger greedy_kept(order, overlaps)[i], greedy_kept(order, overlaps)[j]]
            0 <= j < i < greedy_kept(order, overlaps).len() ==> !overlaps[greedy_kept(
                order,
                overlaps,
            )[i] as int][greedy_kept(order, overlaps)[j] as int],
    decreases order.len(),
{
    if order.len() > 0 {
        law_kept_highlights_do_not_overlap(order.drop_last(), overlaps);
        let kept = greedy_kept(order.drop_last(), overlaps);
        let h = order.last();
        if !(exists|j: int| 0 <= j < kept.len() && overlaps[h as int][kept[j] as int]) {
            let k2 = kept.push(h);
            assert(greedy_kept(order, overlaps) == k2);
            assert forall|i: int, j: int| #![trigger k2[i], k2[j]] 0 <= j < i < k2.len() implies !overlaps[k2[i] as int][k2[j] as int] by {
                if i == kept.len() {
                    assert(k2[i] == h);
                    assert(k2[j] == kept[j]);
                } else {
                    assert(k2[i] == kept[i]);
                    assert(k2[j] == kept[j]);
                }
            }
        }
    }
}

/// Every highlight is either kept or dropped for overlapping a kept one.
pub proof fn law_dropped_highlights_overlap_a_kept_one(order: Seq<usize>, overlaps: Seq<Seq<bool>>)
    ensures
        forall|i: int|
            0 <= i < order.len() ==> greedy_kept(order, overlaps).contains(#[trigger] order[i]) || exists|j: int|
                0 <= j < greedy_kept(order, overlaps).len() && overlaps[order[i] as int][greedy_kept(
                    order,
                    overlaps,
                )[j] as int],
    decreases order.len(),
{
    if order.len() > 0 {
        let d = order.drop_last();
        law_dropped_highlights_overlap_a_kept_one(d, overlaps);
        let kept = greedy_kept(d, overlaps);
        let all = greedy_kept(order, overlaps);
        let h = order.last();
        assert(all.len() >= kept.len());
        assert forall|j: int| 0 <= j < kept.len() implies all[j] == kept[j] by {}
        assert forall|i: int| 0 <= i < order.len() implies all.contains(#[trigger] order[i]) || exists|j: int|
            0 <= j < all.len() && overlaps[order[i] as int][all[j] as int] by {
            if i < order.len() - 1 {
                assert(order[i] == d[i]);
                if kept.contains(d[i]) {
                    let k = choose|k: int| 0 <= k < kept.len() && kept[k] == d[i];
                    assert(all[k] == kept[k]);
                } else {
                    let j = choose|j: int| 0 <= j < kept.len() && overlaps[d[i] as int][kept[j] as int];
                    assert(all[j] == kept[j]);
                }
            } else {
                assert(order[i] == h);
                if exists|j: int| 0 <= j < kept.len() && overlaps[h as int][kept[j] as int] {
                    let j = choose|j: int| 0 <= j < kept.len() && overlaps[h as int][kept[j] as int];
                    assert(all[j] == kept[j]);
                } else {
                    assert(all == kept.push(h));
                    assert(all[kept.len() as int] == h);
                }
            }
        }
    }
}

/// Greedy keeping changes nothing in a sequence none of whose highlights
/// overlaps one before it.
proof fn lemma_greedy_keeps_free(s: Seq<usize>, overlaps: Seq<Seq<bool>>)
    requires
        forall|i: int, j: int| #![trigger s[i], s[j]] 0 <= j < i < s.len() ==> !overlaps[s[i] as int][s[j] as int],
    ensures
        greedy_kept(s, overlaps) == s,
    decreases s.len(),
{
    if s.len() > 0 {
        let d = s.drop_last();
        assert forall|i: int, j: int| #![trigger d[i], d[j]] 0 <= j < i < d.len() implies !overlaps[d[i] as int][d[j] as int] by {
            assert(d[i] == s[i]);
            assert(d[j] == s[j]);
        }
        lemma_greedy_keeps_free(d, overlaps);
        let h = s.last();
        assert forall|j: int| 0 <= j < d.len() implies !overlaps[h as int][#[trigger] d[j] as int] by {
            assert(d[j] == s[j]);
            assert(h == s[s.len() - 1]);
        }
        assert(d.push(h) =~= s);
    }
}

/// Dropping overlaps again from what was kept keeps all of it.
pub proof fn law_dedupe_again_changes_nothing(order: Seq<usize>, overlaps: Seq<Seq<bool>>)
    ensures
        greedy_kept(greedy_kept(order, overlaps), overlaps) == greedy_kept(order, overlaps),
{
    law_kept_highlights_do_not_overlap(order, overlaps);
    lemma_greedy_keeps_free(greedy_kept(order, overlaps), overlaps);
}

/// What is kept comes in the order given: it is `order` at increasing
/// positions.
pub proof fn law_kept_highlights_keep_their_order(order: Seq<usize>, overlaps: Seq<Seq<bool>>)
    ensures
        exists|pos: Seq<int>|
            #![trigger pos.len()]
            pos.len() == greedy_kept(order, overlaps).len() && (forall|i: int|
                0 <= i < pos.len() ==> 0 <= #[trigger] pos[i] < order.len() && order[pos[i]] == greedy_kept(
                    order,
                    overlaps,
                )[i]) && (forall|i: int, j: int| #![trigger pos[i], pos[j]] 0 <= i < j < pos.len() ==> pos[i] < pos[j]),
    decreases order.len(),
{
    let kept = greedy_kept(order, overlaps);
    if order.len() == 0 {
        let pos: Seq<int> = Seq::empty();
        assert(pos.len() == kept.len());
    } else {
        let d = order.drop_last();
        law_kept_highlights_keep_their_order(d, overlaps);
        let before = greedy_kept(d, overlaps);
        let p = choose|pos: Seq<int>|
            #![trigger pos.len()]
            pos.len() == before.len() && (forall|i: int|
                0 <= i < pos.len() ==> 0 <= #[trigger] pos[i] < d.len() && d[pos[i]] == before[i]) && (forall|i: int, j: int|
                #![trigger pos[i], pos[j]]
                0 <= i < j < pos.len() ==> pos[i] < pos[j]);
        if kept == before {
            assert forall|i: int| 0 <= i < p.len() implies 0 <= #[trigger] p[i] < order.len() && order[p[i]]
                == kept[i] by {
                assert(order[p[i]] == d[p[i]]);
            }
            assert(p.len() == kept.len());
        } else {
            let q = p.push(order.len() - 1);
            assert(kept == before.push(order.last()));
            assert forall|i: int| 0 <= i < q.len() implies 0 <= #[trigger] q[i] < order.len() && order[q[i]]
                == kept[i] by {
                if i < p.len() {
                    assert(q[i] == p[i]);
                    assert(order[p[i]] == d[p[i]]);
                } else {
                    assert(q[i] == order.len() - 1);
                }
            }
            assert forall|i: int, j: int| #![trigger q[i], q[j]] 0 <= i < j < q.len() implies q[i] < q[j] by {
                if j < p.len() {
                    assert(q[i] == p[i]);
                    assert(q[j] == p[j]);
                } else {
                    assert(q[i] == p[i]);
                    assert(p[i] < d.len());
                }
            }
            assert(q.len() == kept.len());
        }
    }
}

/// The first highlight of an order is always kept.
proof fn lemma_first_is_kept(order: Seq<usize>, overlaps: Seq<Seq<bool>>)
    requires
        order.len() > 0,
    ensures
        greedy_kept(order, overlaps).len() > 0,
        greedy_kept(order, overlaps)[0] == order[0],
    decreases order.len(),
{
    if order.len() == 1 {
        assert(order.drop_last().len() == 0);
        assert(greedy_kept(order.drop_last(), overlaps).len() == 0);
    } else {
        lemma_first_is_kept(order.drop_last(), overlaps);
    }
}

/// Dropping overlaps from highlights ranked best first keeps a top-scored
/// one first.
pub proof fn law_first_kept_is_top_scored(scores: Seq<i64>, order: Seq<usize>, overlaps: Seq<Seq<bool>>)
    requires
        0 < scores.len() <= usize::MAX,
        is_top_ranking(scores, scores.len() as int, order),
    ensures
        greedy_kept(order, overlaps).len() > 0,
        forall|k: int| 0 <= k < scores.len() ==> scores[greedy_kept(order, overlaps)[0] as int] >= #[trigger] scores[k],
{
    lemma_first_is_kept(order, overlaps);
    assert forall|k: int| 0 <= k < scores.len() implies scores[order[0] as int] >= #[trigger] scores[k] by {
        assert(order.len() == scores.len());
        let first = order[0];
        if order.contains(k as usize) {
            let j = choose|j: int| 0 <= j < order.len() && order[j] == k as usize;
            if j > 0 {
                assert(ranks_before(scores, order[0] as int, order[j] as int));
            }
        } else {
            let sk = scores[k];
            assert(ranks_before(scores, order[0] as int, k));
        }
    }
}

/// Orders the highlights best first (stable by descending score), then
/// drops each one that overlaps one kept before it. Gives the positions
/// kept, in order.
pub fn dedupe_highlights(scores: &Vec<i64>, overlaps: &Vec<Vec<bool>>) -> (kept: Vec<usize>)
    requires
        overlaps@.len() == scores@.len(),
        forall|i: int| 0 <= i < scores@.len() ==> (#[trigger] overlaps@[i])@.len() == scores@.len(),
    ensures
        exists|order: Seq<usize>| is_top_ranking(scores@, scores@.len() as int, order) && kept@
            == greedy_kept(order, overlaps@.map_values(|r: Vec<bool>| r@)),
{
    let order = top_highlights(scores, scores.len());
    let ghost m = overlaps@.map_values(|r: Vec<bool>| r@);
    let mut kept: Vec<usize> = Vec::new();
    let mut i: usize = 0;
    while i < order.len()
        invariant
            i <= order@.len(),
            order@.len() == scores@.len(),
            overlaps@.len() == scores@.len(),
            forall|a: int| 0 <= a < scores@.len() ==> (#[trigger] overlaps@[a])@.len() == scores@.len(),
            forall|a: int| 0 <= a < order@.len() ==> #[trigger] order@[a] < scores@.len(),
            m == overlaps@.map_values(|r: Vec<bool>| r@),
            kept@ == greedy_kept(order@.take(i as int), m),
            forall|a: int| 0 <= a < kept@.len() ==> #[trigger] kept@[a] < scores@.len(),
        decreases order@.len() - i,
    {
        let h = order[i];
        let mut hit = false;
        let mut j: usize = 0;
        while j < kept.len()
            invariant
                j <= kept@.len(),
                h < scores@.len(),
                overlaps@.len() == scores@.len(),
                forall|a: int| 0 <= a < scores@.len() ==> (#[trigger] overlaps@[a])@.len() == scores@.len(),
                forall|a: int| 0 <= a < kept@.len() ==> #[trigger] kept@[a] < scores@.len(),
                m == overlaps@.map_values(|r: Vec<bool>| r@),
                hit <==> exists|b: int| 0 <= b < j && m[h as int][kept@[b] as int],
            decreases kept@.len() - j,
        {
            if overlaps[h][kept[j]] {
                hit = true;
            }
            j += 1;
        }
        let ghost t = order@.take(i + 1);
        assert(t.drop_last() =~= order@.take(i as int));
        assert(t.last() == h);
        if !hit {
            kept.push(h);
        }
        i += 1;
    }
    assert(order@.take(i as int) =~= order@);
    kept
}

} // verus!
