//! Reading the provider's JSON replies: where the downloaded video, the
//! transcript and the model's text are, and recording rendered clips.
//!
//! A reply is held as a [`Json`] value; numbers keep their literal text.

use vstd::prelude::*;
use crate::text::{chars_of, concat2, has_prefix, starts_with_str, trim, trim_str};

verus! {

/// A JSON value. Numbers are kept as written; an object's keys are
/// distinct.
#[derive(Debug)]
pub enum Json {
    Null,
    Bool(bool),
    Number(String),
    Text(String),
    Array(Vec<Json>),
    Object(Vec<(String, Json)>),
}

/// The value under a key of an object (nothing for other values).
pub open spec fn json_get(v: Json, key: Seq<char>) -> Option<Json> {
    match v {
        Json::Object(fields) => field_of(fields@, key),
        _ => None,
    }
}

pub open spec fn field_of(fields: Seq<(String, Json)>, key: Seq<char>) -> Option<Json>
    decreases fields.len(),
{
    if fields.len() == 0 {
        None
    } else if fields[0].0@ == key {
        Some(fields[0].1)
    } else {
        field_of(fields.drop_first(), key)
    }
}

/// Looks a key up in an object.
pub fn get<'a>(v: &'a Json, key: &str) -> (r: Option<&'a Json>)
    ensures
        match r {
            Some(x) => json_get(*v, key@) == Some(*x),
            None => json_get(*v, key@) is None,
        },
{
    match v {
        Json::Object(fields) => {
            let k = key.to_string();
            let mut i: usize = 0;
            assert(fields@.skip(0) =~= fields@);
            while i < fields.len()
                invariant
                    i <= fields@.len(),
                    k@ == key@,
                    json_get(*v, key@) == field_of(fields@, key@),
                    field_of(fields@, key@) == field_of(fields@.skip(i as int), key@),
                decreases fields@.len() - i,
            {
                assert(fields@.skip(i as int).drop_first() =~= fields@.skip(i + 1));
                assert(fields@.skip(i as int)[0] == fields@[i as int]);
                if fields[i].0 == k {
                    return Some(&fields[i].1);
                }
                i += 1;
            }
            None
        },
        _ => None,
    }
}

pub open spec fn text_of(v: Option<Json>) -> Option<Seq<char>> {
    match v {
        Some(Json::Text(s)) => Some(s@),
        _ => None,
    }
}

fn as_text<'a>(v: Option<&'a Json>) -> (r: Option<&'a String>)
    ensures
        match r {
            Some(s) => text_of(match v {
                Some(x) => Some(*x),
                None => None,
            }) == Some(s@),
            None => text_of(match v {
                Some(x) => Some(*x),
                None => None,
            }) is None,
        },
{
    match v {
        Some(Json::Text(s)) => Some(s),
        _ => None,
    }
}

// ---------------------------------------------------------------------------
// The downloaded video
// ---------------------------------------------------------------------------

/// A link the provider gives: a text starting with `http`.
pub open spec fn is_link(v: Option<Json>) -> bool {
    text_of(v) matches Some(s) && has_prefix(s, "http"@)
}

/// Where a reply keeps its output: `outputs`, else `output`, else `result`.
pub open spec fn output_of(result: Json) -> Option<Json> {
    match json_get(result, "outputs"@) {
        Some(o) => Some(o),
        None => match json_get(result, "output"@) {
            Some(o) => Some(o),
            None => json_get(result, "result"@),
        },
    }
}

/// The downloaded video's URL: the first link among `video_url`, `url`,
/// `output_url` and `result_url`; else among the output object's
/// `video_url`, `url` and `output_url`; else the output list's first entry.
pub open spec fn video_url_of(result: Json) -> Option<Seq<char>> {
    if is_link(json_get(result, "video_url"@)) {
        text_of(json_get(result, "video_url"@))
    } else if is_link(json_get(result, "url"@)) {
        text_of(json_get(result, "url"@))
    } else if is_link(json_get(result, "output_url"@)) {
        text_of(json_get(result, "output_url"@))
    } else if is_link(json_get(result, "result_url"@)) {
        text_of(json_get(result, "result_url"@))
    } else {
        match output_of(result) {
            Some(Json::Object(f)) => if is_link(field_of(f@, "video_url"@)) {
                text_of(field_of(f@, "video_url"@))
            } else if is_link(field_of(f@, "url"@)) {
                text_of(field_of(f@, "url"@))
            } else if is_link(field_of(f@, "output_url"@)) {
                text_of(field_of(f@, "output_url"@))
            } else {
                None
            },
            Some(Json::Array(a)) => if a@.len() > 0 && is_link(Some(a@[0])) {
                text_of(Some(a@[0]))
            } else {
                None
            },
            _ => None,
        }
    }
}

/// The link held under `key` of `v`: its text, when it is a text that
/// starts with `http`.
pub open spec fn link_under(v: Json, key: Seq<char>) -> Option<Seq<char>> {
    match json_get(v, key) {
        Some(Json::Text(s)) => if has_prefix(s@, "http"@) {
            Some(s@)
        } else {
            None
        },
        _ => None,
    }
}

/// Where a reply's output is: under `outputs`, else `output`, else
/// `result`, the first key present.
pub open spec fn first_present(result: Json) -> Option<Json> {
    if json_get(result, "outputs"@) is Some {
        json_get(result, "outputs"@)
    } else if json_get(result, "output"@) is Some {
        json_get(result, "output"@)
    } else {
        json_get(result, "result"@)
    }
}

/// The downloaded video's URL is the first link among the reply's
/// `video_url`, `url`, `output_url` and `result_url`, checked in that
/// order; when none of them holds one, the first link among the output
/// object's `video_url`, `url` and `output_url`, or the output list's first
/// entry when it is a link. Whatever is found is a link; a reply with no
/// link under any of these gives none.
pub proof fn law_video_url_is_the_first_link(result: Json)
    ensures
        link_under(result, "video_url"@) is Some ==> video_url_of(result) == link_under(result, "video_url"@),
        link_under(result, "video_url"@) is None && link_under(result, "url"@) is Some ==> video_url_of(result)
            == link_under(result, "url"@),
        link_under(result, "video_url"@) is None && link_under(result, "url"@) is None && link_under(
            result,
            "output_url"@,
        ) is Some ==> video_url_of(result) == link_under(result, "output_url"@),
        link_under(result, "video_url"@) is None && link_under(result, "url"@) is None && link_under(
            result,
            "output_url"@,
        ) is None && link_under(result, "result_url"@) is Some ==> video_url_of(result) == link_under(
            result,
            "result_url"@,
        ),
        link_under(result, "video_url"@) is None && link_under(result, "url"@) is None && link_under(
            result,
            "output_url"@,
        ) is None && link_under(result, "result_url"@) is None ==> match first_present(result) {
            Some(Json::Object(f)) => {
                let o = Json::Object(f);
                if link_under(o, "video_url"@) is Some {
                    video_url_of(result) == link_under(o, "video_url"@)
                } else if link_under(o, "url"@) is Some {
                    video_url_of(result) == link_under(o, "url"@)
                } else {
                    video_url_of(result) == link_under(o, "output_url"@)
                }
            },
            Some(Json::Array(a)) => video_url_of(result) == (if a@.len() > 0 && (a@[0] is Text && has_prefix(
                a@[0]->Text_0@,
                "http"@,
            )) {
                Some(a@[0]->Text_0@)
            } else {
                None
            }),
            _ => video_url_of(result) is None,
        },
        video_url_of(result) matches Some(u) ==> has_prefix(u, "http"@),
{
    assert(output_of(result) == first_present(result));
}

fn link_at(v: &Json, key: &str) -> (r: Option<String>)
    ensures
        is_link(json_get(*v, key@)) ==> (r matches Some(s) && Some(s@) == text_of(json_get(*v, key@))),
        !is_link(json_get(*v, key@)) ==> r is None,
{
    match as_text(get(v, key)) {
        Some(s) => if starts_with_str(s.as_str(), "http") {
            Some(s.clone())
        } else {
            None
        },
        None => None,
    }
}

/// Finds the downloaded video's URL in a reply; `result_text` is the reply
/// as JSON text, quoted in the error.
pub fn extract_video_url(result: &Json, result_text: &str) -> (r: Result<String, String>)
    ensures
        match video_url_of(*result) {
            Some(u) => r matches Ok(s) && s@ == u,
            None => r matches Err(e) && e@ == "Could not find downloaded video URL in MuAPI response: "@
                + result_text@,
        },
{
    if let Some(u) = link_at(result, "video_url") {
        return Ok(u);
    }
    if let Some(u) = link_at(result, "url") {
        return Ok(u);
    }
    if let Some(u) = link_at(result, "output_url") {
        return Ok(u);
    }
    if let Some(u) = link_at(result, "result_url") {
        return Ok(u);
    }
    let output = match get(result, "outputs") {
        Some(o) => Some(o),
        None => match get(result, "output") {
            Some(o) => Some(o),
            None => get(result, "result"),
        },
    };
    match output {
        Some(o) => match o {
            Json::Object(_) => {
                if let Some(u) = link_at(o, "video_url") {
                    return Ok(u);
                }
                if let Some(u) = link_at(o, "url") {
                    return Ok(u);
                }
                if let Some(u) = link_at(o, "output_url") {
                    return Ok(u);
                }
            },
            Json::Array(a) => {
                if a.len() > 0 {
                    if let Json::Text(s) = &a[0] {
                        if starts_with_str(s.as_str(), "http") {
                            return Ok(s.clone());
                        }
                    }
                }
            },
            _ => {},
        },
        None => {},
    }
    Err(concat2("Could not find downloaded video URL in MuAPI response: ", result_text))
}

// ---------------------------------------------------------------------------
// The transcript
// ---------------------------------------------------------------------------

/// Decodes JSON text met inside a reply.
pub trait JsonDecoder {
    /// The document the text holds, if it is JSON.
    fn decode(&self, text: &str) -> Option<Json>;
}

pub open spec fn has_segments(v: Json) -> bool {
    json_get(v, "segments"@) is Some
}

/// Reads an entry that may hold the transcript: an object as it is, a text
/// as the JSON it holds (`{}` when it holds none), anything else as `{}`.
pub fn coerce_verbose<D: JsonDecoder>(raw: Json, decoder: &D) -> (r: Json)
    ensures
        raw is Object ==> r == raw,
        !(raw is Object) && !(raw is Text) ==> (r matches Json::Object(f) && f@.len() == 0),
{
    match raw {
        Json::Text(ref s) => match decoder.decode(s.as_str()) {
            Some(v) => v,
            None => Json::Object(Vec::new()),
        },
        Json::Object(_) => raw,
        _ => Json::Object(Vec::new()),
    }
}

/// Takes the value under a key out of an object.
pub fn take_field(v: Json, key: &str) -> (r: Option<Json>)
    ensures
        r == json_get(v, key@),
{
    let ghost whole = v;
    match v {
        Json::Object(fields0) => {
            let mut fields = fields0;
            let k = key.to_string();
            let mut i: usize = 0;
            assert(fields@.skip(0) =~= fields@);
            while i < fields.len()
                invariant
                    i <= fields@.len(),
                    k@ == key@,
                    whole == v,
                    json_get(whole, key@) == field_of(fields@, key@),
                    field_of(fields@, key@) == field_of(fields@.skip(i as int), key@),
                decreases fields@.len() - i,
            {
                assert(fields@.skip(i as int).drop_first() =~= fields@.skip(i + 1));
                assert(fields@.skip(i as int)[0] == fields@[i as int]);
                if fields[i].0 == k {
                    let ghost before = fields@;
                    assert(before.skip(i as int)[0].0@ == key@);
                    assert(field_of(before.skip(i as int), key@) == Some(before[i as int].1));
                    let (_, value) = fields.remove(i);
                    assert(value == before[i as int].1);
                    assert(json_get(whole, key@) == Some(value));
                    return Some(value);
                }
                i += 1;
            }
            None
        },
        _ => None,
    }
}

/// Takes the first entry out of a list.
pub fn take_first(v: Json) -> (r: Option<Json>)
    ensures
        r == match v {
            Json::Array(a) => if a@.len() > 0 { Some(a@[0]) } else { None },
            _ => None,
        },
{
    match v {
        Json::Array(mut a) => if a.len() > 0 {
            Some(a.remove(0))
        } else {
            None
        },
        _ => None,
    }
}

/// The transcript an entry holds as it stands: an object with `segments`,
/// or a list whose first entry is one.
pub open spec fn object_candidate(e: Option<Json>) -> Option<Json> {
    match e {
        Some(Json::Object(f)) => if has_segments(Json::Object(f)) {
            Some(Json::Object(f))
        } else {
            None
        },
        Some(Json::Array(a)) => if a@.len() > 0 && a@[0] is Object && has_segments(a@[0]) {
            Some(a@[0])
        } else {
            None
        },
        _ => None,
    }
}

/// Whether an entry is a text, or a list whose first entry is a text: what
/// it holds is then read by the decoder.
pub open spec fn needs_decoding(e: Option<Json>) -> bool {
    match e {
        Some(Json::Text(_)) => true,
        Some(Json::Array(a)) => a@.len() > 0 && a@[0] is Text,
        _ => false,
    }
}

/// The transcript found by looking at the entries under `keys` in turn,
/// then at the reply itself: `Some(Some(v))` when found before any entry
/// needing the decoder, `Some(None)` when there is none at all, `None` when
/// the answer depends on what the decoder reads.
pub open spec fn verbose_scan(result: Json, keys: Seq<Seq<char>>) -> Option<Option<Json>>
    decreases keys.len(),
{
    if keys.len() == 0 {
        if has_segments(result) {
            Some(Some(result))
        } else {
            Some(None)
        }
    } else {
        let e = json_get(result, keys[0]);
        match object_candidate(e) {
            Some(v) => Some(Some(v)),
            None => if needs_decoding(e) {
                None
            } else {
                verbose_scan(result, keys.drop_first())
            },
        }
    }
}

pub open spec fn verbose_keys() -> Seq<Seq<char>> {
    seq!["output"@, "result"@, "outputs"@]
}

/// Where the transcript of a reply is: the first of `output`, `result`,
/// `outputs` that is an object with `segments`, a list whose first entry
/// reads as one, or a text that reads as one; else the reply itself when it
/// has `segments`. Where no text had to be read before the answer, the
/// answer is exact; otherwise what a text reads as is the decoder's, and
/// the function gives back a value with `segments` or the error.
pub fn extract_verbose_payload<D: JsonDecoder>(result: Json, result_text: &str, decoder: &D) -> (r: Result<Json, String>)
    ensures
        r matches Ok(v) ==> has_segments(v),
        r matches Err(e) ==> e@ == "Could not find Whisper segments in MuAPI response: "@ + result_text@,
        has_segments(result) ==> r is Ok,
        match verbose_scan(result, verbose_keys()) {
            Some(Some(v)) => r == Ok::<Json, String>(v),
            Some(None) => r is Err,
            None => true,
        },
{
    let keys = ["output", "result", "outputs"];
    let ghost whole = result;
    let ghost mut touched = false;
    let mut i: usize = 0;
    assert(verbose_keys().skip(0) =~= verbose_keys());
    while i < 3
        invariant
            i <= 3,
            keys@ == seq!["output", "result", "outputs"],
            whole == result,
            !touched ==> verbose_scan(whole, verbose_keys()) == verbose_scan(whole, verbose_keys().skip(i as int)),
            touched ==> verbose_scan(whole, verbose_keys()) is None,
        decreases 3 - i,
    {
        let key = keys[i];
        proof {
            reveal_strlit("output");
            reveal_strlit("result");
            reveal_strlit("outputs");
            assert(verbose_keys()[i as int] == key@);
            assert(verbose_keys().skip(i as int).drop_first() =~= verbose_keys().skip(i + 1));
            assert(verbose_keys().skip(i as int)[0] == key@);
        }
        let mut decoded: Option<Json> = None;
        let mut take_whole = false;
        let mut take_head = false;
        if let Some(v) = get(&result, key) {
            match v {
                Json::Object(_) => {
                    if get(v, "segments").is_some() {
                        take_whole = true;
                    }
                },
                Json::Array(a) => {
                    if a.len() > 0 {
                        match &a[0] {
                            Json::Object(_) => {
                                if get(&a[0], "segments").is_some() {
                                    take_head = true;
                                }
                            },
                            Json::Text(t) => {
                                proof {
                                    touched = true;
                                }
                                if let Some(d) = decoder.decode(t.as_str()) {
                                    if get(&d, "segments").is_some() {
                                        decoded = Some(d);
                                    }
                                }
                            },
                            _ => {},
                        }
                    }
                },
                Json::Text(t) => {
                    proof {
                        touched = true;
                    }
                    if let Some(d) = decoder.decode(t.as_str()) {
                        if get(&d, "segments").is_some() {
                            decoded = Some(d);
                        }
                    }
                },
                _ => {},
            }
        }
        if take_whole {
            match take_field(result, key) {
                Some(v) => return Ok(v),
                None => return Err(concat2("Could not find Whisper segments in MuAPI response: ", result_text)),
            }
        }
        if take_head {
            match take_field(result, key) {
                Some(v) => match take_first(v) {
                    Some(h) => return Ok(h),
                    None => return Err(concat2("Could not find Whisper segments in MuAPI response: ", result_text)),
                },
                None => return Err(concat2("Could not find Whisper segments in MuAPI response: ", result_text)),
            }
        }
        if let Some(d) = decoded {
            return Ok(d);
        }
        i += 1;
    }
    proof {
        assert(verbose_keys().skip(3) =~= Seq::<Seq<char>>::empty());
    }
    if get(&result, "segments").is_some() {
        return Ok(result);
    }
    Err(concat2("Could not find Whisper segments in MuAPI response: ", result_text))
}

// ---------------------------------------------------------------------------
// Rendered clips
// ---------------------------------------------------------------------------

/// Sets a field of an object.
fn set_field(fields: &mut Vec<(String, Json)>, key: &str, value: Json)
    ensures
        field_of(final(fields)@, key@) == Some(value),
        forall|k: Seq<char>| k != key@ ==> #[trigger] field_of(final(fields)@, k) == field_of(old(fields)@, k),
{
    let k = key.to_string();
    let mut i: usize = 0;
    while i < fields.len()
        invariant
            i <= fields@.len(),
            k@ == key@,
            fields@ == old(fields)@,
            forall|j: int| 0 <= j < i ==> (#[trigger] fields@[j]).0@ != key@,
        decreases fields@.len() - i,
    {
        if fields[i].0 == k {
            let ghost before = fields@;
            let name = fields[i].0.clone();
            fields.set(i, (name, value));
            proof {
                lemma_field_update(before, i as int, key@, value);
            }
            return;
        }
        i += 1;
    }
    let ghost before = fields@;
    fields.push((k, value));
    proof {
        lemma_field_push(before, key@, value, k);
    }
}

proof fn lemma_field_update(f: Seq<(String, Json)>, i: int, key: Seq<char>, value: Json)
    requires
        0 <= i < f.len(),
        f[i].0@ == key,
        forall|j: int| 0 <= j < i ==> (#[trigger] f[j]).0@ != key,
    ensures
        field_of(f.update(i, (f[i].0, value)), key) == Some(value),
        forall|k: Seq<char>| k != key ==> #[trigger] field_of(f.update(i, (f[i].0, value)), k) == field_of(f, k),
    decreases i,
{
    let g = f.update(i, (f[i].0, value));
    if i > 0 {
        let f1 = f.drop_first();
        let g1 = f1.update(i - 1, (f1[i - 1].0, value));
        assert(g.drop_first() =~= g1);
        assert(f1[i - 1] == f[i]);
        assert forall|j: int| 0 <= j < i - 1 implies (#[trigger] f1[j]).0@ != key by {
            assert(f1[j] == f[j + 1]);
        }
        lemma_field_update(f1, i - 1, key, value);
        assert(g[0] == f[0]);
        assert forall|k: Seq<char>| k != key implies #[trigger] field_of(g, k) == field_of(f, k) by {
            assert(field_of(g1, k) == field_of(f1, k));
        }
    } else {
        assert(g[0].0@ == key);
        assert forall|k: Seq<char>| k != key implies #[trigger] field_of(g, k) == field_of(f, k) by {
            assert(g.drop_first() =~= f.drop_first());
        }
    }
}

proof fn lemma_field_push(f: Seq<(String, Json)>, key: Seq<char>, value: Json, name: String)
    requires
        name@ == key,
        forall|j: int| 0 <= j < f.len() ==> (#[trigger] f[j]).0@ != key,
    ensures
        field_of(f.push((name, value)), key) == Some(value),
        forall|k: Seq<char>| k != key ==> #[trigger] field_of(f.push((name, value)), k) == field_of(f, k),
    decreases f.len(),
{
    let g = f.push((name, value));
    if f.len() > 0 {
        let f1 = f.drop_first();
        assert(g.drop_first() =~= f1.push((name, value)));
        assert forall|j: int| 0 <= j < f1.len() implies (#[trigger] f1[j]).0@ != key by {
            assert(f1[j] == f[j + 1]);
        }
        lemma_field_push(f1, key, value, name);
        assert(g[0] == f[0]);
        assert forall|k: Seq<char>| k != key implies #[trigger] field_of(g, k) == field_of(f, k) by {
            assert(field_of(f1.push((name, value)), k) == field_of(f1, k));
        }
    } else {
        assert(g[0].0@ == key);
        assert forall|k: Seq<char>| k != key implies #[trigger] field_of(g, k) == field_of(f, k) by {
            assert(g.drop_first() =~= f);
        }
    }
}

/// Records the rendering of each highlight: its `clip_url` on success;
/// `clip_url` null and the `error` on failure. Values that are not objects
/// pass unchanged.
pub fn crop_highlights_with_results(mut highlights: Vec<Json>, results: &Vec<Result<String, String>>) -> (out: Vec<Json>)
    requires
        results@.len() == highlights@.len(),
    ensures
        out@.len() == highlights@.len(),
        forall|i: int| 0 <= i < out@.len() ==> match highlights@[i] {
            Json::Object(_) => match results@[i] {
                Ok(u) => (#[trigger] out@[i] is Object) && text_of(json_get(out@[i], "clip_url"@)) == Some(u@)
                    && forall|k: Seq<char>| k != "clip_url"@ ==> json_get(out@[i], k) == json_get(
                    highlights@[i],
                    k,
                ),
                Err(e) => (out@[i] is Object) && json_get(out@[i], "clip_url"@) == Some(Json::Null)
                    && text_of(json_get(out@[i], "error"@)) == Some(e@) && forall|k: Seq<char>|
                    k != "clip_url"@ && k != "error"@ ==> json_get(out@[i], k) == json_get(
                    highlights@[i],
                    k,
                ),
            },
            _ => out@[i] == highlights@[i],
        },
{
    let mut out: Vec<Json> = Vec::new();
    let mut i: usize = 0;
    let ghost all = highlights@;
    while i < results.len()
        invariant
            i <= results@.len(),
            results@.len() == all.len(),
            highlights@ == all.skip(i as int),
            out@.len() == i,
            forall|j: int| 0 <= j < i ==> match all[j] {
                Json::Object(_) => match results@[j] {
                    Ok(u) => (#[trigger] out@[j] is Object) && text_of(json_get(out@[j], "clip_url"@))
                        == Some(u@) && forall|k: Seq<char>| k != "clip_url"@ ==> json_get(out@[j], k)
                        == json_get(all[j], k),
                    Err(e) => (out@[j] is Object) && json_get(out@[j], "clip_url"@) == Some(Json::Null)
                        && text_of(json_get(out@[j], "error"@)) == Some(e@) && forall|k: Seq<char>|
                        k != "clip_url"@ && k != "error"@ ==> json_get(out@[j], k) == json_get(all[j], k),
                },
                _ => out@[j] == all[j],
            },
        decreases results@.len() - i,
    {
        let h = highlights.remove(0);
        assert(h == all[i as int]);
        assert(highlights@ =~= all.skip(i + 1));
        let item = match h {
            Json::Object(mut fields) => {
                match &results[i] {
                    Ok(u) => {
                        set_field(&mut fields, "clip_url", Json::Text(u.clone()));
                    },
                    Err(e) => {
                        let ghost f0 = fields@;
                        set_field(&mut fields, "clip_url", Json::Null);
                        let ghost f1 = fields@;
                        set_field(&mut fields, "error", Json::Text(e.clone()));
                        proof {
                            reveal_strlit("clip_url");
                            reveal_strlit("error");
                        }
                        assert("error"@.len() != "clip_url"@.len());
                        assert(field_of(fields@, "clip_url"@) == field_of(f1, "clip_url"@));
                    },
                }
                Json::Object(fields)
            },
            other => other,
        };
        out.push(item);
        i += 1;
    }
    out
}

// ---------------------------------------------------------------------------
// The language model's text
// ---------------------------------------------------------------------------

pub open spec fn usable_text(v: Option<Json>) -> bool {
    text_of(v) matches Some(s) && trim(s).len() > 0
}

pub open spec fn first_of(v: Option<Json>) -> Option<Json> {
    match v {
        Some(Json::Array(a)) => if a@.len() > 0 { Some(a@[0]) } else { None },
        _ => None,
    }
}

/// The text under one of the reply's keys: the value itself, its `text`
/// or `content`, or its list's first entry; whichever is a non-blank text
/// first.
pub open spec fn text_under(v: Option<Json>) -> Option<Seq<char>> {
    if usable_text(v) {
        text_of(v)
    } else if v matches Some(Json::Object(f)) && usable_text(field_of(f@, "text"@)) {
        text_of(field_of(v->0->Object_0@, "text"@))
    } else if v matches Some(Json::Object(f)) && usable_text(field_of(f@, "content"@)) {
        text_of(field_of(v->0->Object_0@, "content"@))
    } else if usable_text(first_of(v)) {
        text_of(first_of(v))
    } else {
        None
    }
}

/// The text a language model reply carries: the first entry of its
/// `outputs` list, else the first of `output`, `text`, `response`,
/// `result`, `content` that holds usable text.
pub open spec fn model_text_of(result: Json) -> Option<Seq<char>> {
    if usable_text(first_of(json_get(result, "outputs"@))) {
        text_of(first_of(json_get(result, "outputs"@)))
    } else if text_under(json_get(result, "output"@)) is Some {
        text_under(json_get(result, "output"@))
    } else if text_under(json_get(result, "text"@)) is Some {
        text_under(json_get(result, "text"@))
    } else if text_under(json_get(result, "response"@)) is Some {
        text_under(json_get(result, "response"@))
    } else if text_under(json_get(result, "result"@)) is Some {
        text_under(json_get(result, "result"@))
    } else {
        text_under(json_get(result, "content"@))
    }
}

/// The text `v` is, when it is a text that is not blank.
pub open spec fn nonblank(v: Option<Json>) -> Option<Seq<char>> {
    match v {
        Some(Json::Text(s)) => if trim(s@).len() > 0 {
            Some(s@)
        } else {
            None
        },
        _ => None,
    }
}

/// The non-blank text first in the reply's `outputs` list, if any.
pub open spec fn outputs_text(result: Json) -> Option<Seq<char>> {
    match json_get(result, "outputs"@) {
        Some(Json::Array(a)) => if a@.len() > 0 {
            nonblank(Some(a@[0]))
        } else {
            None
        },
        _ => None,
    }
}

/// The keys of a reply that may hold the model's text, in the order they
/// are tried.
pub open spec fn text_keys() -> Seq<Seq<char>> {
    seq!["output"@, "text"@, "response"@, "result"@, "content"@]
}

/// What a value under one of these keys offers: itself when it is a
/// non-blank text; for an object, its `text`, else its `content`, when
/// non-blank text; for a list, its first entry when non-blank text.
pub open spec fn offered_text(v: Option<Json>) -> Option<Seq<char>> {
    match v {
        Some(Json::Text(_)) => nonblank(v),
        Some(Json::Object(f)) => {
            let o = Json::Object(f);
            if nonblank(json_get(o, "text"@)) is Some {
                nonblank(json_get(o, "text"@))
            } else {
                nonblank(json_get(o, "content"@))
            }
        },
        Some(Json::Array(a)) => if a@.len() > 0 {
            nonblank(Some(a@[0]))
        } else {
            None
        },
        _ => None,
    }
}

/// The model's text is the first entry of `outputs` when that is non-blank
/// text; else what the first of `output`, `text`, `response`, `result`,
/// `content` offers (a non-blank text, an object's `text` or `content`, a
/// list's first entry). A key that offers nothing is passed over, and a
/// reply where none offers anything has no text. The text found is never
/// blank.
pub proof fn law_model_text_is_the_first_offered(result: Json, i: int)
    requires
        0 <= i < 5,
    ensures
        outputs_text(result) is Some ==> model_text_of(result) == outputs_text(result),
        outputs_text(result) is None && (forall|j: int| 0 <= j < i ==> offered_text(
            #[trigger] json_get(result, text_keys()[j]),
        ) is None) && offered_text(json_get(result, text_keys()[i])) is Some ==> model_text_of(result)
            == offered_text(json_get(result, text_keys()[i])),
        outputs_text(result) is None && (forall|j: int| 0 <= j < 5 ==> offered_text(
            #[trigger] json_get(result, text_keys()[j]),
        ) is None) ==> model_text_of(result) is None,
        model_text_of(result) matches Some(t) ==> trim(t).len() > 0,
{
    let keys = text_keys();
    assert forall|v: Option<Json>| #[trigger] text_under(v) == offered_text(v) by {
        match v {
            Some(Json::Object(f)) => {
                assert(json_get(Json::Object(f), "text"@) == field_of(f@, "text"@));
                assert(json_get(Json::Object(f), "content"@) == field_of(f@, "content"@));
            },
            _ => {},
        }
    }
    assert(usable_text(first_of(json_get(result, "outputs"@))) <==> outputs_text(result) is Some);
    assert(keys[0] == "output"@ && keys[1] == "text"@ && keys[2] == "response"@ && keys[3] == "result"@
        && keys[4] == "content"@);
    let o0 = json_get(result, keys[0]);
    let o1 = json_get(result, keys[1]);
    let o2 = json_get(result, keys[2]);
    let o3 = json_get(result, keys[3]);
    let o4 = json_get(result, keys[4]);
    assert(text_under(o0) == offered_text(o0));
    assert(text_under(o1) == offered_text(o1));
    assert(text_under(o2) == offered_text(o2));
    assert(text_under(o3) == offered_text(o3));
    assert(text_under(o4) == offered_text(o4));
}

fn usable(v: Option<&Json>) -> (r: Option<String>)
    ensures
        usable_text(match v {
            Some(x) => Some(*x),
            None => None,
        }) ==> (r matches Some(s) && Some(s@) == text_of(match v {
            Some(x) => Some(*x),
            None => None,
        })),
        !usable_text(match v {
            Some(x) => Some(*x),
            None => None,
        }) ==> r is None,
{
    match v {
        Some(Json::Text(s)) => {
            let t = trim_str(s.as_str());
            if t.as_str().is_empty() {
                None
            } else {
                Some(s.clone())
            }
        },
        _ => None,
    }
}

fn first_entry(v: Option<&Json>) -> (r: Option<&Json>)
    ensures
        match r {
            Some(x) => first_of(match v {
                Some(y) => Some(*y),
                None => None,
            }) == Some(*x),
            None => first_of(match v {
                Some(y) => Some(*y),
                None => None,
            }) is None,
        },
{
    match v {
        Some(Json::Array(a)) => if a.len() > 0 {
            Some(&a[0])
        } else {
            None
        },
        _ => None,
    }
}

fn text_under_key(v: Option<&Json>) -> (r: Option<String>)
    ensures
        match r {
            Some(s) => text_under(match v {
                Some(x) => Some(*x),
                None => None,
            }) == Some(s@),
            None => text_under(match v {
                Some(x) => Some(*x),
                None => None,
            }) is None,
        },
{
    if let Some(s) = usable(v) {
        return Some(s);
    }
    if let Some(o) = v {
        if let Json::Object(_) = o {
            if let Some(s) = usable(get(o, "text")) {
                return Some(s);
            }
            if let Some(s) = usable(get(o, "content")) {
                return Some(s);
            }
        }
    }
    usable(first_entry(v))
}

/// Extracts the text of a language model reply; `result_text` is the reply
/// as JSON text, quoted in the error.
pub fn extract_model_text(result: &Json, result_text: &str) -> (r: Result<String, String>)
    ensures
        match model_text_of(*result) {
            Some(t) => r matches Ok(s) && s@ == t,
            None => r matches Err(e) && e@ == "Could not extract gpt-5-mini text from response: "@
                + result_text@,
        },
{
    if let Some(s) = usable(first_entry(get(result, "outputs"))) {
        return Ok(s);
    }
    if let Some(s) = text_under_key(get(result, "output")) {
        return Ok(s);
    }
    if let Some(s) = text_under_key(get(result, "text")) {
        return Ok(s);
    }
    if let Some(s) = text_under_key(get(result, "response")) {
        return Ok(s);
    }
    if let Some(s) = text_under_key(get(result, "result")) {
        return Ok(s);
    }
    if let Some(s) = text_under_key(get(result, "content")) {
        return Ok(s);
    }
    Err(concat2("Could not extract gpt-5-mini text from response: ", result_text))
}

} // verus!
