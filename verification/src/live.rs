//! Gemini Live session helpers: endpoint URLs, frame filtering, audio rates, and the
//! reading of server replies.
use vstd::prelude::*;

use crate::text::{
    chars_of, contains_seq, first_index_of, lemma_first_index_of, lowercase, matches_at, occurs_at, parse_u32,
    parse_u32_spec, push_str, replace, replace_spec, starts_with, str_contains, string_from_range, strip_prefixes,
    strip_prefixes_from, strip_suffixes, strip_suffixes_from, to_lowercase, trim_bounds, trim_range, trim_spec,
};

verus! {

/// The rate a MIME segment names: the segment, trimmed, is `rate=` and a `u32`.
pub open spec fn segment_rate(seg: Seq<char>) -> Option<u32> {
    let t = trim_spec(seg);
    if starts_with(t, "rate="@) {
        parse_u32_spec(t.skip(5))
    } else {
        None
    }
}

/// The rate named by the first `;`-separated segment of `s` that names one.
pub open spec fn audio_rate_in(s: Seq<char>) -> Option<u32>
    decreases s.len(),
{
    let k = first_index_of(s, ';');
    match segment_rate(s.take(k)) {
        Some(r) => Some(r),
        None => if 0 <= k < s.len() {
            audio_rate_in(s.skip(k + 1))
        } else {
            None
        },
    }
}

/// The sample rate of a MIME type such as `audio/pcm;rate=24000`; 24000 (the Gemini
/// Live default) when no segment names one.
pub open spec fn audio_rate_spec(mime: Seq<char>) -> u32 {
    match audio_rate_in(mime) {
        Some(r) => r,
        None => 24000,
    }
}

/// Extracts the sample rate from a MIME type string such as `audio/pcm;rate=24000`.
/// Falls back to 24000 (Gemini Live default) when the field is absent or unparseable.
pub fn parse_audio_rate(mime_type: &str) -> (rate: u32)
    ensures
        rate == audio_rate_spec(mime_type@),
{
    let v = chars_of(mime_type);
    let pat = chars_of("rate=");
    proof {
        reveal_strlit("rate=");
    }
    let mut start: usize = 0;
    assert(v@.skip(0) =~= v@);
    loop
        invariant
            0 <= start <= v.len(),
            v@ == mime_type@,
            pat@ == "rate="@,
            pat@.len() == 5,
            audio_rate_in(v@.skip(start as int)) == audio_rate_in(v@),
        decreases v.len() - start,
    {
        let mut k = start;
        while k < v.len() && v[k] != ';'
            invariant
                start <= k <= v.len(),
                forall|m: int| start <= m < k ==> v@[m] != ';',
            decreases v.len() - k,
        {
            k = k + 1;
        }
        let ghost t = v@.skip(start as int);
        proof {
            lemma_first_index_of(t, ';', k - start);
            assert(t.take(k - start) =~= v@.subrange(start as int, k as int));
        }
        let (a, b) = trim_range(&v, start, k);
        let ghost seg = v@.subrange(a as int, b as int);
        let mut found: Option<u32> = None;
        if b - a >= 5 && matches_at(&v, &pat, a) {
            assert(seg.take(5) =~= v@.subrange(a as int, a + 5));
            assert(seg.skip(5) =~= v@.subrange(a + 5, b as int));
            found = parse_u32(&v, a + 5, b);
        } else {
            proof {
                if starts_with(seg, "rate="@) {
                    assert(seg.take(5) =~= v@.subrange(a as int, a + 5));
                    assert(occurs_at(v@, pat@, a as int));
                }
            }
        }
        assert(found == segment_rate(t.take(k - start)));
        assert(t.len() == v.len() - start);
        assert(audio_rate_in(t) == match found {
            Some(r) => Some(r),
            None => if 0 <= k - start < t.len() {
                audio_rate_in(t.skip(k - start + 1))
            } else {
                None
            },
        });
        if let Some(r) = found {
            return r;
        }
        if k == v.len() {
            return 24000;
        }
        assert(t.skip(k - start + 1) =~= v@.skip(k + 1));
        start = k + 1;
    }
}

/// The text of a server frame when it can hold a JSON object: trimmed, not empty, and
/// starting with `{`.
pub open spec fn json_frame_spec(raw: Seq<char>) -> Option<Seq<char>> {
    let t = trim_spec(raw);
    if t.len() > 0 && t[0] == '{' {
        Some(t)
    } else {
        None
    }
}

/// The trimmed frame text, unless it is empty or does not start with `{`.
pub fn json_frame(raw: &str) -> (r: Option<String>)
    ensures
        r matches Some(t) ==> json_frame_spec(raw@) == Some(t@),
        r is None ==> json_frame_spec(raw@) is None,
{
    let v = chars_of(raw);
    let (a, b) = trim_bounds(&v);
    if a < b && v[a] == '{' {
        Some(string_from_range(&v, a, b))
    } else {
        None
    }
}

/// Lowercased text that points at the API key: it mentions `api key` or `leaked`.
pub open spec fn lowered_blames_key(lower: Seq<char>) -> bool {
    contains_seq(lower, "api key"@) || contains_seq(lower, "leaked"@)
}

/// A close reason that points at the API key: it mentions `api key` or `leaked`,
/// ignoring case.
pub open spec fn close_reason_blames_key(reason: Seq<char>) -> bool {
    lowered_blames_key(lowercase(reason))
}

/// Whether a lowercased close reason asks the user for a new API key.
pub fn lowered_reason_needs_new_key(lower: &str) -> (b: bool)
    ensures
        b == lowered_blames_key(lower@),
{
    str_contains(lower, "api key") || str_contains(lower, "leaked")
}

/// Whether the server's close reason asks the user for a new API key.
pub fn close_reason_needs_new_key(reason: &str) -> (b: bool)
    ensures
        b == close_reason_blames_key(reason@),
{
    let lower = to_lowercase(reason);
    lowered_reason_needs_new_key(lower.as_str())
}

/// A request error that points at the API key: it mentions `leaked`, `API key` or `403`.
pub open spec fn request_error_blames_key(message: Seq<char>) -> bool {
    contains_seq(message, "leaked"@) || contains_seq(message, "API key"@) || contains_seq(message, "403"@)
}

/// Whether a failed Gemini request means the API key was rejected.
pub fn request_error_needs_new_key(message: &str) -> (b: bool)
    ensures
        b == request_error_blames_key(message@),
{
    str_contains(message, "leaked") || str_contains(message, "API key") || str_contains(message, "403")
}

/// A model reply with Markdown code fences removed: trimmed, leading ```` ```json ````
/// then leading ```` ``` ```` removed, trailing ```` ``` ```` removed, trimmed again.
pub open spec fn unfenced_spec(raw: Seq<char>) -> Seq<char> {
    trim_spec(strip_suffixes(strip_prefixes(strip_prefixes(trim_spec(raw), "```json"@), "```"@), "```"@))
}

/// Strips the Markdown code fences that models may wrap JSON replies in.
pub fn strip_code_fences(raw: &str) -> (r: String)
    ensures
        r@ == unfenced_spec(raw@),
{
    let v = chars_of(raw);
    let json_fence = chars_of("```json");
    let fence = chars_of("```");
    let (a0, b0) = trim_bounds(&v);
    assert(v@.subrange(0, v.len() as int) =~= v@);
    let a1 = strip_prefixes_from(&v, a0, b0, &json_fence);
    let a2 = strip_prefixes_from(&v, a1, b0, &fence);
    let b1 = strip_suffixes_from(&v, a2, b0, &fence);
    let (a3, b3) = trim_range(&v, a2, b1);
    string_from_range(&v, a3, b3)
}

/// The Gemini Live endpoint: the template with `{key}` replaced by the API key.
pub fn live_ws_url(template: &str, api_key: &str) -> (url: String)
    ensures
        url@ == replace_spec(template@, "{key}"@, api_key@),
{
    replace(template, "{key}", api_key)
}

/// A URL fit for the logs: the API key replaced by `<redacted>`.
pub fn redact_key(url: &str, api_key: &str) -> (r: String)
    ensures
        r@ == replace_spec(url@, api_key@, "<redacted>"@),
{
    replace(url, api_key, "<redacted>")
}

/// The model resource name sent in the Live setup message: `models/{model}`.
pub fn live_model_name(model: &str) -> (r: String)
    ensures
        r@ == "models/"@ + model@,
{
    let mut r = String::from_str("models/");
    push_str(&mut r, model);
    r
}

/// The streaming `generateContent` endpoint for a model and API key.
pub fn summary_url(model: &str, api_key: &str) -> (r: String)
    ensures
        r@ == "https://generativelanguage.googleapis.com/v1beta/models/"@ + model@
            + ":streamGenerateContent?alt=sse&key="@ + api_key@,
{
    let mut r = String::from_str("https://generativelanguage.googleapis.com/v1beta/models/");
    push_str(&mut r, model);
    push_str(&mut r, ":streamGenerateContent?alt=sse&key=");
    push_str(&mut r, api_key);
    r
}

} // verus!
