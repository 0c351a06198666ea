//! Answers of the interactive setup wizard.
use vstd::prelude::*;

use crate::text::{chars_of, lowercase, str_equals, to_lowercase, trim, trim_spec};

verus! {

/// The voice setting after an answer that is already trimmed and lowercased: `n`
/// turns voice off; `y` or an empty answer turns it on; anything else keeps it.
pub open spec fn voice_setting_spec(a: Seq<char>, current: bool) -> bool {
    if a == "n"@ {
        false
    } else if a == "y"@ || a.len() == 0 {
        true
    } else {
        current
    }
}

/// The voice setting after the user's answer, trimmed then lowercased.
pub open spec fn voice_answer_spec(answer: Seq<char>, current: bool) -> bool {
    voice_setting_spec(lowercase(trim_spec(answer)), current)
}

/// Applies a trimmed, lowercased answer to the voice setting.
pub fn voice_setting(answer: &str, current: bool) -> (enabled: bool)
    ensures
        enabled == voice_setting_spec(answer@, current),
{
    if str_equals(answer, "n") {
        false
    } else if str_equals(answer, "y") || chars_of(answer).len() == 0 {
        true
    } else {
        current
    }
}

/// Applies the answer to "Enable Voice Narration? (y/n, default: y)".
pub fn voice_answer(answer: &str, current: bool) -> (enabled: bool)
    ensures
        enabled == voice_answer_spec(answer@, current),
{
    let t = trim(answer);
    let a = to_lowercase(t.as_str());
    voice_setting(a.as_str(), current)
}

/// The API key the user typed, trimmed; `None` when the answer is blank (the key is kept).
pub fn api_key_answer(answer: &str) -> (key: Option<String>)
    ensures
        key matches Some(k) ==> k@ == trim_spec(answer@) && k@.len() > 0,
        key is None ==> trim_spec(answer@).len() == 0,
{
    let t = trim(answer);
    if chars_of(t.as_str()).len() > 0 {
        Some(t)
    } else {
        None
    }
}

} // verus!
