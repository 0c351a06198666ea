//! JSON framing of the messages sent to Gemini, written as `serde_json` writes them.
use vstd::prelude::*;

use crate::cache::{hex_char, hex_digit};
use crate::text::{chars_of, push_char_of, push_str};

verus! {

/// How `serde_json` writes one character inside a string literal.
pub open spec fn escape_char(c: char) -> Seq<char> {
    if c == '"' {
        seq!['\\', '"']
    } else if c == '\\' {
        seq!['\\', '\\']
    } else if c == '\u{8}' {
        seq!['\\', 'b']
    } else if c == '\t' {
        seq!['\\', 't']
    } else if c == '\n' {
        seq!['\\', 'n']
    } else if c == '\u{c}' {
        seq!['\\', 'f']
    } else if c == '\r' {
        seq!['\\', 'r']
    } else if (c as int) < 32 {
        seq!['\\', 'u', '0', '0', hex_digit(c as int / 16), hex_digit(c as int % 16)]
    } else {
        seq![c]
    }
}

/// The escaped contents of a JSON string literal.
pub open spec fn escape_spec(s: Seq<char>) -> Seq<char>
    decreases s.len(),
{
    if s.len() == 0 {
        seq![]
    } else {
        escape_spec(s.drop_last()) + escape_char(s.last())
    }
}

/// A JSON string literal: quoted and escaped.
pub open spec fn json_string(s: Seq<char>) -> Seq<char> {
    "\""@ + escape_spec(s) + "\""@
}

/// The character with code point `k`.
pub open spec fn code_char(k: int) -> char {
    k as char
}

/// Whether `c` is below U+0020.
fn is_control(c: char) -> (b: bool)
    ensures
        b == ((c as int) < 32),
{
    '\u{1f}' >= c
}

/// The code point of a control character.
fn control_code(c: char) -> (n: u32)
    requires
        (c as int) < 32,
    ensures
        n == c as int,
        n < 32,
{
    let mut n: u8 = 0;
    while n < 31 && (n as char) != c
        invariant
            0 <= n <= 31,
            forall|k: int| 0 <= k < n ==> #[trigger] code_char(k) != c,
        decreases 31 - n,
    {
        n = n + 1;
    }
    assert((n as char) as int == n as int);
    proof {
        if (c as int) < n {
            assert(code_char(c as int) == c);
        }
    }
    n as u32
}

/// Appends `s` as a JSON string literal.
pub fn push_json_string(out: &mut String, s: &str)
    ensures
        final(out)@ == old(out)@ + json_string(s@),
{
    let v = chars_of(s);
    push_char_of(out, '"');
    let ghost start = out@;
    let mut i: usize = 0;
    while i < v.len()
        invariant
            0 <= i <= v.len(),
            out@ == start + escape_spec(v@.take(i as int)),
        decreases v.len() - i,
    {
        let c = v[i];
        let ghost before = out@;
        if c == '"' {
            push_char_of(out, '\\');
            push_char_of(out, '"');
        } else if c == '\\' {
            push_char_of(out, '\\');
            push_char_of(out, '\\');
        } else if c == '\u{8}' {
            push_char_of(out, '\\');
            push_char_of(out, 'b');
        } else if c == '\t' {
            push_char_of(out, '\\');
            push_char_of(out, 't');
        } else if c == '\n' {
            push_char_of(out, '\\');
            push_char_of(out, 'n');
        } else if c == '\u{c}' {
            push_char_of(out, '\\');
            push_char_of(out, 'f');
        } else if c == '\r' {
            push_char_of(out, '\\');
            push_char_of(out, 'r');
        } else if is_control(c) {
            let n = control_code(c);
            push_char_of(out, '\\');
            push_char_of(out, 'u');
            push_char_of(out, '0');
            push_char_of(out, '0');
            push_char_of(out, hex_char((n / 16) as u8));
            push_char_of(out, hex_char((n % 16) as u8));
        } else {
            push_char_of(out, c);
        }
        assert(out@ =~= before + escape_char(c));
        assert(v@.take(i + 1).drop_last() =~= v@.take(i as int));
        assert(v@.take(i + 1).last() == c);
        i = i + 1;
    }
    assert(v@.take(v.len() as int) =~= v@);
    push_char_of(out, '"');
    proof {
        reveal_strlit("\"");
    }
    assert(out@ =~= old(out)@ + json_string(s@));
}

/// The prompt that asks the user for their notification preferences.
pub open spec fn setup_prompt_spec(style: Seq<char>) -> Seq<char> {
    "{\"goal\":\"Prompt the user to setup their system preferences for alert notifications.\",\"instructions\":[\"Ask the user if they would like daily, hourly, or minute-by-minute updates of their system health and resources.\",\"Explain that you will provide updates on health, resources, and running processes, along with optimization suggestions.\",\"Output your decision in RAW JSON format. No markdown blocks.\"],\"output_format\":{\"priority\":\"high\",\"setup_info\":{\"completed\":\"boolean\",\"frequency\":\"daily|hourly|minute|none\"},\"speak\":\"boolean\",\"utterance\":\"string\"},\"role\":\"system monitor narrator\",\"style\":"@
        + json_string(style) + "}"@
}

/// The setup prompt: a JSON object with sorted keys, as `serde_json` writes a map.
pub fn setup_prompt_json(style: &str) -> (r: String)
    ensures
        r@ == setup_prompt_spec(style@),
{
    let mut r = String::from_str(
        "{\"goal\":\"Prompt the user to setup their system preferences for alert notifications.\",\"instructions\":[\"Ask the user if they would like daily, hourly, or minute-by-minute updates of their system health and resources.\",\"Explain that you will provide updates on health, resources, and running processes, along with optimization suggestions.\",\"Output your decision in RAW JSON format. No markdown blocks.\"],\"output_format\":{\"priority\":\"high\",\"setup_info\":{\"completed\":\"boolean\",\"frequency\":\"daily|hourly|minute|none\"},\"speak\":\"boolean\",\"utterance\":\"string\"},\"role\":\"system monitor narrator\",\"style\":",
    );
    push_json_string(&mut r, style);
    push_str(&mut r, "}");
    r
}

/// A user turn of the Live session holding `text`, complete.
pub fn client_content_json(text: &str) -> (r: String)
    ensures
        r@ == "{\"clientContent\":{\"turnComplete\":true,\"turns\":[{\"parts\":[{\"text\":"@ + json_string(text@)
            + "}],\"role\":\"user\"}]}}"@,
{
    let mut r = String::from_str("{\"clientContent\":{\"turnComplete\":true,\"turns\":[{\"parts\":[{\"text\":");
    push_json_string(&mut r, text);
    push_str(&mut r, "}],\"role\":\"user\"}]}}");
    r
}

/// One chunk of microphone audio (16 kHz PCM, base64) for the Live session.
pub fn realtime_input_json(base64_audio: &str) -> (r: String)
    ensures
        r@ == "{\"realtimeInput\":{\"mediaChunks\":[{\"mimeType\":\"audio/pcm;rate=16000\",\"data\":"@ + json_string(
            base64_audio@,
        ) + "}]}}"@,
{
    let mut r = String::from_str("{\"realtimeInput\":{\"mediaChunks\":[{\"mimeType\":\"audio/pcm;rate=16000\",\"data\":");
    push_json_string(&mut r, base64_audio);
    push_str(&mut r, "}]}}");
    r
}

/// The setup message of a Live session: the model, the `Puck` voice, audio replies, and
/// the system instruction when there is one.
pub open spec fn live_setup_spec(model: Seq<char>, instruction: Option<Seq<char>>) -> Seq<char> {
    "{\"setup\":{\"model\":"@ + json_string(model)
        + ",\"generationConfig\":{\"speechConfig\":{\"voiceConfig\":{\"prebuiltVoiceConfig\":{\"voiceName\":\"Puck\"}}},\"responseModalities\":[\"AUDIO\"]}"@
        + match instruction {
        Some(t) => ",\"systemInstruction\":{\"role\":\"system\",\"parts\":[{\"text\":"@ + json_string(t) + "}]}"@,
        None => seq![],
    } + "}}"@
}

/// The setup message of a Live session for `model` (already `models/...`).
pub fn live_setup_json(model: &str, instruction: &Option<String>) -> (r: String)
    ensures
        r@ == live_setup_spec(
            model@,
            match instruction {
                Some(t) => Some(t@),
                None => None,
            },
        ),
{
    let mut r = String::from_str("{\"setup\":{\"model\":");
    push_json_string(&mut r, model);
    push_str(
        &mut r,
        ",\"generationConfig\":{\"speechConfig\":{\"voiceConfig\":{\"prebuiltVoiceConfig\":{\"voiceName\":\"Puck\"}}},\"responseModalities\":[\"AUDIO\"]}",
    );
    if let Some(t) = instruction {
        push_str(&mut r, ",\"systemInstruction\":{\"role\":\"system\",\"parts\":[{\"text\":");
        push_json_string(&mut r, t.as_str());
        push_str(&mut r, "}]}");
    }
    push_str(&mut r, "}}");
    r
}

} // verus!
