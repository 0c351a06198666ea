//! Text-to-speech queueing and the Windows speech command.
use vstd::prelude::*;

use crate::text::{chars_of, push_str, replace, replace_spec};

verus! {

/// Whether an utterance is queued for speech: empty text is dropped.
pub fn should_queue(text: &str) -> (b: bool)
    ensures
        b == (text@.len() > 0),
{
    chars_of(text).len() > 0
}

/// The PowerShell command that speaks `text`: straight quotes become typographic ones so
/// that they cannot end the string literal.
pub fn powershell_speak_script(text: &str) -> (script: String)
    ensures
        script@ == "Add-Type -AssemblyName System.Speech; (New-Object System.Speech.Synthesis.SpeechSynthesizer).Speak(\""@
            + replace_spec(replace_spec(text@, "\""@, "\u{201C}"@), "'"@, "\u{2018}"@) + "\")"@,
{
    let a = replace(text, "\"", "\u{201C}");
    let safe = replace(a.as_str(), "'", "\u{2018}");
    let mut script = String::from_str(
        "Add-Type -AssemblyName System.Speech; (New-Object System.Speech.Synthesis.SpeechSynthesizer).Speak(\"",
    );
    push_str(&mut script, safe.as_str());
    push_str(&mut script, "\")");
    script
}

} // verus!
