use internalvoice::audio::{decode_pcm, encode_pcm, pcm_bytes, pcm_decode_error, pcm_packet};
use internalvoice::cache::{cache_clock, cache_cutoff, hash, hex_digest};
use internalvoice::json::{client_content_json, live_setup_json, realtime_input_json, setup_prompt_json};
use internalvoice::live::{
    close_reason_needs_new_key, json_frame, live_model_name, live_ws_url, parse_audio_rate, redact_key,
    lowered_reason_needs_new_key, request_error_needs_new_key, strip_code_fences, summary_url,
};
use internalvoice::setup::{api_key_answer, voice_answer, voice_setting};
use internalvoice::sse::{SseDecoder, SummaryStream};
use internalvoice::gemini::{ResponseContent, ResponsePart};
use internalvoice::text::{is_blank, replace, str_contains, trim};
use internalvoice::tts::{powershell_speak_script, should_queue};

#[test]
fn audio_rate_parsing() {
    assert_eq!(parse_audio_rate("audio/pcm;rate=24000"), 24000);
    assert_eq!(parse_audio_rate("audio/pcm;rate=16000"), 16000);
    assert_eq!(parse_audio_rate("audio/pcm; rate=44100 ;x=1"), 44100);
    assert_eq!(parse_audio_rate("audio/pcm"), 24000);
    assert_eq!(parse_audio_rate(""), 24000);
    assert_eq!(parse_audio_rate("audio/pcm;rate=abc;rate=8000"), 8000);
    assert_eq!(parse_audio_rate("audio/pcm;rate=+22050"), 22050);
    assert_eq!(parse_audio_rate("audio/pcm;rate=4294967296"), 24000);
    assert_eq!(parse_audio_rate("rate=4294967295"), 4294967295);
    assert_eq!(parse_audio_rate("audio/pcm;rate="), 24000);
}

#[test]
fn json_frames() {
    assert_eq!(json_frame("  {\"a\":1}\n").as_deref(), Some("{\"a\":1}"));
    assert_eq!(json_frame("   "), None);
    assert_eq!(json_frame("[1]"), None);
}

#[test]
fn key_problems_detected() {
    assert!(close_reason_needs_new_key("API Key not valid"));
    assert!(close_reason_needs_new_key("Your key was LEAKED"));
    assert!(!close_reason_needs_new_key("going away"));
    assert!(close_reason_needs_new_key("THE API KEY IS BAD"));
    assert!(!close_reason_needs_new_key("ÀPI KEY"));
    assert!(!close_reason_needs_new_key("API KEX"));
    assert!(lowered_reason_needs_new_key("bad api key"));
    assert!(!lowered_reason_needs_new_key("bad API key"));
    assert!(request_error_needs_new_key("gemini api error: request failed with 403 Forbidden: denied"));
    assert!(request_error_needs_new_key("API key expired"));
    assert!(!request_error_needs_new_key("api key expired"));
    assert!(!request_error_needs_new_key("server returned 500"));
}

#[test]
fn code_fences_stripped() {
    assert_eq!(strip_code_fences("```json\n{\"speak\":true}\n```"), "{\"speak\":true}");
    assert_eq!(strip_code_fences("  ```\n{}\n``` "), "{}");
    assert_eq!(strip_code_fences("{}"), "{}");
    assert_eq!(strip_code_fences("``````"), "");
}

#[test]
fn endpoints() {
    let url = live_ws_url("wss://host/path?key={key}", "SECRET-REDACTED");
    assert_eq!(url, "wss://host/path?key=SECRET-REDACTED");
    assert_eq!(redact_key(&url, "SECRET-REDACTED"), "wss://host/path?key=<redacted>");
    assert_eq!(redact_key("ab", ""), "<redacted>a<redacted>b<redacted>");
    assert_eq!(live_model_name("gemini-live"), "models/gemini-live");
    assert_eq!(
        summary_url("m", "k"),
        "https://generativelanguage.googleapis.com/v1beta/models/m:streamGenerateContent?alt=sse&key=k"
    );
}

#[test]
fn replace_matches_std() {
    for (s, p, r) in [("aaaa", "aa", "b"), ("abc", "", "-"), ("", "", "x"), ("xyz", "q", "r"), ("héllo wörld", "ö", "o")] {
        assert_eq!(replace(s, p, r), s.replace(p, r));
    }
}

#[test]
fn trimming_and_search() {
    assert_eq!(trim("\u{3000} hi \t\n"), "hi");
    assert!(is_blank(" \u{a0}\u{2028}"));
    assert!(!is_blank(" x "));
    assert!(str_contains("hello world", "o w"));
    assert!(str_contains("abc", ""));
    assert!(!str_contains("ab", "abc"));
}

#[test]
fn sse_lines_across_chunks() {
    let mut d = SseDecoder::new();
    let b = d.feed("data: {\"a\"");
    assert!(b.payloads.is_empty());
    assert!(!b.done);
    let b = d.feed(":1}\n: comment\ndata: second\n");
    assert_eq!(b.payloads, vec!["{\"a\":1}".to_string(), "second".to_string()]);
    assert!(!b.done);
    let b = d.feed("data: third\ndata:  [DONE] \ndata: ignored\n");
    assert_eq!(b.payloads, vec!["third".to_string()]);
    assert!(b.done);
}

#[test]
fn sse_chunking_does_not_matter() {
    let stream = "data: one\n: note\ndata: two\r\ndata: [DONE]\ndata: late\n";
    let mut whole = SseDecoder::new();
    let all = whole.feed(stream);
    for cut in 0..=stream.len() {
        let mut d = SseDecoder::new();
        let first = d.feed(&stream[..cut]);
        let mut payloads = first.payloads.clone();
        let mut done = first.done;
        if !done {
            let second = d.feed(&stream[cut..]);
            payloads.extend(second.payloads);
            done = second.done;
        }
        assert_eq!(payloads, all.payloads, "cut at {}", cut);
        assert_eq!(done, all.done);
    }
    assert_eq!(all.payloads, vec!["one".to_string(), "two\r".to_string()]);
    assert!(all.done);
}

#[test]
fn summary_accumulates_and_trims() {
    let mut s = SummaryStream::start(5);
    let content = ResponseContent {
        parts: vec![
            ResponsePart { text: Some("  Hello".to_string()), inline_data: None },
            ResponsePart { text: None, inline_data: None },
            ResponsePart { text: Some(" world ".to_string()), inline_data: None },
        ],
    };
    s.absorb(&content);
    assert_eq!(s.finish(), "Hello world");
    assert!(!s.timed_out(5 + 30_000_000_000, 30));
    assert!(s.timed_out(5 + 30_000_000_001, 30));
}

#[test]
fn prompt_cache_keys() {
    assert_eq!(hash(""), "e3b0c44298fc1c149afbf4c8996fb92427ae41e4649b934ca495991b7852b855");
    assert_eq!(hash("abc"), "ba7816bf8f01cfea414140de5dae2223b00361a396177a9cb410ff61f20015ad");
    assert_eq!(cache_cutoff(100, 30), 70);
    assert_eq!(cache_cutoff(10, 30), 0);
    let (now, cutoff) = cache_clock(3600);
    assert!(now > 1_600_000_000);
    assert_eq!(cutoff, now - 3600);
    assert_eq!(hex_digest(&vec![0x00, 0x0f, 0xa0, 0xff]), "000fa0ff");
    assert_eq!(hex_digest(&vec![]), "");
}

#[test]
fn pcm_round_trip() {
    let samples: Vec<i16> = (0..40).map(|i| (i * 1000 - 20000) as i16).collect();
    let b64 = encode_pcm(&samples);
    let decoded = decode_pcm(&b64).unwrap().unwrap();
    assert_eq!(decoded, samples);
    assert_eq!(encode_pcm(&vec![1, -1]), "AQD//w==");
    assert_eq!(encode_pcm(&vec![0; 3]).len(), 8);
    assert!(encode_pcm(&vec![-32768, 32767, 7]).is_ascii());
    assert_eq!(decode_pcm("AQD//w==").unwrap(), None);
    assert_eq!(pcm_bytes(&vec![1, -1, 256]), vec![1, 0, 255, 255, 0, 1]);
    assert_eq!(pcm_packet(&vec![0; 63]), None);
    let packet: Vec<u8> = (0..65u8).collect();
    let s = pcm_packet(&packet).unwrap();
    assert_eq!(s.len(), 32);
    assert_eq!(s[0], 0x0100);
    assert_eq!(s[31], i16::from_le_bytes([62, 63]));
    match pcm_decode_error("bad") {
        internalvoice::error::InternalVoiceError::Audio(m) => assert_eq!(m, "Base64 decode error: bad"),
        other => panic!("unexpected {:?}", other),
    }
    match decode_pcm("!!!") {
        Err(internalvoice::error::InternalVoiceError::Audio(m)) => assert!(m.starts_with("Base64 decode error: ")),
        other => panic!("unexpected {:?}", other),
    }
}

fn obj(pairs: Vec<(&str, serde_json::Value)>) -> serde_json::Value {
    let mut m = serde_json::Map::new();
    for (k, v) in pairs {
        m.insert(k.to_string(), v);
    }
    serde_json::Value::Object(m)
}

fn s(x: &str) -> serde_json::Value {
    serde_json::Value::String(x.to_string())
}

#[test]
fn json_messages() {
    let expected = obj(vec![
        ("role", s("system monitor narrator")),
        ("style", s("calm \"quiet\"")),
        ("goal", s("Prompt the user to setup their system preferences for alert notifications.")),
        (
            "instructions",
            serde_json::Value::Array(vec![
                s("Ask the user if they would like daily, hourly, or minute-by-minute updates of their system health and resources."),
                s("Explain that you will provide updates on health, resources, and running processes, along with optimization suggestions."),
                s("Output your decision in RAW JSON format. No markdown blocks."),
            ]),
        ),
        (
            "output_format",
            obj(vec![
                ("speak", s("boolean")),
                ("utterance", s("string")),
                ("priority", s("high")),
                ("setup_info", obj(vec![("frequency", s("daily|hourly|minute|none")), ("completed", s("boolean"))])),
            ]),
        ),
    ]);
    assert_eq!(setup_prompt_json("calm \"quiet\""), expected.to_string());
    let text = "line\n\ttab \u{1} \\ é \u{7f}";
    let expected = obj(vec![(
        "clientContent",
        obj(vec![
            (
                "turns",
                serde_json::Value::Array(vec![obj(vec![
                    ("role", s("user")),
                    ("parts", serde_json::Value::Array(vec![obj(vec![("text", s(text))])])),
                ])]),
            ),
            ("turnComplete", serde_json::Value::Bool(true)),
        ]),
    )]);
    assert_eq!(client_content_json(text), expected.to_string());
    assert_eq!(
        realtime_input_json("QUJD"),
        "{\"realtimeInput\":{\"mediaChunks\":[{\"mimeType\":\"audio/pcm;rate=16000\",\"data\":\"QUJD\"}]}}"
    );
    let setup = live_setup_json("models/m", &Some("be brief".to_string()));
    let v: serde_json::Value = serde_json::from_str(&setup).unwrap();
    assert_eq!(v["setup"]["model"], "models/m");
    assert_eq!(v["setup"]["systemInstruction"]["parts"][0]["text"], "be brief");
    assert_eq!(v["setup"]["generationConfig"]["responseModalities"][0], "AUDIO");
    assert!(!live_setup_json("models/m", &None).contains("systemInstruction"));
}

#[test]
fn setup_answers() {
    assert!(!voice_answer(" N \n", true));
    assert!(voice_answer("Y", false));
    assert!(voice_answer("   ", false));
    assert!(voice_answer("maybe", true));
    assert!(!voice_answer("maybe", false));
    assert!(!voice_setting("n", true));
    assert!(voice_setting("N", true));
    assert!(!voice_setting("N", false));
    assert!(voice_setting("", false));
    assert_eq!(api_key_answer("  k-123 \n").as_deref(), Some("k-123"));
    assert_eq!(api_key_answer(" \n"), None);
}

#[test]
fn tts_helpers() {
    assert!(!should_queue(""));
    assert!(should_queue("hi"));
    assert_eq!(
        powershell_speak_script("say \"it's\""),
        "Add-Type -AssemblyName System.Speech; (New-Object System.Speech.Synthesis.SpeechSynthesizer).Speak(\"say \u{201C}it\u{2018}s\u{201C}\")"
    );
}
