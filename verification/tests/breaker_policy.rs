use std::collections::VecDeque;

use internalvoice::breaker::CircuitBreaker;
use internalvoice::clock::{has_elapsed, has_seconds_passed, Timestamp};
use internalvoice::config::NotificationFrequency;
use internalvoice::error::InternalVoiceError;
use internalvoice::gemini::RequestGuard;
use internalvoice::model::{AlertSeverity, Level, SystemAlert};
use internalvoice::policy::{
    check_periodic, is_resource_pressure, plan_decision, plan_live_reply, InterruptionDecision, NarrationPolicy,
    PolicyEngine, SetupInfo, StateSummary,
};

const SEC: u64 = 1_000_000_000;

fn level(x: f32) -> Level {
    if x.is_nan() {
        return Level { key: None };
    }
    let bits = x.to_bits() as i32;
    Level { key: Some(if bits < 0 { -(bits & 0x7fff_ffff) } else { bits }) }
}

fn ts(secs: i64) -> Timestamp {
    Timestamp { secs, nanos: 0 }
}

fn policy(frequency: NotificationFrequency, setup_completed: bool) -> NarrationPolicy {
    NarrationPolicy {
        frequency,
        setup_completed,
        min_announcement_interval_secs: 300,
        voice_enabled: true,
        cpu_above: level(90.0),
        memory_above: level(90.0),
        battery_below: level(20.0),
    }
}

fn calm(at: i64) -> StateSummary {
    StateSummary { collected_at_secs: at, alerts: Vec::new(), cpu: level(10.0), memory: level(20.0), battery: None }
}

fn alert(severity: AlertSeverity) -> SystemAlert {
    SystemAlert { severity, code: "x".to_string(), message: "m".to_string() }
}

#[test]
fn breaker_opens_after_threshold_failures() {
    let mut b = CircuitBreaker::new();
    b.record_failure(1 * SEC, 3, 60 * SEC);
    b.record_failure(2 * SEC, 3, 60 * SEC);
    assert!(b.ensure_closed(3 * SEC).is_ok());
    b.record_failure(3 * SEC, 3, 60 * SEC);
    assert_eq!(b.consecutive_failures, 3);
    assert_eq!(b.open_until, Some(63 * SEC));
    match b.ensure_closed(10 * SEC) {
        Err(InternalVoiceError::Gemini(m)) => assert_eq!(m, "circuit breaker is open after repeated failures"),
        other => panic!("unexpected {:?}", other),
    }
}

#[test]
fn breaker_closes_after_reset_time() {
    let mut b = CircuitBreaker::new();
    b.record_failure(0, 1, 5 * SEC);
    assert!(b.ensure_closed(4 * SEC).is_err());
    assert!(b.ensure_closed(5 * SEC).is_ok());
    assert_eq!(b.consecutive_failures, 0);
    assert_eq!(b.open_until, None);
}

#[test]
fn breaker_success_resets() {
    let mut b = CircuitBreaker::new();
    b.record_failure(0, 2, SEC);
    b.record_failure(0, 2, SEC);
    b.record_success();
    assert_eq!(b.consecutive_failures, 0);
    assert!(b.ensure_closed(0).is_ok());
}

#[test]
fn request_guard_uses_configured_reset() {
    let mut g = RequestGuard::new(2, 30);
    g.record_failure(SEC);
    assert!(g.ensure_closed(SEC).is_ok());
    g.record_failure(2 * SEC);
    assert_eq!(g.breaker.open_until, Some(32 * SEC));
    assert!(g.ensure_closed(31 * SEC).is_err());
    assert!(g.ensure_closed(32 * SEC).is_ok());
    g.record_success();
    assert_eq!(g.breaker.consecutive_failures, 0);
}

#[test]
fn clock_helpers() {
    assert!(has_seconds_passed(&ts(160), &ts(100), 60));
    assert!(!has_seconds_passed(&Timestamp { secs: 159, nanos: 999_999_999 }, &ts(100), 60));
    assert!(has_elapsed(10 * SEC, 4 * SEC, 6));
    assert!(!has_elapsed(10 * SEC, 4 * SEC, 7));
    assert!(!has_elapsed(1, 2, 1));
    assert!(has_elapsed(1, 2, 0));
}

#[test]
fn periodic_schedule() {
    assert!(!check_periodic(NotificationFrequency::Off, None, &ts(0)));
    assert!(check_periodic(NotificationFrequency::Hourly, None, &ts(0)));
    assert!(!check_periodic(NotificationFrequency::Minute, Some(ts(0)), &ts(59)));
    assert!(check_periodic(NotificationFrequency::Minute, Some(ts(0)), &ts(60)));
    assert!(!check_periodic(NotificationFrequency::Hourly, Some(ts(0)), &ts(3599)));
    assert!(check_periodic(NotificationFrequency::Hourly, Some(ts(0)), &ts(3600)));
    assert!(!check_periodic(NotificationFrequency::Daily, Some(ts(0)), &ts(86399)));
    assert!(check_periodic(NotificationFrequency::Daily, Some(ts(0)), &ts(86400)));
    assert!(!check_periodic(NotificationFrequency::Daily, Some(ts(100)), &ts(0)));
}

#[test]
fn resource_pressure_cases() {
    let p = policy(NotificationFrequency::Off, true);
    assert!(!is_resource_pressure(&calm(0), &p));
    let mut s = calm(0);
    s.cpu = level(90.0);
    assert!(is_resource_pressure(&s, &p));
    let mut s = calm(0);
    s.memory = level(95.5);
    assert!(is_resource_pressure(&s, &p));
    let mut s = calm(0);
    s.battery = Some(level(20.0));
    assert!(is_resource_pressure(&s, &p));
    s.battery = Some(level(20.5));
    assert!(!is_resource_pressure(&s, &p));
    let mut s = calm(0);
    s.cpu = level(f32::NAN);
    assert!(!is_resource_pressure(&s, &p));
    let mut s = calm(0);
    s.alerts.push(alert(AlertSeverity::Warning));
    assert!(!is_resource_pressure(&s, &p));
    s.alerts.push(alert(AlertSeverity::Critical));
    assert!(is_resource_pressure(&s, &p));
}

#[test]
fn quiet_state_builds_no_prompt() {
    let mut e: PolicyEngine<u32> = PolicyEngine::new();
    let r = e.build_prompt(1, &calm(1000), &policy(NotificationFrequency::Off, true), 0, ts(1000));
    assert!(r.is_none());
    assert_eq!(e.state_history().len(), 1);
}

#[test]
fn alert_builds_prompt_with_cache_key() {
    let mut e: PolicyEngine<u32> = PolicyEngine::new();
    let mut s = calm(-5);
    s.alerts.push(alert(AlertSeverity::Warning));
    let d = e.build_prompt(7, &s, &policy(NotificationFrequency::Off, true), 0, ts(1000)).expect("prompt");
    assert_eq!(d.cache_key, "-5:1:0:false");
    assert!(!d.is_periodic);
    assert!(d.should_speak);
}

#[test]
fn debounce_blocks_second_announcement() {
    let mut e: PolicyEngine<u32> = PolicyEngine::new();
    let mut s = calm(1);
    s.alerts.push(alert(AlertSeverity::Warning));
    let p = policy(NotificationFrequency::Off, true);
    assert!(e.build_prompt(1, &s, &p, 10 * SEC, ts(1)).is_some());
    assert!(e.build_prompt(2, &s, &p, 309 * SEC, ts(300)).is_none());
    assert!(e.build_prompt(3, &s, &p, 310 * SEC, ts(301)).is_some());
}

#[test]
fn first_periodic_update_is_immediate() {
    let mut e: PolicyEngine<u32> = PolicyEngine::new();
    let p = policy(NotificationFrequency::Minute, true);
    let d = e.build_prompt(1, &calm(42), &p, 0, ts(42)).expect("periodic");
    assert!(d.is_periodic);
    assert_eq!(d.cache_key, "42:0:0:true");
    assert!(e.build_prompt(2, &calm(43), &p, 1, ts(43)).is_none());
    let d = e.build_prompt(3, &calm(102), &p, 2, ts(102)).expect("next minute");
    assert!(d.is_periodic);
}

#[test]
fn setup_pending_always_prompts() {
    let mut e: PolicyEngine<u32> = PolicyEngine::new();
    let p = policy(NotificationFrequency::Off, false);
    assert!(e.build_prompt(1, &calm(1), &p, 0, ts(1)).is_some());
}

#[test]
fn histories_are_bounded() {
    let mut e: PolicyEngine<u32> = PolicyEngine::new();
    let p = policy(NotificationFrequency::Off, true);
    for i in 0..15u32 {
        let _ = e.build_prompt(i, &calm(i as i64), &p, 0, ts(0));
    }
    let h: Vec<u32> = e.state_history().iter().copied().collect();
    assert_eq!(h, (5..15).collect::<Vec<u32>>());
    for i in 0..7 {
        e.record_spoken(format!("m{}", i), ts(i));
    }
    let m: VecDeque<String> = e.message_history().iter().map(|m| m.utterance.clone()).collect();
    assert_eq!(m, VecDeque::from(vec!["m2".to_string(), "m3".into(), "m4".into(), "m5".into(), "m6".into()]));
}

#[test]
fn cache_key_counts_spoken_messages() {
    let mut e: PolicyEngine<u32> = PolicyEngine::new();
    e.record_spoken("hello".to_string(), ts(1));
    e.record_spoken("again".to_string(), ts(2));
    let mut s = calm(1700000000);
    s.alerts.push(alert(AlertSeverity::Critical));
    s.alerts.push(alert(AlertSeverity::Info));
    let d = e.build_prompt(0, &s, &policy(NotificationFrequency::Off, true), 0, ts(1)).unwrap();
    assert_eq!(d.cache_key, "1700000000:2:2:false");
}

#[test]
fn system_instructions_text() {
    let engine: PolicyEngine<u32> = PolicyEngine::new();
    let with_setup = engine.system_instructions("concise", "", false);
    let lines: Vec<&str> = with_setup.split('\n').collect();
    assert_eq!(lines.len(), 13);
    assert_eq!(lines[0], "You are InternalVoice, an AI System Monitor & Assistant.");
    assert_eq!(lines[1], "Your style is concise.");
    assert_eq!(lines[2], "You are a system monitor narrator.");
    assert_eq!(lines[9], "CRITICAL: The user has not set up their alert preferences yet.");
    assert_eq!(
        lines[12],
        "When providing updates, also include suggestions on ways to optimize system resources based on the current state."
    );
    let done = engine.system_instructions("warm", "Skill text", true);
    let lines: Vec<&str> = done.split('\n').collect();
    assert_eq!(lines.len(), 10);
    assert_eq!(lines[2], "Skill text");
}

#[test]
fn decision_plans() {
    let d = InterruptionDecision {
        speak: true,
        utterance: Some("CPU is hot".to_string()),
        priority: Some("high".to_string()),
        setup_info: Some(SetupInfo { frequency: NotificationFrequency::Hourly, completed: true }),
    };
    let p = plan_decision(d, false);
    let prefs = p.preferences.unwrap();
    assert_eq!(prefs.frequency, NotificationFrequency::Hourly);
    assert!(prefs.setup_completed);
    assert_eq!(p.utterance.as_deref(), Some("CPU is hot"));
    assert!(!p.speak_aloud);
    let quiet = InterruptionDecision { speak: false, utterance: Some("x".to_string()), priority: None, setup_info: None };
    let p = plan_decision(quiet, true);
    assert!(p.preferences.is_none());
    assert!(p.utterance.is_none());
    assert!(!p.speak_aloud);
}

#[test]
fn setup_prompt_is_spoken_when_voice_is_on() {
    let engine: PolicyEngine<u32> = PolicyEngine::new();
    let p = engine.build_setup_prompt("concise and helpful", true);
    assert_eq!(p.cache_key, "setup_prompt");
    assert!(p.should_speak);
    let v: serde_json::Value = serde_json::from_str(&p.prompt).unwrap();
    assert_eq!(v["style"], "concise and helpful");
    assert_eq!(v["output_format"]["priority"], "high");
    assert!(!engine.build_setup_prompt("x", false).should_speak);
}

#[test]
fn live_replies_show_without_speaking() {
    let d = InterruptionDecision {
        speak: false,
        utterance: Some("Hourly it is".to_string()),
        priority: None,
        setup_info: Some(SetupInfo { frequency: NotificationFrequency::Hourly, completed: true }),
    };
    let p = plan_live_reply(d);
    assert_eq!(p.utterance.as_deref(), Some("Hourly it is"));
    assert!(!p.speak_aloud);
    assert_eq!(p.preferences.unwrap().frequency, NotificationFrequency::Hourly);
}
