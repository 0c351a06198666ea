use internalvoice::policy::InterruptionDecision;
use internalvoice::polling::{cache_step, plan_cached_reply, plan_reply, poll_step, CacheStep, PollStep};

fn decision(text: &str) -> InterruptionDecision {
    InterruptionDecision { speak: true, utterance: Some(text.to_string()), priority: None, setup_info: None }
}

#[test]
fn poll_steps() {
    assert_eq!(poll_step(false, true), PollStep::Idle);
    assert_eq!(poll_step(false, false), PollStep::Idle);
    assert_eq!(poll_step(true, false), PollStep::Rejected);
    assert_eq!(poll_step(true, true), PollStep::ConsultCache);
}

#[test]
fn cache_hits_are_used_and_misses_ask_gemini() {
    match cache_step(Some("{\"speak\":false}".to_string())) {
        CacheStep::UseCached(c) => assert_eq!(c, "{\"speak\":false}"),
        CacheStep::Request => panic!("a hit must be used"),
    }
    assert!(matches!(cache_step(None), CacheStep::Request));
}

#[test]
fn fresh_replies_are_planned() {
    let p = plan_reply(Ok((Some(decision("direct")), Some(decision("wrapped")))));
    assert_eq!(p.decision.unwrap().utterance.as_deref(), Some("direct"));
    assert!(p.cache_reply && p.wait && !p.stop);

    let p = plan_reply(Ok((None, Some(decision("wrapped")))));
    assert_eq!(p.decision.unwrap().utterance.as_deref(), Some("wrapped"));
    assert!(p.cache_reply && !p.wait && !p.stop);

    let p = plan_reply(Ok((None, None)));
    assert!(p.decision.is_none() && !p.cache_reply && p.wait && !p.stop);

    let p = plan_reply(Err("gemini api error: request failed with 403 Forbidden: denied".to_string()));
    assert!(p.decision.is_none() && !p.cache_reply && p.stop && !p.wait);

    let p = plan_reply(Err("gemini api error: request timed out".to_string()));
    assert!(p.decision.is_none() && !p.cache_reply && !p.stop && p.wait);
}

#[test]
fn cached_replies_are_not_stored_again() {
    let p = plan_cached_reply(Some(decision("again")));
    assert_eq!(p.decision.unwrap().utterance.as_deref(), Some("again"));
    assert!(!p.cache_reply && p.wait && !p.stop);
    let p = plan_cached_reply(None);
    assert!(p.decision.is_none() && !p.cache_reply && p.wait && !p.stop);
}
