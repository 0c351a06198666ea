//! The decisions of the polling loop: whether to consult the prompt cache or ask
//! Gemini, what to do with a reply, whether to cache it, and whether to go on.
use vstd::prelude::*;

use crate::live::{request_error_blames_key, request_error_needs_new_key};
use crate::policy::InterruptionDecision;

verus! {

/// What a round of the loop does once the policy has decided.
#[derive(Debug, Clone, PartialEq, Eq, Structural)]
pub enum PollStep {
    /// No prompt was built: nothing to announce this round.
    Idle,
    /// A prompt was built, but the allow-list refuses announcements.
    Rejected,
    /// A prompt was built and may be announced: look it up in the cache first.
    ConsultCache,
}

/// The step of a round: idle without a prompt, rejected when announcing is not
/// allowed, otherwise the cache is consulted.
pub fn poll_step(prompt_built: bool, allowed: bool) -> (s: PollStep)
    ensures
        !prompt_built ==> s == PollStep::Idle,
        prompt_built && !allowed ==> s == PollStep::Rejected,
        prompt_built && allowed ==> s == PollStep::ConsultCache,
{
    if !prompt_built {
        PollStep::Idle
    } else if !allowed {
        PollStep::Rejected
    } else {
        PollStep::ConsultCache
    }
}

/// What the cache lookup leads to.
#[derive(Debug, Clone)]
pub enum CacheStep {
    /// The prompt was answered before: use the stored reply.
    UseCached(String),
    /// The prompt is not in the cache: ask Gemini.
    Request,
}

/// Gemini is asked only on a cache miss; a hit is used as it is.
pub fn cache_step(cached: Option<String>) -> (s: CacheStep)
    ensures
        cached matches Some(c) ==> s == CacheStep::UseCached(c),
        cached is None ==> s == CacheStep::Request,
{
    match cached {
        Some(c) => CacheStep::UseCached(c),
        None => CacheStep::Request,
    }
}

/// What to do with a reply, cached or fresh.
#[derive(Debug, Clone)]
pub struct ReplyPlan {
    /// The decision to act on, when the reply holds one.
    pub decision: Option<InterruptionDecision>,
    /// Whether the reply is stored in the cache (after the decision is acted on).
    pub cache_reply: bool,
    /// Whether the loop sleeps before its next round.
    pub wait: bool,
    /// Whether the loop ends, because the API key was rejected.
    pub stop: bool,
}

/// Plans a fresh reply. `reply` is, on success, the reply read as a decision and, after
/// its code fences are stripped, as an `output_format` wrapper's decision; on failure,
/// the request's error message. A decision read directly is acted on and cached; one
/// found only in a wrapper is acted on and cached, and the next round starts at once;
/// an unreadable reply is dropped; an error that points at the API key ends the loop.
pub fn plan_reply(reply: Result<(Option<InterruptionDecision>, Option<InterruptionDecision>), String>) -> (p: ReplyPlan)
    ensures
        reply matches Ok((Some(d), _)) ==> p.decision == Some(d) && p.cache_reply && p.wait && !p.stop,
        reply matches Ok((None, Some(d))) ==> p.decision == Some(d) && p.cache_reply && !p.wait && !p.stop,
        reply matches Ok((None, None)) ==> p.decision is None && !p.cache_reply && p.wait && !p.stop,
        reply matches Err(m) ==> p.decision is None && !p.cache_reply && p.stop == request_error_blames_key(m@)
            && p.wait == !p.stop,
{
    match reply {
        Ok((Some(d), _)) => ReplyPlan { decision: Some(d), cache_reply: true, wait: true, stop: false },
        Ok((None, Some(d))) => ReplyPlan { decision: Some(d), cache_reply: true, wait: false, stop: false },
        Ok((None, None)) => ReplyPlan { decision: None, cache_reply: false, wait: true, stop: false },
        Err(m) => {
            let stop = request_error_needs_new_key(m.as_str());
            ReplyPlan { decision: None, cache_reply: false, wait: !stop, stop }
        },
    }
}

/// Plans a cached reply, given as read directly as a decision: it is acted on when it
/// reads as one (no wrapper is tried), never stored again, and the loop goes on after
/// its sleep.
pub fn plan_cached_reply(parsed: Option<InterruptionDecision>) -> (p: ReplyPlan)
    ensures
        p.decision == parsed,
        !p.cache_reply,
        p.wait,
        !p.stop,
{
    ReplyPlan { decision: parsed, cache_reply: false, wait: true, stop: false }
}

} // verus!
