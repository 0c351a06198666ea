//! Narration policy: when the narrator speaks, and what it remembers.
use vstd::prelude::*;

use std::collections::VecDeque;

use crate::clock::{has_elapsed, has_seconds_passed, monotonic_elapsed, seconds_passed, Timestamp};
use crate::config::NotificationFrequency;
use crate::model::{at_least, AlertSeverity, Level, SystemAlert};
use crate::text::{int_text, nat_text, push_bool, push_i64, push_str, push_u64};

verus! {

/// How many state samples the engine keeps.
pub const MAX_STATE_HISTORY: usize = 10;

/// How many spoken messages the engine keeps.
pub const MAX_MESSAGE_HISTORY: usize = 5;

/// A prompt for the language model.
#[derive(Debug, Clone)]
pub struct NarrativePrompt {
    pub cache_key: String,
    pub prompt: String,
    pub should_speak: bool,
}

/// Something the narrator said, and when.
#[derive(Debug, Clone)]
pub struct SpokenMessage {
    pub timestamp: Timestamp,
    pub utterance: String,
}

/// The model's answer: whether to interrupt the user, and with what.
#[derive(Debug, Clone)]
pub struct InterruptionDecision {
    pub speak: bool,
    pub utterance: Option<String>,
    pub priority: Option<String>,
    pub setup_info: Option<SetupInfo>,
}

/// Alert preferences that the user stated in conversation.
#[derive(Debug, Clone, Copy)]
pub struct SetupInfo {
    pub frequency: NotificationFrequency,
    pub completed: bool,
}

/// What the policy reads of a state sample.
#[derive(Debug, Clone)]
pub struct StateSummary {
    /// `collected_at` in whole seconds since the Unix epoch.
    pub collected_at_secs: i64,
    pub alerts: Vec<SystemAlert>,
    /// CPU usage in percent.
    pub cpu: Level,
    /// Memory usage in percent.
    pub memory: Level,
    /// Battery charge in percent, when there is a battery.
    pub battery: Option<Level>,
}

/// What the policy reads of the configuration.
#[derive(Debug, Clone, Copy)]
pub struct NarrationPolicy {
    pub frequency: NotificationFrequency,
    pub setup_completed: bool,
    pub min_announcement_interval_secs: u64,
    pub voice_enabled: bool,
    pub cpu_above: Level,
    pub memory_above: Level,
    pub battery_below: Level,
}

/// The engine's decision to prompt the model.
#[derive(Debug, Clone)]
pub struct PromptDecision {
    pub cache_key: String,
    pub is_periodic: bool,
    pub should_speak: bool,
}

/// The engine as data: both announcement clocks and both histories, oldest first.
pub struct PolicyView<S> {
    /// Monotonic reading (nanoseconds) of the last announcement.
    pub last_announcement: Option<u64>,
    /// Wall-clock time of the last periodic announcement.
    pub last_periodic: Option<Timestamp>,
    pub states: Seq<S>,
    pub messages: Seq<SpokenMessage>,
}

/// Debounces announcements and keeps a short memory of states and spoken messages.
pub struct PolicyEngine<S> {
    last_announcement: Option<u64>,
    last_periodic_announcement: Option<Timestamp>,
    state_history: VecDeque<S>,
    message_history: VecDeque<SpokenMessage>,
}

impl<S> View for PolicyEngine<S> {
    type V = PolicyView<S>;

    closed spec fn view(&self) -> PolicyView<S> {
        PolicyView {
            last_announcement: self.last_announcement,
            last_periodic: self.last_periodic_announcement,
            states: self.state_history@,
            messages: self.message_history@,
        }
    }
}

/// `s` with `x` appended, dropping the oldest element when `s` already holds `max`.
pub open spec fn push_bounded<T>(s: Seq<T>, x: T, max: nat) -> Seq<T> {
    if s.len() >= max {
        s.drop_first().push(x)
    } else {
        s.push(x)
    }
}

/// The histories are within their bounds.
pub open spec fn view_wf<S>(v: PolicyView<S>) -> bool {
    &&& v.states.len() <= MAX_STATE_HISTORY
    &&& v.messages.len() <= MAX_MESSAGE_HISTORY
}

/// The minimum spacing, in seconds, of periodic updates at a frequency.
pub open spec fn period_secs(f: NotificationFrequency) -> int {
    match f {
        NotificationFrequency::Minute => 60,
        NotificationFrequency::Hourly => 3600,
        NotificationFrequency::Daily => 86400,
        NotificationFrequency::Off => 0,
    }
}

/// Whether a periodic update is due at `now`: never when updates are off, at once
/// when none was given yet, otherwise when a whole period has passed since the last.
pub open spec fn periodic_due(f: NotificationFrequency, last: Option<Timestamp>, now: Timestamp) -> bool {
    if f == NotificationFrequency::Off {
        false
    } else {
        match last {
            None => true,
            Some(l) => seconds_passed(now, l, period_secs(f)),
        }
    }
}

/// Whether one of the alerts is critical.
pub open spec fn has_critical(alerts: Seq<SystemAlert>) -> bool {
    exists|i: int| 0 <= i < alerts.len() && alerts[i].severity == AlertSeverity::Critical
}

/// Resource pressure: CPU or memory at or above its threshold, the battery at or
/// below its threshold, or a critical alert.
pub open spec fn pressure_spec(s: StateSummary, p: NarrationPolicy) -> bool {
    ||| at_least(s.cpu, p.cpu_above)
    ||| at_least(s.memory, p.memory_above)
    ||| (s.battery is Some && at_least(p.battery_below, s.battery->0))
    ||| has_critical(s.alerts@)
}

/// Nothing worth saying: no alert, no pressure, no periodic update due, setup done.
pub open spec fn quiet_spec<S>(v: PolicyView<S>, s: StateSummary, p: NarrationPolicy, wall: Timestamp) -> bool {
    &&& s.alerts@.len() == 0
    &&& !pressure_spec(s, p)
    &&& !periodic_due(p.frequency, v.last_periodic, wall)
    &&& p.setup_completed
}

/// Whether the debounce interval has passed since the last announcement.
pub open spec fn debounce_passed<S>(v: PolicyView<S>, p: NarrationPolicy, now: u64) -> bool {
    match v.last_announcement {
        None => true,
        Some(last) => monotonic_elapsed(now, last, p.min_announcement_interval_secs),
    }
}

/// Whether `build_prompt` announces: something is worth saying, and either the
/// debounce interval has passed or a periodic update is due.
pub open spec fn announces<S>(v: PolicyView<S>, s: StateSummary, p: NarrationPolicy, now: u64, wall: Timestamp) -> bool {
    &&& !quiet_spec(v, s, p, wall)
    &&& (debounce_passed(v, p, now) || periodic_due(p.frequency, v.last_periodic, wall))
}

/// The engine after `build_prompt`.
pub open spec fn after_build<S>(v: PolicyView<S>, state: S, s: StateSummary, p: NarrationPolicy, now: u64, wall: Timestamp) -> PolicyView<S> {
    let states = push_bounded(v.states, state, MAX_STATE_HISTORY as nat);
    if announces(v, s, p, now, wall) {
        PolicyView {
            last_announcement: Some(now),
            last_periodic: if periodic_due(p.frequency, v.last_periodic, wall) {
                Some(wall)
            } else {
                v.last_periodic
            },
            states,
            messages: v.messages,
        }
    } else {
        PolicyView { last_announcement: v.last_announcement, last_periodic: v.last_periodic, states, messages: v.messages }
    }
}

/// The cache key of a prompt: `collected:alerts:messages:periodic`.
pub open spec fn cache_key_spec(collected_secs: i64, alerts: nat, messages: nat, periodic: bool) -> Seq<char> {
    int_text(collected_secs as int) + ":"@ + nat_text(alerts) + ":"@ + nat_text(messages) + ":"@ + (if periodic {
        "true"@
    } else {
        "false"@
    })
}

/// Executable `has_critical`.
pub fn any_critical(alerts: &Vec<SystemAlert>) -> (b: bool)
    ensures
        b == has_critical(alerts@),
{
    let mut i: usize = 0;
    while i < alerts.len()
        invariant
            0 <= i <= alerts.len(),
            forall|k: int| 0 <= k < i ==> alerts@[k].severity != AlertSeverity::Critical,
        decreases alerts.len() - i,
    {
        if alerts[i].severity == AlertSeverity::Critical {
            return true;
        }
        i = i + 1;
    }
    false
}

/// Whether the sample shows resource pressure.
pub fn is_resource_pressure(s: &StateSummary, p: &NarrationPolicy) -> (b: bool)
    ensures
        b == pressure_spec(*s, *p),
{
    let battery_low = match s.battery {
        Some(level) => p.battery_below.at_least(&level),
        None => false,
    };
    s.cpu.at_least(&p.cpu_above) || s.memory.at_least(&p.memory_above) || battery_low || any_critical(&s.alerts)
}

/// Executable `periodic_due`.
pub fn check_periodic(f: NotificationFrequency, last: Option<Timestamp>, now: &Timestamp) -> (b: bool)
    ensures
        b == periodic_due(f, last, *now),
{
    match f {
        NotificationFrequency::Off => false,
        _ => match last {
            None => true,
            Some(l) => {
                let secs: u64 = match f {
                    NotificationFrequency::Minute => 60,
                    NotificationFrequency::Hourly => 3600,
                    _ => 86400,
                };
                has_seconds_passed(now, &l, secs)
            },
        },
    }
}

impl<S> PolicyEngine<S> {
    /// The histories are within their bounds.
    #[verifier::type_invariant]
    spec fn bounded(self) -> bool {
        &&& self.state_history@.len() <= MAX_STATE_HISTORY
        &&& self.message_history@.len() <= MAX_MESSAGE_HISTORY
    }

    /// An engine that has announced nothing and remembers nothing.
    pub fn new() -> (e: PolicyEngine<S>)
        ensures
            view_wf(e@),
            e@.last_announcement is None,
            e@.last_periodic is None,
            e@.states.len() == 0,
            e@.messages.len() == 0,
    {
        PolicyEngine {
            last_announcement: None,
            last_periodic_announcement: None,
            state_history: VecDeque::with_capacity(MAX_STATE_HISTORY),
            message_history: VecDeque::with_capacity(MAX_MESSAGE_HISTORY),
        }
    }

    /// The remembered state samples, oldest first.
    pub fn state_history(&self) -> (h: &VecDeque<S>)
        ensures
            h@ == self@.states,
    {
        &self.state_history
    }

    /// The remembered spoken messages, oldest first.
    pub fn message_history(&self) -> (h: &VecDeque<SpokenMessage>)
        ensures
            h@ == self@.messages,
    {
        &self.message_history
    }

    /// Remembers that `utterance` was spoken at `at`, forgetting the oldest message
    /// when five are already remembered.
    pub fn record_spoken(&mut self, utterance: String, at: Timestamp)
        ensures
            view_wf(final(self)@),
            final(self)@.messages == push_bounded(
                old(self)@.messages,
                SpokenMessage { timestamp: at, utterance },
                MAX_MESSAGE_HISTORY as nat,
            ),
            final(self)@.states == old(self)@.states,
            final(self)@.last_announcement == old(self)@.last_announcement,
            final(self)@.last_periodic == old(self)@.last_periodic,
    {
        proof {
            use_type_invariant(&*self);
        }
        let mut messages: VecDeque<SpokenMessage> = VecDeque::new();
        std::mem::swap(&mut messages, &mut self.message_history);
        if messages.len() >= MAX_MESSAGE_HISTORY {
            messages.pop_front();
        }
        messages.push_back(SpokenMessage { timestamp: at, utterance });
        assert(messages@ =~= push_bounded(
            old(self)@.messages,
            SpokenMessage { timestamp: at, utterance },
            MAX_MESSAGE_HISTORY as nat,
        ));
        self.message_history = messages;
    }

    /// Records `state` and decides whether to prompt the model about it, at monotonic
    /// time `now` (nanoseconds) and wall-clock time `wall`.
    pub fn build_prompt(&mut self, state: S, summary: &StateSummary, policy: &NarrationPolicy, now: u64, wall: Timestamp) -> (r: Option<
        PromptDecision,
    >)
        ensures
            view_wf(final(self)@),
            final(self)@ == after_build(old(self)@, state, *summary, *policy, now, wall),
            r is Some == announces(old(self)@, *summary, *policy, now, wall),
            r matches Some(d) ==> {
                &&& d.is_periodic == periodic_due(policy.frequency, old(self)@.last_periodic, wall)
                &&& d.should_speak == policy.voice_enabled
                &&& d.cache_key@ == cache_key_spec(
                    summary.collected_at_secs,
                    summary.alerts@.len(),
                    old(self)@.messages.len(),
                    d.is_periodic,
                )
            },
    {
        proof {
            use_type_invariant(&*self);
        }
        let ghost v0 = self@;
        let mut states: VecDeque<S> = VecDeque::new();
        std::mem::swap(&mut states, &mut self.state_history);
        if states.len() >= MAX_STATE_HISTORY {
            states.pop_front();
        }
        states.push_back(state);
        assert(states@ =~= push_bounded(v0.states, state, MAX_STATE_HISTORY as nat));
        self.state_history = states;

        let is_periodic = check_periodic(policy.frequency, self.last_periodic_announcement, &wall);

        if summary.alerts.len() == 0 && !is_resource_pressure(summary, policy) && !is_periodic
            && policy.setup_completed {
            return None;
        }

        let can_announce = match self.last_announcement {
            Some(last) => has_elapsed(now, last, policy.min_announcement_interval_secs),
            None => true,
        };

        if !can_announce && !is_periodic {
            return None;
        }

        self.last_announcement = Some(now);
        if is_periodic {
            self.last_periodic_announcement = Some(wall);
        }

        let mut key = String::new();
        push_i64(&mut key, summary.collected_at_secs);
        push_str(&mut key, ":");
        push_u64(&mut key, summary.alerts.len() as u64);
        push_str(&mut key, ":");
        push_u64(&mut key, self.message_history.len() as u64);
        push_str(&mut key, ":");
        push_bool(&mut key, is_periodic);
        Some(PromptDecision { cache_key: key, is_periodic, should_speak: policy.voice_enabled })
    }
}

} // verus!

verus! {

/// The narrator only speaks about actionable conditions: with no alert, no resource
/// pressure, no periodic update due and setup completed, no prompt is built.
pub proof fn law_quiet_is_silent<S>(v: PolicyView<S>, s: StateSummary, p: NarrationPolicy, now: u64, wall: Timestamp)
    requires
        s.alerts@.len() == 0,
        !pressure_spec(s, p),
        !periodic_due(p.frequency, v.last_periodic, wall),
        p.setup_completed,
    ensures
        !announces(v, s, p, now, wall),
{
}

/// Debounce: after an announcement at `now`, no further announcement comes before the
/// minimum interval has passed, unless a periodic update is due.
pub proof fn law_debounce<S>(
    v: PolicyView<S>,
    state: S,
    s: StateSummary,
    p: NarrationPolicy,
    now: u64,
    wall: Timestamp,
    s2: StateSummary,
    p2: NarrationPolicy,
    now2: u64,
    wall2: Timestamp,
)
    requires
        announces(v, s, p, now, wall),
        p2.min_announcement_interval_secs == p.min_announcement_interval_secs,
        now <= now2,
        now2 - now < p.min_announcement_interval_secs * 1_000_000_000,
        !periodic_due(p2.frequency, after_build(v, state, s, p, now, wall).last_periodic, wall2),
    ensures
        !announces(after_build(v, state, s, p, now, wall), s2, p2, now2, wall2),
{
}

/// The announcement clocks move only when they should: the time of the last periodic
/// update changes only when a periodic update is due, and then it becomes `wall` (such an
/// update is always announced); an announcement of alerts or pressure leaves it as it was.
/// The debounce clock moves to `now` exactly when something is announced.
pub proof fn law_announcement_clocks<S>(v: PolicyView<S>, state: S, s: StateSummary, p: NarrationPolicy, now: u64, wall: Timestamp)
    ensures
        !periodic_due(p.frequency, v.last_periodic, wall) ==> after_build(v, state, s, p, now, wall).last_periodic
            == v.last_periodic,
        periodic_due(p.frequency, v.last_periodic, wall) ==> announces(v, s, p, now, wall) && after_build(
            v,
            state,
            s,
            p,
            now,
            wall,
        ).last_periodic == Some(wall),
        announces(v, s, p, now, wall) ==> after_build(v, state, s, p, now, wall).last_announcement == Some(now),
        !announces(v, s, p, now, wall) ==> after_build(v, state, s, p, now, wall).last_announcement
            == v.last_announcement,
        after_build(v, state, s, p, now, wall).messages == v.messages,
{
}

/// How often periodic updates come: the first is due at once, and the next once a minute,
/// an hour or a day has passed since the last, by the wall clock; never when they are off.
pub proof fn law_update_periods(last: Timestamp, now: Timestamp)
    ensures
        periodic_due(NotificationFrequency::Minute, None, now),
        periodic_due(NotificationFrequency::Hourly, None, now),
        periodic_due(NotificationFrequency::Daily, None, now),
        !periodic_due(NotificationFrequency::Off, Some(last), now),
        periodic_due(NotificationFrequency::Minute, Some(last), now) <==> now.total_nanos() - last.total_nanos()
            >= 60_000_000_000,
        periodic_due(NotificationFrequency::Hourly, Some(last), now) <==> now.total_nanos() - last.total_nanos()
            >= 3_600_000_000_000,
        periodic_due(NotificationFrequency::Daily, Some(last), now) <==> now.total_nanos() - last.total_nanos()
            >= 86_400_000_000_000,
{
}

/// With periodic updates off, no update is ever periodic.
pub proof fn law_off_is_never_periodic(last: Option<Timestamp>, now: Timestamp)
    ensures
        !periodic_due(NotificationFrequency::Off, last, now),
{
}

/// Once a frequency is chosen, the first periodic update is due at once, and it is
/// announced whatever the state and the debounce clock.
pub proof fn law_first_periodic_update<S>(v: PolicyView<S>, state: S, s: StateSummary, p: NarrationPolicy, now: u64, wall: Timestamp)
    requires
        p.frequency != NotificationFrequency::Off,
        v.last_periodic is None,
    ensures
        announces(v, s, p, now, wall),
        after_build(v, state, s, p, now, wall).last_periodic == Some(wall),
        after_build(v, state, s, p, now, wall).last_announcement == Some(now),
{
}

/// After a periodic update at `wall`, the next one is not due until a whole period
/// (a minute, an hour or a day) has passed.
pub proof fn law_periodic_spacing<S>(
    v: PolicyView<S>,
    state: S,
    s: StateSummary,
    p: NarrationPolicy,
    now: u64,
    wall: Timestamp,
    wall2: Timestamp,
)
    requires
        announces(v, s, p, now, wall),
        periodic_due(p.frequency, v.last_periodic, wall),
        wall2.total_nanos() - wall.total_nanos() < period_secs(p.frequency) * 1_000_000_000,
    ensures
        !periodic_due(p.frequency, after_build(v, state, s, p, now, wall).last_periodic, wall2),
{
}

/// The histories stay bounded, and the newest entry is the one just added, after the
/// previous entries that were kept, in order.
pub proof fn law_bounded_history<T>(s: Seq<T>, x: T, max: nat)
    requires
        max > 0,
        s.len() <= max,
    ensures
        push_bounded(s, x, max).len() <= max,
        push_bounded(s, x, max).last() == x,
        push_bounded(s, x, max) == s.push(x).skip(s.push(x).len() - push_bounded(s, x, max).len()),
        s.len() < max ==> push_bounded(s, x, max).len() == s.len() + 1,
{
    if s.len() >= max {
        assert(s.drop_first().push(x) =~= s.push(x).skip(1));
    } else {
        assert(s.push(x) =~= s.push(x).skip(0));
    }
}

} // verus!

verus! {

/// The lines of the system instruction, before they are joined.
pub open spec fn instruction_lines(style: Seq<char>, skill: Seq<char>, setup_completed: bool) -> Seq<Seq<char>> {
    seq![
        "You are InternalVoice, an AI System Monitor & Assistant."@,
        "Your style is "@ + style + "."@,
        if skill.len() > 0 { skill } else { "You are a system monitor narrator."@ },
        "Decide if the user needs to be interrupted."@,
        "Summarize only actionable system conditions."@,
        "Do not suggest shell commands."@,
        "Produce a short, spoken-friendly summary (1–2 sentences)."@,
        "Optionally suggest a single action (e.g., close app X, plug in power, free disk)."@,
        "Avoid repeating the same warning unless the situation worsens significantly."@,
    ] + (if setup_completed {
        seq![]
    } else {
        seq![
            "CRITICAL: The user has not set up their alert preferences yet."@,
            "You MUST prompt the user to choose a notification frequency: 'daily', 'hourly', or 'minute'."@,
            "If they respond with a preference, include it in your JSON response under 'setup_info'."@,
        ]
    }) + seq![
        "When providing updates, also include suggestions on ways to optimize system resources based on the current state."@,
    ]
}

/// What the narrator is told, line by line: its role, its style, the skill text (or a
/// plain narrator role without one), then the six rules in this order (interrupt only
/// when needed, only actionable conditions, no shell commands, one or two spoken
/// sentences, at most one suggested action, no repeated warnings), then, while setup is
/// not done, the three setup lines, and last the request for optimisation suggestions.
pub proof fn law_instruction_text(style: Seq<char>, skill: Seq<char>, setup_completed: bool)
    ensures
        instruction_lines(style, skill, setup_completed).len() == if setup_completed { 10int } else { 13int },
        instruction_lines(style, skill, setup_completed)[0] == "You are InternalVoice, an AI System Monitor & Assistant."@,
        instruction_lines(style, skill, setup_completed)[1] == "Your style is "@ + style + "."@,
        skill.len() > 0 ==> instruction_lines(style, skill, setup_completed)[2] == skill,
        skill.len() == 0 ==> instruction_lines(style, skill, setup_completed)[2] == "You are a system monitor narrator."@,
        instruction_lines(style, skill, setup_completed)[3] == "Decide if the user needs to be interrupted."@,
        instruction_lines(style, skill, setup_completed)[4] == "Summarize only actionable system conditions."@,
        instruction_lines(style, skill, setup_completed)[5] == "Do not suggest shell commands."@,
        instruction_lines(style, skill, setup_completed)[6] == "Produce a short, spoken-friendly summary (1–2 sentences)."@,
        instruction_lines(style, skill, setup_completed)[7]
            == "Optionally suggest a single action (e.g., close app X, plug in power, free disk)."@,
        instruction_lines(style, skill, setup_completed)[8]
            == "Avoid repeating the same warning unless the situation worsens significantly."@,
        !setup_completed ==> instruction_lines(style, skill, setup_completed)[9]
            == "CRITICAL: The user has not set up their alert preferences yet."@,
        !setup_completed ==> instruction_lines(style, skill, setup_completed)[10]
            == "You MUST prompt the user to choose a notification frequency: 'daily', 'hourly', or 'minute'."@,
        !setup_completed ==> instruction_lines(style, skill, setup_completed)[11]
            == "If they respond with a preference, include it in your JSON response under 'setup_info'."@,
        instruction_lines(style, skill, setup_completed).last()
            == "When providing updates, also include suggestions on ways to optimize system resources based on the current state."@,
{
}

impl<S> PolicyEngine<S> {
    /// The system instruction of a Live session: the narrator's role and style, the skill
    /// description when one was found (`skill` empty otherwise), the rules, and the setup
    /// request while setup is not completed, one per line.
    pub fn system_instructions(&self, style: &str, skill: &str, setup_completed: bool) -> (r: String)
        ensures
            r@ == crate::text::join_lines(instruction_lines(style@, skill@, setup_completed)),
    {
        let mut lines: Vec<String> = Vec::new();
        lines.push(String::from_str("You are InternalVoice, an AI System Monitor & Assistant."));
        let mut style_line = String::from_str("Your style is ");
        push_str(&mut style_line, style);
        push_str(&mut style_line, ".");
        lines.push(style_line);
        if crate::text::chars_of(skill).len() > 0 {
            lines.push(String::from_str(skill));
        } else {
            lines.push(String::from_str("You are a system monitor narrator."));
        }
        lines.push(String::from_str("Decide if the user needs to be interrupted."));
        lines.push(String::from_str("Summarize only actionable system conditions."));
        lines.push(String::from_str("Do not suggest shell commands."));
        lines.push(String::from_str("Produce a short, spoken-friendly summary (1–2 sentences)."));
        lines.push(String::from_str("Optionally suggest a single action (e.g., close app X, plug in power, free disk)."));
        lines.push(String::from_str("Avoid repeating the same warning unless the situation worsens significantly."));
        if !setup_completed {
            lines.push(String::from_str("CRITICAL: The user has not set up their alert preferences yet."));
            lines.push(
                String::from_str(
                    "You MUST prompt the user to choose a notification frequency: 'daily', 'hourly', or 'minute'.",
                ),
            );
            lines.push(
                String::from_str("If they respond with a preference, include it in your JSON response under 'setup_info'."),
            );
        }
        lines.push(
            String::from_str(
                "When providing updates, also include suggestions on ways to optimize system resources based on the current state.",
            ),
        );
        assert(lines@.map_values(|s: String| s@) =~= instruction_lines(style@, skill@, setup_completed));
        crate::text::join_with_newlines(&lines)
    }

    /// The prompt that asks the user for their notification preferences; it is spoken
    /// when voice is enabled.
    pub fn build_setup_prompt(&self, style: &str, voice_enabled: bool) -> (p: NarrativePrompt)
        ensures
            p.cache_key@ == "setup_prompt"@,
            p.prompt@ == crate::json::setup_prompt_spec(style@),
            p.should_speak == voice_enabled,
    {
        NarrativePrompt {
            cache_key: String::from_str("setup_prompt"),
            prompt: crate::json::setup_prompt_json(style),
            should_speak: voice_enabled,
        }
    }
}

/// What the service does with the model's decision.
#[derive(Debug, Clone)]
pub struct DecisionPlan {
    /// New alert preferences to store and save, when the user stated them.
    pub preferences: Option<crate::config::AlertPreferences>,
    /// The utterance to report and remember, when the model chose to speak.
    pub utterance: Option<String>,
    /// Whether the utterance is also spoken aloud.
    pub speak_aloud: bool,
}

/// Plans the handling of a decision: store stated preferences; when the model speaks
/// with an utterance, report and remember it, and say it aloud if voice is enabled.
pub fn plan_decision(decision: InterruptionDecision, voice_enabled: bool) -> (p: DecisionPlan)
    ensures
        p.preferences == match decision.setup_info {
            Some(s) => Some(crate::config::AlertPreferences { frequency: s.frequency, setup_completed: s.completed }),
            None => None::<crate::config::AlertPreferences>,
        },
        p.utterance == (if decision.speak {
            decision.utterance
        } else {
            None
        }),
        p.speak_aloud == (p.utterance is Some && voice_enabled),
{
    let preferences = match decision.setup_info {
        Some(s) => Some(crate::config::AlertPreferences { frequency: s.frequency, setup_completed: s.completed }),
        None => None,
    };
    let utterance = if decision.speak {
        decision.utterance
    } else {
        None
    };
    let speak_aloud = utterance.is_some() && voice_enabled;
    DecisionPlan { preferences, utterance, speak_aloud }
}

/// Plans the handling of a decision that arrives as text in a Live session: stated
/// preferences are stored and the utterance, when there is one, is shown; nothing is
/// spoken aloud, since the session has a voice of its own.
pub fn plan_live_reply(decision: InterruptionDecision) -> (p: DecisionPlan)
    ensures
        p.preferences == match decision.setup_info {
            Some(s) => Some(crate::config::AlertPreferences { frequency: s.frequency, setup_completed: s.completed }),
            None => None::<crate::config::AlertPreferences>,
        },
        p.utterance == decision.utterance,
        !p.speak_aloud,
{
    let preferences = match decision.setup_info {
        Some(s) => Some(crate::config::AlertPreferences { frequency: s.frequency, setup_completed: s.completed }),
        None => None,
    };
    DecisionPlan { preferences, utterance: decision.utterance, speak_aloud: false }
}

} // verus!
