//! The per-turn effort router: configuration, the v0 keyword/length scorer and
//! the hybrid cascade (escalation, stage signals, obvious heuristic, judge,
//! fall-open).
//!
//! Precedence (callers enforce the pin):
//! explicit pin > router > `default_reasoning_effort` > catalog high.

use vstd::prelude::*;
use crate::effort::{
    bounded_level, clamp_int, clamp_rank_to_bounds, clamp_to_router_triad, effort_rank, effort_token,
    in_triad, rank_of, triad_of, ReasoningEffort,
};
use crate::signals::{coding_signal, hard_signal, has_coding_signal, has_hard_signal, has_simple_signal, simple_signal};
use crate::text::{chars_of, eq_ignore_ascii_case_chars, lower, lower_chars, trim, trim_chars};

verus! {

/// Confidences are integers in millionths: `CONFIDENCE_ONE` is certainty.
pub const CONFIDENCE_ONE: u32 = 1_000_000;

/// Model-info / session meta key: when `true`, the TUI shows `low (auto)` /
/// `medium (auto)` and the per-turn router is active.
pub const EFFORT_AUTO_META_KEY: &'static str = "effortAuto";

/// Session meta key under which a client names the reasoning effort it asks for.
pub const REASONING_EFFORT_META_KEY: &'static str = "reasoningEffort";

/// How the router picks effort.
#[derive(Clone, Copy, Debug, PartialEq, Eq, Structural)]
pub enum RouterMode {
    /// Stage + obvious heuristic + judge on remaining ambiguity.
    Hybrid,
    /// v0 keyword/length scorer only.
    Heuristic,
    /// Always consult the judge (still fail-open to the heuristic).
    Classifier,
}

impl RouterMode {
    /// Whether this mode may consult the judge.
    pub fn allows_classifier(self) -> (b: bool)
        ensures
            b == (self == RouterMode::Hybrid || self == RouterMode::Classifier),
    {
        match self {
            RouterMode::Hybrid | RouterMode::Classifier => true,
            RouterMode::Heuristic => false,
        }
    }
}

impl Default for RouterMode {
    fn default() -> (m: Self)
        ensures
            m == RouterMode::Hybrid,
    {
        RouterMode::Hybrid
    }
}

/// `[effort_router]` in config.toml.
#[derive(Clone, Copy, Debug, PartialEq, Eq, Structural)]
pub struct EffortRouterConfig {
    /// When false, the router never mutates sampling config.
    pub enabled: bool,
    /// Soft bias on a 1..=5 scale (clamped). 3 = neutral.
    pub preference: u8,
    /// Minimum effort the router may choose (among low|medium|high).
    pub floor: ReasoningEffort,
    /// Maximum effort the router may choose (among low|medium|high).
    pub ceiling: ReasoningEffort,
    pub mode: RouterMode,
    /// 0..=100; 50 means 0.5. Stage confidence must meet this to fire.
    pub confidence_threshold: u8,
    /// Consecutive bad turns before the session is pinned high.
    pub escalation_strikes: u8,
    pub classifier_timeout_ms: u16,
    pub recent_window: u8,
}

/// Default floor: low.
pub fn default_floor() -> (e: ReasoningEffort)
    ensures
        e == ReasoningEffort::Low,
{
    ReasoningEffort::Low
}

/// Default ceiling: high.
pub fn default_ceiling() -> (e: ReasoningEffort)
    ensures
        e == ReasoningEffort::High,
{
    ReasoningEffort::High
}

/// Default stage confidence bar, in percent.
pub fn default_confidence_threshold() -> (v: u8)
    ensures
        v == 50,
{
    50
}

/// Default number of consecutive bad turns before escalation.
pub fn default_escalation_strikes() -> (v: u8)
    ensures
        v == 2,
{
    2
}

/// Default judge timeout in milliseconds.
pub fn default_classifier_timeout_ms() -> (v: u16)
    ensures
        v == 500,
{
    500
}

/// Default number of recent turns the stage scorer looks at.
pub fn default_recent_window() -> (v: u8)
    ensures
        v == 3,
{
    3
}

/// The shipped configuration: router on, neutral preference, low..=high, hybrid.
pub open spec fn default_config() -> EffortRouterConfig {
    EffortRouterConfig {
        enabled: true,
        preference: 3,
        floor: ReasoningEffort::Low,
        ceiling: ReasoningEffort::High,
        mode: RouterMode::Hybrid,
        confidence_threshold: 50,
        escalation_strikes: 2,
        classifier_timeout_ms: 500,
        recent_window: 3,
    }
}

impl Default for EffortRouterConfig {
    fn default() -> (c: Self)
        ensures
            c == default_config(),
    {
        EffortRouterConfig {
            enabled: true,
            preference: 3,
            floor: ReasoningEffort::Low,
            ceiling: ReasoningEffort::High,
            mode: RouterMode::Hybrid,
            confidence_threshold: default_confidence_threshold(),
            escalation_strikes: default_escalation_strikes(),
            classifier_timeout_ms: default_classifier_timeout_ms(),
            recent_window: default_recent_window(),
        }
    }
}

/// The configured floor and ceiling folded into the triad, swapped when inverted.
pub open spec fn bounds(cfg: EffortRouterConfig) -> (ReasoningEffort, ReasoningEffort) {
    let f = triad_of(cfg.floor);
    let c = triad_of(cfg.ceiling);
    if rank_of(f) <= rank_of(c) {
        (f, c)
    } else {
        (c, f)
    }
}

/// The name that `Duration::from_millis` gives to a count of milliseconds.
pub uninterp spec fn duration_of_millis(ms: u64) -> std::time::Duration;

/// `std::time::Duration::from_millis`; claimed: the result is a function of `ms` alone.
#[verifier::external_body]
fn duration_from_millis(ms: u64) -> (d: std::time::Duration)
    ensures
        d == duration_of_millis(ms),
{
    std::time::Duration::from_millis(ms)
}

impl EffortRouterConfig {
    /// Normalize floor/ceiling into the router triad and ensure floor <= ceiling.
    pub fn clamped_bounds(&self) -> (r: (ReasoningEffort, ReasoningEffort))
        ensures
            r == bounds(*self),
            in_triad(r.0),
            in_triad(r.1),
            rank_of(r.0) <= rank_of(r.1),
    {
        let floor = clamp_to_router_triad(self.floor);
        let ceiling = clamp_to_router_triad(self.ceiling);
        if effort_rank(floor) <= effort_rank(ceiling) {
            (floor, ceiling)
        } else {
            (ceiling, floor)
        }
    }

    /// Stage confidence bar in millionths: the percent threshold, capped at 100.
    pub fn stage_threshold(&self) -> (t: u32)
        ensures
            t == (if self.confidence_threshold <= 100 { self.confidence_threshold as u32 } else { 100 })
                * 10_000,
            t <= CONFIDENCE_ONE,
    {
        let pct: u32 = if self.confidence_threshold <= 100 {
            self.confidence_threshold as u32
        } else {
            100
        };
        pct * 10_000
    }

    /// The judge timeout.
    pub fn classifier_timeout(&self) -> (d: std::time::Duration)
        ensures
            d == duration_of_millis(self.classifier_timeout_ms as u64),
    {
        duration_from_millis(self.classifier_timeout_ms as u64)
    }
}

/// Why the router picked this effort.
#[derive(Clone, Copy, Debug, PartialEq, Eq, Structural)]
pub enum DecisionSource {
    Escalation,
    Override,
    TestsPassed,
    Stage,
    Heuristic,
    Classifier,
    FallOpen,
}

/// The log token of each decision source.
pub open spec fn source_token(s: DecisionSource) -> Seq<char> {
    match s {
        DecisionSource::Escalation => "escalation"@,
        DecisionSource::Override => "override"@,
        DecisionSource::TestsPassed => "tests_passed"@,
        DecisionSource::Stage => "stage"@,
        DecisionSource::Heuristic => "heuristic"@,
        DecisionSource::Classifier => "classifier"@,
        DecisionSource::FallOpen => "fall_open"@,
    }
}

impl DecisionSource {
    /// The snake_case log token (`"tests_passed"`, `"fall_open"`, ...).
    pub fn as_str(self) -> (s: &'static str)
        ensures
            s@ == source_token(self),
    {
        match self {
            DecisionSource::Escalation => "escalation",
            DecisionSource::Override => "override",
            DecisionSource::TestsPassed => "tests_passed",
            DecisionSource::Stage => "stage",
            DecisionSource::Heuristic => "heuristic",
            DecisionSource::Classifier => "classifier",
            DecisionSource::FallOpen => "fall_open",
        }
    }
}

/// Stage scorer output.
#[derive(Clone, Copy, Debug, PartialEq, Eq, Structural)]
pub struct StageVerdict {
    pub effort: ReasoningEffort,
    /// In millionths.
    pub confidence: u32,
    pub source: DecisionSource,
}

/// Judge output.
#[derive(Clone, Debug, PartialEq)]
pub struct ClassifierVerdict {
    pub effort: ReasoningEffort,
    /// In millionths.
    pub confidence: u32,
    pub reason: String,
}

/// Final routing decision.
#[derive(Clone, Debug, PartialEq)]
pub struct RouteDecision {
    pub effort: ReasoningEffort,
    pub source: DecisionSource,
    /// In millionths.
    pub confidence: u32,
    pub reason: String,
}

/// A routing decision as values.
pub struct RouteDecisionView {
    pub effort: ReasoningEffort,
    pub source: DecisionSource,
    pub confidence: u32,
    pub reason: Seq<char>,
}

impl View for RouteDecision {
    type V = RouteDecisionView;

    open spec fn view(&self) -> RouteDecisionView {
        RouteDecisionView {
            effort: self.effort,
            source: self.source,
            confidence: self.confidence,
            reason: self.reason@,
        }
    }
}

/// What [`route_cascade`] still needs from the caller.
#[derive(Clone, Debug, PartialEq)]
pub enum CascadeStep {
    Done(RouteDecision),
    /// Hybrid/classifier mode, prompt is ambiguous — run the judge.
    NeedClassifier,
}

/// A cascade step as values.
pub enum CascadeStepView {
    Done(RouteDecisionView),
    NeedClassifier,
}

impl View for CascadeStep {
    type V = CascadeStepView;

    open spec fn view(&self) -> CascadeStepView {
        match self {
            CascadeStep::Done(d) => CascadeStepView::Done(d@),
            CascadeStep::NeedClassifier => CascadeStepView::NeedClassifier,
        }
    }
}

/// An optional cascade step as values.
pub open spec fn step_view(o: Option<CascadeStep>) -> Option<CascadeStepView> {
    match o {
        Some(s) => Some(s@),
        None => None,
    }
}

/// A decision whose effort is clamped into the configured bounds.
pub open spec fn decision(
    effort: ReasoningEffort,
    source: DecisionSource,
    confidence: u32,
    reason: Seq<char>,
    cfg: EffortRouterConfig,
) -> RouteDecisionView {
    RouteDecisionView {
        effort: bounded_level(rank_of(effort), bounds(cfg).0, bounds(cfg).1),
        source,
        confidence,
        reason,
    }
}

impl RouteDecision {
    fn new(
        effort: ReasoningEffort,
        source: DecisionSource,
        confidence: u32,
        reason: String,
        cfg: &EffortRouterConfig,
    ) -> (d: Self)
        ensures
            d@ == decision(effort, source, confidence, reason@, *cfg),
    {
        let (floor, ceiling) = cfg.clamped_bounds();
        let rank: i8 = effort_rank(effort) as i8;
        RouteDecision { effort: clamp_rank_to_bounds(rank, floor, ceiling), source, confidence, reason }
    }
}

/// The length bucket of a trimmed prompt: very short −1, long +1.
pub open spec fn length_adjust(n: int) -> int {
    if n < 40 {
        -1
    } else if n > 400 {
        1
    } else {
        0
    }
}

/// The v0 score of a prompt as a rank: medium (1), then length, simple-chat (−1),
/// hard (+1) and coding (+1) keywords, and `preference − 3` (preference clamped to 1..=5).
pub open spec fn prompt_rank(prompt: Seq<char>, preference: u8) -> int {
    let t = trim(prompt);
    let n = t.len() as int;
    let l = lower(t);
    1 + length_adjust(n) + (if simple_signal(l, n) { -1int } else { 0int }) + (if hard_signal(l) {
        1int
    } else {
        0int
    }) + (if coding_signal(l) { 1int } else { 0int }) + (clamp_int(preference as int, 1, 5) - 3)
}

/// The effort the v0 scorer picks: the prompt's rank clamped to the configured bounds.
pub open spec fn routed_effort(prompt: Seq<char>, cfg: EffortRouterConfig) -> ReasoningEffort {
    bounded_level(prompt_rank(prompt, cfg.preference), bounds(cfg).0, bounds(cfg).1)
}

/// Trimmed, ASCII-lowercased chars of `prompt`, and the trimmed length.
fn prepare(prompt: &str) -> (r: (Vec<char>, usize))
    ensures
        r.0@ == lower(trim(prompt@)),
        r.1 == trim(prompt@).len(),
{
    let chars = chars_of(prompt);
    let trimmed = trim_chars(&chars);
    let lowered = lower_chars(&trimmed);
    (lowered, trimmed.len())
}

/// Pure prompt → effort map. Ignores `enabled` and pin; callers gate those.
///
/// Scoring (v0 heuristics):
/// - base rank medium (1)
/// - length: very short → −1; long → +1
/// - simple-chat keywords → −1
/// - hard/coding/debug keywords → +1 (each bucket once)
/// - preference: `preference - 3` added to rank (−2..=+2)
/// - clamp to floor..=ceiling within low|medium|high
pub fn route_effort(prompt: &str, cfg: &EffortRouterConfig) -> (r: ReasoningEffort)
    ensures
        r == routed_effort(prompt@, *cfg),
        in_triad(r),
        rank_of(bounds(*cfg).0) <= rank_of(r) <= rank_of(bounds(*cfg).1),
{
    let (floor, ceiling) = cfg.clamped_bounds();
    let mut rank: i8 = 1;
    let (lower, char_len) = prepare(prompt);
    if char_len < 40 {
        rank = rank - 1;
    } else if char_len > 400 {
        rank = rank + 1;
    }
    if has_simple_signal(&lower, char_len) {
        rank = rank - 1;
    }
    if has_hard_signal(&lower) {
        rank = rank + 1;
    }
    if has_coding_signal(&lower) {
        rank = rank + 1;
    }
    let pref: i8 = if cfg.preference < 1 {
        1
    } else if cfg.preference > 5 {
        5
    } else {
        cfg.preference as i8
    };
    rank = rank + (pref - 3);
    clamp_rank_to_bounds(rank, floor, ceiling)
}

/// When enabled and not pinned, return the routed effort; otherwise `None`.
pub fn maybe_route_effort(prompt: &str, cfg: &EffortRouterConfig, pinned: bool) -> (r: Option<
    ReasoningEffort,
>)
    ensures
        r == (if !cfg.enabled || pinned {
            None
        } else {
            Some(routed_effort(prompt@, *cfg))
        }),
{
    if !cfg.enabled || pinned {
        return None;
    }
    Some(route_effort(prompt, cfg))
}

/// Obvious-enough verdict on a prompt: a short simple-chat turn is low, a hard
/// coding task is high, anything else is not obvious.
pub open spec fn obvious_effort(prompt: Seq<char>) -> Option<ReasoningEffort> {
    let t = trim(prompt);
    let n = t.len() as int;
    let l = lower(t);
    if simple_signal(l, n) && n < 40 {
        Some(ReasoningEffort::Low)
    } else if hard_signal(l) && coding_signal(l) {
        Some(ReasoningEffort::High)
    } else {
        None
    }
}

/// Obvious-enough heuristic: greeting-short → low, hard+coding → high.
pub fn heuristic_is_obvious(prompt: &str) -> (r: Option<ReasoningEffort>)
    ensures
        r == obvious_effort(prompt@),
{
    let (lower, char_len) = prepare(prompt);
    if has_simple_signal(&lower, char_len) && char_len < 40 {
        return Some(ReasoningEffort::Low);
    }
    if has_hard_signal(&lower) && has_coding_signal(&lower) {
        return Some(ReasoningEffort::High);
    }
    None
}

/// The v0 scorer's decision, at confidence 0.4, with the source's token as reason.
pub open spec fn heuristic_view(prompt: Seq<char>, cfg: EffortRouterConfig, source: DecisionSource) -> RouteDecisionView {
    decision(routed_effort(prompt, cfg), source, 400_000, source_token(source), cfg)
}

fn heuristic_decision(prompt: &str, cfg: &EffortRouterConfig, source: DecisionSource) -> (d: RouteDecision)
    ensures
        d@ == heuristic_view(prompt@, *cfg, source),
{
    RouteDecision::new(route_effort(prompt, cfg), source, 400_000, String::from_str(source.as_str()), cfg)
}

/// The sync half of the cascade, in order: off or pinned → nothing; escalated → high;
/// a stage verdict (outside classifier mode); heuristic mode → the scorer; hybrid mode
/// and an obvious prompt → the obvious level; a mode that allows the judge → ask it;
/// otherwise the scorer, falling open.
pub open spec fn cascade(
    prompt: Seq<char>,
    cfg: EffortRouterConfig,
    pinned: bool,
    escalated: bool,
    stage: Option<StageVerdict>,
) -> Option<CascadeStepView> {
    if !cfg.enabled || pinned {
        None
    } else if escalated {
        Some(
            CascadeStepView::Done(
                decision(
                    ReasoningEffort::High,
                    DecisionSource::Escalation,
                    CONFIDENCE_ONE,
                    "session escalated after repeated bad turns"@,
                    cfg,
                ),
            ),
        )
    } else if cfg.mode != RouterMode::Classifier && stage is Some {
        let v = stage->0;
        Some(
            CascadeStepView::Done(
                decision(v.effort, v.source, v.confidence, "stage "@ + source_token(v.source), cfg),
            ),
        )
    } else if cfg.mode == RouterMode::Heuristic {
        Some(CascadeStepView::Done(heuristic_view(prompt, cfg, DecisionSource::Heuristic)))
    } else if cfg.mode == RouterMode::Hybrid && obvious_effort(prompt) is Some {
        Some(
            CascadeStepView::Done(
                decision(
                    obvious_effort(prompt)->0,
                    DecisionSource::Heuristic,
                    800_000,
                    "obvious heuristic"@,
                    cfg,
                ),
            ),
        )
    } else if cfg.mode == RouterMode::Hybrid || cfg.mode == RouterMode::Classifier {
        Some(CascadeStepView::NeedClassifier)
    } else {
        Some(CascadeStepView::Done(heuristic_view(prompt, cfg, DecisionSource::FallOpen)))
    }
}

/// Sync half of the cascade. Callers that get [`CascadeStep::NeedClassifier`]
/// run the judge and finish with [`finish_cascade`].
pub fn route_cascade(
    prompt: &str,
    cfg: &EffortRouterConfig,
    pinned: bool,
    escalated: bool,
    stage: Option<StageVerdict>,
) -> (r: Option<CascadeStep>)
    ensures
        step_view(r) == cascade(prompt@, *cfg, pinned, escalated, stage),
{
    if !cfg.enabled || pinned {
        return None;
    }
    if escalated {
        return Some(
            CascadeStep::Done(
                RouteDecision::new(
                    ReasoningEffort::High,
                    DecisionSource::Escalation,
                    CONFIDENCE_ONE,
                    String::from_str("session escalated after repeated bad turns"),
                    cfg,
                ),
            ),
        );
    }
    if cfg.mode != RouterMode::Classifier {
        if let Some(v) = stage {
            let mut reason = String::from_str("stage ");
            reason.append(v.source.as_str());
            return Some(CascadeStep::Done(RouteDecision::new(v.effort, v.source, v.confidence, reason, cfg)));
        }
    }
    if cfg.mode == RouterMode::Heuristic {
        return Some(CascadeStep::Done(heuristic_decision(prompt, cfg, DecisionSource::Heuristic)));
    }
    if cfg.mode == RouterMode::Hybrid {
        if let Some(effort) = heuristic_is_obvious(prompt) {
            return Some(
                CascadeStep::Done(
                    RouteDecision::new(
                        effort,
                        DecisionSource::Heuristic,
                        800_000,
                        String::from_str("obvious heuristic"),
                        cfg,
                    ),
                ),
            );
        }
    }
    if cfg.mode.allows_classifier() {
        return Some(CascadeStep::NeedClassifier);
    }
    Some(CascadeStep::Done(heuristic_decision(prompt, cfg, DecisionSource::FallOpen)))
}

/// A judge verdict as a decision (reason `"classifier"` when the judge gave none),
/// or the scorer falling open when there is no verdict.
pub open spec fn finished(prompt: Seq<char>, cfg: EffortRouterConfig, verdict: Option<(ReasoningEffort, u32, Seq<char>)>) -> RouteDecisionView {
    match verdict {
        Some(v) => decision(
            v.0,
            DecisionSource::Classifier,
            v.1,
            if v.2.len() == 0 { "classifier"@ } else { v.2 },
            cfg,
        ),
        None => heuristic_view(prompt, cfg, DecisionSource::FallOpen),
    }
}

/// A judge verdict as values.
pub open spec fn verdict_view(v: Option<ClassifierVerdict>) -> Option<(ReasoningEffort, u32, Seq<char>)> {
    match v {
        Some(v) => Some((v.effort, v.confidence, v.reason@)),
        None => None,
    }
}

/// Apply a judge verdict, or fall open to the heuristic.
pub fn finish_cascade(prompt: &str, cfg: &EffortRouterConfig, verdict: Option<ClassifierVerdict>) -> (d: RouteDecision)
    ensures
        d@ == finished(prompt@, *cfg, verdict_view(verdict)),
{
    if let Some(v) = verdict {
        let reason = if v.reason.as_str().is_empty() {
            String::from_str("classifier")
        } else {
            v.reason
        };
        return RouteDecision::new(v.effort, DecisionSource::Classifier, v.confidence, reason, cfg);
    }
    heuristic_decision(prompt, cfg, DecisionSource::FallOpen)
}

/// Status / log label: `medium`, or `medium (auto)` when the router chose.
pub fn format_effort_status(effort: ReasoningEffort, auto: bool) -> (s: String)
    ensures
        s@ == (if auto { effort_token(effort) + " (auto)"@ } else { effort_token(effort) }),
{
    let mut s = String::from_str(effort.as_str());
    if auto {
        s.append(" (auto)");
    }
    s
}

/// True when set_session_model meta asks to re-enable the per-turn router: the
/// string stored under [`REASONING_EFFORT_META_KEY`] (`None` when the meta, the
/// key or a string value is missing) is `auto` in any ASCII case.
pub fn is_effort_auto_meta(meta_effort: Option<&str>) -> (b: bool)
    ensures
        b == (meta_effort is Some && lower(meta_effort->0@) == lower("auto"@)),
{
    match meta_effort {
        Some(s) => {
            let a = chars_of(s);
            let auto = chars_of("auto");
            eq_ignore_ascii_case_chars(&a, &auto)
        },
        None => false,
    }
}

} // verus!
