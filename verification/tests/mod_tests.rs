use groka::effort::{clamp_to_router_triad, effort_rank, ReasoningEffort};
use groka::router::{
    finish_cascade, format_effort_status, is_effort_auto_meta, maybe_route_effort, route_cascade, route_effort,
    CascadeStep, ClassifierVerdict, DecisionSource, EffortRouterConfig, RouterMode, REASONING_EFFORT_META_KEY,
};

fn cfg(preference: u8, floor: ReasoningEffort, ceiling: ReasoningEffort) -> EffortRouterConfig {
    EffortRouterConfig {
        enabled: true,
        preference,
        floor,
        ceiling,
        ..EffortRouterConfig::default()
    }
}

#[test]
fn mod_default_matches_ship_values() {
    let c = EffortRouterConfig::default();
    assert!(c.enabled);
    assert_eq!(c.preference, 3);
    assert_eq!(c.floor, ReasoningEffort::Low);
    assert_eq!(c.ceiling, ReasoningEffort::High);
    assert_eq!(c.mode, RouterMode::Hybrid);
    assert_eq!(c.confidence_threshold, 50);
    assert_eq!(c.escalation_strikes, 2);
}

#[test]
fn mod_simple_short_prompt_is_low() {
    let c = cfg(3, ReasoningEffort::Low, ReasoningEffort::High);
    assert_eq!(route_effort("hi", &c), ReasoningEffort::Low);
    assert_eq!(route_effort("thanks!", &c), ReasoningEffort::Low);
}

#[test]
fn mod_medium_neutral_prompt() {
    let c = cfg(3, ReasoningEffort::Low, ReasoningEffort::High);
    let prompt = "Summarize the main points of this paragraph about local weather patterns over the last week for a brief note.";
    assert_eq!(route_effort(prompt, &c), ReasoningEffort::Medium);
}

#[test]
fn mod_hard_coding_prompt_is_high() {
    let c = cfg(3, ReasoningEffort::Low, ReasoningEffort::High);
    let prompt = "Debug this race condition in the async worker pool and implement a fix with unit tests covering the deadlock.";
    assert_eq!(route_effort(prompt, &c), ReasoningEffort::High);
}

#[test]
fn mod_floor_and_ceiling_clamp() {
    let floor_med = cfg(1, ReasoningEffort::Medium, ReasoningEffort::High);
    assert_eq!(route_effort("hi", &floor_med), ReasoningEffort::Medium);

    let ceil_med = cfg(5, ReasoningEffort::Low, ReasoningEffort::Medium);
    let hard = "Architect a multi-file migration with security review and performance optimization.";
    assert_eq!(route_effort(hard, &ceil_med), ReasoningEffort::Medium);
}

#[test]
fn mod_preference_biases_rank() {
    let low_pref = cfg(1, ReasoningEffort::Low, ReasoningEffort::High);
    let high_pref = cfg(5, ReasoningEffort::Low, ReasoningEffort::High);
    let prompt = "Please explain how iterators work in Rust with a short example.";
    let a = route_effort(prompt, &low_pref);
    let b = route_effort(prompt, &high_pref);
    assert!(effort_rank(a) <= effort_rank(b));
    assert_eq!(b, ReasoningEffort::High);
}

#[test]
fn mod_maybe_route_respects_enabled_and_pin() {
    let mut c = EffortRouterConfig::default();
    assert!(maybe_route_effort("hi", &c, false).is_some());
    assert!(maybe_route_effort("hi", &c, true).is_none());
    c.enabled = false;
    assert!(maybe_route_effort("hi", &c, false).is_none());
}

#[test]
fn mod_inverted_floor_ceiling_swaps() {
    let c = cfg(3, ReasoningEffort::High, ReasoningEffort::Low);
    let (f, hi) = c.clamped_bounds();
    assert_eq!(f, ReasoningEffort::Low);
    assert_eq!(hi, ReasoningEffort::High);
}

#[test]
fn mod_triad_clamp_maps_extreme_catalog_levels() {
    assert_eq!(clamp_to_router_triad(ReasoningEffort::Xhigh), ReasoningEffort::High);
    assert_eq!(clamp_to_router_triad(ReasoningEffort::NoEffort), ReasoningEffort::Low);
}

#[test]
fn mod_precedence_pin_over_router() {
    let c = EffortRouterConfig::default();
    assert_eq!(
        maybe_route_effort("Debug a race condition and implement a fix", &c, true),
        None,
        "pinned must not route"
    );
    assert_eq!(
        maybe_route_effort("Debug a race condition and implement a fix", &c, false),
        Some(ReasoningEffort::High)
    );
}

#[test]
fn mod_format_effort_status_marks_auto() {
    assert_eq!(format_effort_status(ReasoningEffort::Medium, true), "medium (auto)");
    assert_eq!(format_effort_status(ReasoningEffort::High, false), "high");
}

/// Full product precedence as a pure fixture:
/// explicit pin > router > default_reasoning_effort > catalog high.
#[test]
fn mod_precedence_pin_router_default_catalog_chain() {
    fn effective(
        prompt: &str,
        router: &EffortRouterConfig,
        pin: Option<ReasoningEffort>,
        default: Option<ReasoningEffort>,
        catalog: ReasoningEffort,
    ) -> ReasoningEffort {
        if let Some(p) = pin {
            return p;
        }
        if let Some(r) = maybe_route_effort(prompt, router, false) {
            return r;
        }
        default.unwrap_or(catalog)
    }

    let hard = "Debug this race condition in the async worker pool and implement a fix with unit tests.";
    let simple = "hi";
    let mut router = EffortRouterConfig::default();

    assert_eq!(
        effective(hard, &router, Some(ReasoningEffort::Low), Some(ReasoningEffort::Medium), ReasoningEffort::High),
        ReasoningEffort::Low
    );
    assert_eq!(
        effective(hard, &router, None, Some(ReasoningEffort::Low), ReasoningEffort::High),
        ReasoningEffort::High
    );
    assert_eq!(
        effective(simple, &router, None, Some(ReasoningEffort::High), ReasoningEffort::High),
        ReasoningEffort::Low
    );
    router.enabled = false;
    assert_eq!(
        effective(hard, &router, None, Some(ReasoningEffort::Medium), ReasoningEffort::High),
        ReasoningEffort::Medium
    );
    assert_eq!(effective(hard, &router, None, None, ReasoningEffort::High), ReasoningEffort::High);
}

fn meta_effort(m: &serde_json::Map<String, serde_json::Value>) -> Option<&str> {
    m.get(REASONING_EFFORT_META_KEY).and_then(|v| v.as_str())
}

#[test]
fn mod_effort_auto_meta_detects_token() {
    let mut m = serde_json::Map::new();
    m.insert(REASONING_EFFORT_META_KEY.into(), serde_json::Value::String("auto".into()));
    assert!(is_effort_auto_meta(meta_effort(&m)));
    m.insert(REASONING_EFFORT_META_KEY.into(), serde_json::Value::String("high".into()));
    assert!(!is_effort_auto_meta(meta_effort(&m)));
    assert!(!is_effort_auto_meta(None));
}

#[test]
fn cascade_pin_and_disabled_return_none() {
    let mut c = EffortRouterConfig::default();
    assert!(route_cascade("hi", &c, true, false, None).is_none());
    c.enabled = false;
    assert!(route_cascade("hi", &c, false, false, None).is_none());
}

#[test]
fn cascade_escalated_ignores_hi() {
    let c = EffortRouterConfig::default();
    match route_cascade("hi", &c, false, true, None) {
        Some(CascadeStep::Done(d)) => {
            assert_eq!(d.effort, ReasoningEffort::High);
            assert_eq!(d.source, DecisionSource::Escalation);
        }
        other => panic!("expected escalation, got {other:?}"),
    }
}

#[test]
fn cascade_hybrid_obvious_skips_classifier() {
    let c = EffortRouterConfig::default();
    match route_cascade("hi", &c, false, false, None) {
        Some(CascadeStep::Done(d)) => {
            assert_eq!(d.effort, ReasoningEffort::Low);
            assert_eq!(d.source, DecisionSource::Heuristic);
        }
        other => panic!("expected obvious heuristic, got {other:?}"),
    }
    let hard = "Debug this race condition and implement a fix with unit tests.";
    match route_cascade(hard, &c, false, false, None) {
        Some(CascadeStep::Done(d)) => {
            assert_eq!(d.effort, ReasoningEffort::High);
            assert_eq!(d.source, DecisionSource::Heuristic);
        }
        other => panic!("expected obvious high, got {other:?}"),
    }
}

#[test]
fn cascade_ambiguous_asks_for_classifier() {
    let c = EffortRouterConfig::default();
    let prompt = "Can you take a look at this and tell me what you think?";
    match route_cascade(prompt, &c, false, false, None) {
        Some(CascadeStep::NeedClassifier) => {}
        other => panic!("expected NeedClassifier, got {other:?}"),
    }
}

#[test]
fn cascade_heuristic_mode_never_asks_classifier() {
    let mut c = EffortRouterConfig::default();
    c.mode = RouterMode::Heuristic;
    let prompt = "Can you take a look at this and tell me what you think?";
    match route_cascade(prompt, &c, false, false, None) {
        Some(CascadeStep::Done(d)) => {
            assert_eq!(d.source, DecisionSource::Heuristic);
        }
        other => panic!("expected heuristic Done, got {other:?}"),
    }
}

#[test]
fn finish_cascade_timeout_falls_open() {
    let c = EffortRouterConfig::default();
    let d = finish_cascade("Summarize the last week's weather in two sentences please.", &c, None);
    assert_eq!(d.source, DecisionSource::FallOpen);
    assert_eq!(d.effort, route_effort("Summarize the last week's weather in two sentences please.", &c));
}

#[test]
fn finish_cascade_uses_verdict() {
    let c = EffortRouterConfig::default();
    let d = finish_cascade(
        "anything",
        &c,
        Some(ClassifierVerdict {
            effort: ReasoningEffort::High,
            confidence: (0.91f64 * 1_000_000.0).round() as u32,
            reason: "underspecified architecture".into(),
        }),
    );
    assert_eq!(d.source, DecisionSource::Classifier);
    assert_eq!(d.effort, ReasoningEffort::High);
    assert_eq!(d.reason, "underspecified architecture");
}
