use groka::effort::{effort_rank, ReasoningEffort};
use groka::router::{finish_cascade, route_cascade, route_effort, CascadeStep, DecisionSource, EffortRouterConfig, RouterMode, StageVerdict};

fn cfg(preference: u8, floor: ReasoningEffort, ceiling: ReasoningEffort) -> EffortRouterConfig {
    EffortRouterConfig { preference, floor, ceiling, ..EffortRouterConfig::default() }
}

const PROMPTS: [&str; 5] = [
    "hi",
    "Please explain how iterators work in Rust with a short example.",
    "Debug this race condition and implement a fix with unit tests.",
    "Can you take a look at this and tell me what you think?",
    "Summarize the last week's weather in two sentences please.",
];

#[test]
fn law_routed_effort_within_bounds_examples() {
    let levels = [ReasoningEffort::NoEffort, ReasoningEffort::Low, ReasoningEffort::Medium, ReasoningEffort::High, ReasoningEffort::Max];
    for p in PROMPTS {
        for f in levels {
            for c in levels {
                for pref in 0..=7 {
                    let conf = cfg(pref, f, c);
                    let (lo, hi) = conf.clamped_bounds();
                    let r = route_effort(p, &conf);
                    assert!(effort_rank(lo) <= effort_rank(r) && effort_rank(r) <= effort_rank(hi));
                }
            }
        }
    }
}

#[test]
fn law_preference_monotone_examples() {
    for p in PROMPTS {
        for pref in 0..7u8 {
            let a = route_effort(p, &cfg(pref, ReasoningEffort::Low, ReasoningEffort::High));
            let b = route_effort(p, &cfg(pref + 1, ReasoningEffort::Low, ReasoningEffort::High));
            assert!(effort_rank(a) <= effort_rank(b));
        }
    }
}

#[test]
fn law_fall_open_is_scorer_examples() {
    for p in PROMPTS {
        let c = cfg(4, ReasoningEffort::Medium, ReasoningEffort::High);
        let d = finish_cascade(p, &c, None);
        assert_eq!(d.effort, route_effort(p, &c));
        assert_eq!(d.source, DecisionSource::FallOpen);
        assert_eq!(d.reason, "fall_open");
    }
}

#[test]
fn law_escalation_is_ceiling_example() {
    let c = cfg(3, ReasoningEffort::Low, ReasoningEffort::Medium);
    match route_cascade("anything", &c, false, true, None) {
        Some(CascadeStep::Done(d)) => {
            assert_eq!(d.effort, ReasoningEffort::Medium);
            assert_eq!(d.reason, "session escalated after repeated bad turns");
        }
        other => panic!("expected escalation, got {other:?}"),
    }
}

#[test]
fn law_mode_gates_judge_and_stage_examples() {
    let stage = Some(StageVerdict { effort: ReasoningEffort::High, confidence: 700_000, source: DecisionSource::Stage });
    let mut c = EffortRouterConfig::default();
    match route_cascade("whatever you think", &c, false, false, stage) {
        Some(CascadeStep::Done(d)) => {
            assert_eq!(d.effort, ReasoningEffort::High);
            assert_eq!(d.reason, "stage stage");
            assert_eq!(d.confidence, 700_000);
        }
        other => panic!("expected stage decision, got {other:?}"),
    }
    c.mode = RouterMode::Classifier;
    assert!(matches!(route_cascade("hi", &c, false, false, stage), Some(CascadeStep::NeedClassifier)));
    c.mode = RouterMode::Heuristic;
    for p in PROMPTS {
        assert!(!matches!(route_cascade(p, &c, false, false, None), Some(CascadeStep::NeedClassifier)));
    }
}

#[test]
fn law_heuristic_mode_is_scorer_examples() {
    let mut c = cfg(2, ReasoningEffort::Low, ReasoningEffort::High);
    c.mode = RouterMode::Heuristic;
    for p in PROMPTS {
        match route_cascade(p, &c, false, false, None) {
            Some(CascadeStep::Done(d)) => {
                assert_eq!(d.effort, route_effort(p, &c));
                assert_eq!(d.source, DecisionSource::Heuristic);
                assert_eq!(d.confidence, 400_000);
            }
            other => panic!("expected heuristic decision, got {other:?}"),
        }
    }
}
