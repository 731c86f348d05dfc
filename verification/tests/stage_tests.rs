use groka::effort::ReasoningEffort;
use groka::router::{DecisionSource, StageVerdict};
use groka::stage::{collect_stage_signals, score_stage, stage_balance, turn_was_bad, StageSignals, ToolOutcome};

fn outcome(name: &str, ok: u32, fail: u32) -> ToolOutcome {
    ToolOutcome { tool_name: name.to_string(), successes: ok, failures: fail }
}

/// The stage confidence (`tanh` of the lean) and a `[0, 1]` threshold, in millionths.
fn score(s: &StageSignals, threshold: f32) -> Option<StageVerdict> {
    let lean = stage_balance(s) as f64 / 2_000_000.0;
    let confidence = (lean.abs().tanh() * 1_000_000.0).round() as u32;
    score_stage(s, (threshold as f64 * 1_000_000.0).round() as u32, confidence)
}

#[test]
fn empty_outcomes_score_none() {
    let s = collect_stage_signals(&[], false);
    assert_eq!(s, StageSignals::default());
    assert!(score(&s, 0.5).is_none());
}

#[test]
fn one_signal_stays_under_half() {
    let s = collect_stage_signals(&[outcome("read_file", 2, 0)], false);
    assert!(s.exploring > 0);
    assert!(score(&s, 0.5).is_none(), "one explore signal must stay under 0.5");
}

#[test]
fn error_plus_spinning_is_high() {
    let s = collect_stage_signals(
        &[outcome("bash", 0, 2), outcome("read_file", 3, 0), outcome("grep", 2, 0)],
        false,
    );
    let v = score(&s, 0.5).expect("two WRONG signals");
    assert_eq!(v.effort, ReasoningEffort::High);
    assert!(matches!(v.source, DecisionSource::Stage | DecisionSource::Override));
}

#[test]
fn writes_and_passing_shell_are_low() {
    let s = collect_stage_signals(&[outcome("apply_patch", 2, 0), outcome("bash", 1, 0)], false);
    assert!(s.tests_passed);
    let v = score(&s, 0.5).expect("tests_passed");
    assert_eq!(v.effort, ReasoningEffort::Low);
    assert_eq!(v.source, DecisionSource::TestsPassed);
}

#[test]
fn doom_loop_is_critical_override() {
    let s = collect_stage_signals(&[outcome("read_file", 1, 0)], true);
    assert!(s.critical);
    let v = score(&s, 0.5).unwrap();
    assert_eq!(v.source, DecisionSource::Override);
    assert_eq!(v.effort, ReasoningEffort::High);
}

#[test]
fn turn_was_bad_only_on_write_or_shell_failure() {
    assert!(!turn_was_bad(&[outcome("grep", 0, 1)], false));
    assert!(turn_was_bad(&[outcome("bash", 0, 1)], false));
    assert!(turn_was_bad(&[outcome("apply_patch", 0, 1)], false));
    assert!(turn_was_bad(&[], true));
}

#[test]
fn stage_axes_exact_values() {
    let s = collect_stage_signals(
        &[outcome("bash", 0, 2), outcome("read_file", 3, 0), outcome("grep", 2, 0)],
        false,
    );
    // fail 2 of 7 calls: 1.5 * 2/7 = 0.428571...
    assert_eq!(s.severity, 428_571);
    assert_eq!(s.spinning, 1_000_000);
    assert_eq!(s.exploring, 714_286);
    assert_eq!(s.production, 0);
    assert!(!s.critical);
    assert!(!s.tests_passed);
    assert_eq!(stage_balance(&s), 2_000_000);
}

#[test]
fn stage_three_calls_without_writes_spin_partly() {
    let s = collect_stage_signals(&[outcome("read_file", 3, 0)], false);
    assert_eq!(s.spinning, 600_000);
    assert_eq!(s.exploring, 1_000_000);
}

#[test]
fn stage_failing_shell_without_writes_is_critical() {
    let s = collect_stage_signals(&[outcome("run_command", 1, 1)], false);
    assert!(s.critical);
    assert_eq!(s.severity, 750_000);
}

#[test]
fn stage_partial_writes_set_production() {
    let s = collect_stage_signals(&[outcome("edit_file", 1, 3)], false);
    assert_eq!(s.production, 250_000);
    assert_eq!(s.severity, 1_000_000);
    assert_eq!(stage_balance(&s), 1_000_000 - 250_000);
}

#[test]
fn stage_score_below_threshold_is_none_and_side_follows_lean() {
    let s = StageSignals { severity: 0, spinning: 0, exploring: 0, production: 1_000_000, critical: false, tests_passed: false };
    assert_eq!(stage_balance(&s), -1_000_000);
    assert!(score_stage(&s, 500_000, 499_999).is_none());
    let v = score_stage(&s, 500_000, 500_000).unwrap();
    assert_eq!(v.effort, ReasoningEffort::Low);
    assert_eq!(v.source, DecisionSource::Stage);
    assert_eq!(v.confidence, 500_000);
}

#[test]
fn stage_saturating_counts() {
    let s = collect_stage_signals(&[outcome("bash", u32::MAX, u32::MAX), outcome("bash", 5, 0)], false);
    assert_eq!(s.severity, 1_000_000);
    assert!(!s.tests_passed);
}

#[test]
fn stage_ratios_round_to_nearest() {
    // 1 of 3 calls explore: 0.333333...; 2 of 3: 0.666666... rounds up
    let s = collect_stage_signals(&[outcome("grep", 1, 0), outcome("mystery", 2, 0)], false);
    assert_eq!(s.exploring, 333_333);
    let s = collect_stage_signals(&[outcome("grep", 2, 0), outcome("mystery", 1, 0)], false);
    assert_eq!(s.exploring, 666_667);
}
