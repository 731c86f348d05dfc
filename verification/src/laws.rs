//! Properties that relate the router's functions across inputs and calls.

use vstd::prelude::*;
use crate::classifier::{verdict_of, JudgeFieldsView};
use crate::effort::{bounded_level, in_triad, level_of_rank, rank_of, triad_of, ReasoningEffort};
use crate::router::{
    bounds, cascade, finished, heuristic_view, routed_effort, source_token, CascadeStepView, DecisionSource,
    EffortRouterConfig, RouteDecisionView, RouterMode, StageVerdict, CONFIDENCE_ONE,
};
use crate::signals::{coding_signal, hard_signal, simple_signal};
use crate::text::{lower, trim};
use crate::stage::{
    balance, explore_tools, no_signals, shell_tools, signals_of, stage_verdict, tally, write_tools, StageSignals,
    ToolOutcome,
};
use crate::text::one_of;

verus! {

/// Folding into the triad twice is folding once, and ranks are those of the triad.
pub proof fn law_triad_fold_idempotent(e: ReasoningEffort)
    ensures
        triad_of(triad_of(e)) == triad_of(e),
        in_triad(triad_of(e)),
        rank_of(triad_of(e)) == rank_of(e),
        0 <= rank_of(e) <= 2,
{
}

/// The bounds are triad levels in order, whatever the configured floor and ceiling.
pub proof fn law_bounds_ordered(cfg: EffortRouterConfig)
    ensures
        in_triad(bounds(cfg).0),
        in_triad(bounds(cfg).1),
        rank_of(bounds(cfg).0) <= rank_of(bounds(cfg).1),
        rank_of(triad_of(cfg.floor)) > rank_of(triad_of(cfg.ceiling)) ==> bounds(cfg) == (
            triad_of(cfg.ceiling),
            triad_of(cfg.floor),
        ),
{
}

/// A clamped level lies within the bounds, and a level already within them is kept.
pub proof fn law_clamp_within_bounds(rank: int, f: ReasoningEffort, c: ReasoningEffort)
    requires
        in_triad(f),
        in_triad(c),
        rank_of(f) <= rank_of(c),
    ensures
        in_triad(bounded_level(rank, f, c)),
        rank_of(f) <= rank_of(bounded_level(rank, f, c)) <= rank_of(c),
        rank_of(f) <= rank <= rank_of(c) ==> rank_of(bounded_level(rank, f, c)) == rank,
{
}

/// Clamping is monotone in the rank.
pub proof fn law_clamp_monotone(r1: int, r2: int, f: ReasoningEffort, c: ReasoningEffort)
    requires
        r1 <= r2,
        rank_of(f) <= rank_of(c),
    ensures
        rank_of(bounded_level(r1, f, c)) <= rank_of(bounded_level(r2, f, c)),
{
}

/// Clamping a triad level that already lies within the bounds gives it back.
pub proof fn law_clamp_keeps_level(e: ReasoningEffort, f: ReasoningEffort, c: ReasoningEffort)
    requires
        in_triad(e),
        rank_of(f) <= rank_of(e) <= rank_of(c),
    ensures
        bounded_level(rank_of(e), f, c) == e,
{
}

/// The scorer always picks a triad level within the configured bounds.
pub proof fn law_routed_within_bounds(prompt: Seq<char>, cfg: EffortRouterConfig)
    ensures
        in_triad(routed_effort(prompt, cfg)),
        rank_of(bounds(cfg).0) <= rank_of(routed_effort(prompt, cfg)) <= rank_of(bounds(cfg).1),
{
    law_clamp_within_bounds(crate::router::prompt_rank(prompt, cfg.preference), bounds(cfg).0, bounds(cfg).1);
}

/// A higher preference never lowers the effort the scorer picks for a prompt.
pub proof fn law_preference_monotone(prompt: Seq<char>, cfg: EffortRouterConfig, p1: u8, p2: u8)
    requires
        p1 <= p2,
    ensures
        rank_of(routed_effort(prompt, EffortRouterConfig { preference: p1, ..cfg })) <= rank_of(
            routed_effort(prompt, EffortRouterConfig { preference: p2, ..cfg }),
        ),
{
    let c1 = EffortRouterConfig { preference: p1, ..cfg };
    let c2 = EffortRouterConfig { preference: p2, ..cfg };
    assert(bounds(c1) == bounds(c2));
    law_clamp_monotone(
        crate::router::prompt_rank(prompt, p1),
        crate::router::prompt_rank(prompt, p2),
        bounds(cfg).0,
        bounds(cfg).1,
    );
}

/// Without a judge verdict the cascade falls open to exactly what the scorer picks.
pub proof fn law_fall_open_is_scorer(prompt: Seq<char>, cfg: EffortRouterConfig)
    ensures
        finished(prompt, cfg, None).effort == routed_effort(prompt, cfg),
        finished(prompt, cfg, None).source == DecisionSource::FallOpen,
{
    law_routed_within_bounds(prompt, cfg);
    law_clamp_keeps_level(routed_effort(prompt, cfg), bounds(cfg).0, bounds(cfg).1);
}

/// A pinned effort or a disabled router is never overridden by the cascade.
pub proof fn law_pin_or_disabled_never_routes(
    prompt: Seq<char>,
    cfg: EffortRouterConfig,
    pinned: bool,
    escalated: bool,
    stage: Option<StageVerdict>,
)
    requires
        pinned || !cfg.enabled,
    ensures
        cascade(prompt, cfg, pinned, escalated, stage) is None,
{
}

/// Every decision the cascade reaches lies within the configured bounds.
pub proof fn law_cascade_within_bounds(
    prompt: Seq<char>,
    cfg: EffortRouterConfig,
    pinned: bool,
    escalated: bool,
    stage: Option<StageVerdict>,
)
    ensures
        match cascade(prompt, cfg, pinned, escalated, stage) {
            Some(CascadeStepView::Done(d)) => in_triad(d.effort) && rank_of(bounds(cfg).0) <= rank_of(
                d.effort,
            ) <= rank_of(bounds(cfg).1),
            _ => true,
        },
{
    law_bounds_ordered(cfg);
    law_routed_within_bounds(prompt, cfg);
    let f = bounds(cfg).0;
    let c = bounds(cfg).1;
    law_clamp_within_bounds(rank_of(ReasoningEffort::High), f, c);
    law_clamp_within_bounds(rank_of(routed_effort(prompt, cfg)), f, c);
    if stage is Some {
        law_clamp_within_bounds(rank_of(stage->0.effort), f, c);
    }
    if crate::router::obvious_effort(prompt) is Some {
        law_clamp_within_bounds(rank_of(crate::router::obvious_effort(prompt)->0), f, c);
    }
}

/// An escalated session (router on, unpinned) gets the highest effort the bounds allow.
pub proof fn law_escalation_is_ceiling(
    prompt: Seq<char>,
    cfg: EffortRouterConfig,
    stage: Option<StageVerdict>,
)
    requires
        cfg.enabled,
    ensures
        match cascade(prompt, cfg, false, true, stage) {
            Some(CascadeStepView::Done(d)) => d.effort == bounds(cfg).1 && d.source == DecisionSource::Escalation
                && d.confidence == CONFIDENCE_ONE,
            _ => false,
        },
{
    law_bounds_ordered(cfg);
}

/// Heuristic mode never asks for the judge; classifier mode ignores stage verdicts.
pub proof fn law_mode_gates_judge_and_stage(
    prompt: Seq<char>,
    cfg: EffortRouterConfig,
    pinned: bool,
    escalated: bool,
    stage: Option<StageVerdict>,
)
    ensures
        cfg.mode == RouterMode::Heuristic ==> !(cascade(prompt, cfg, pinned, escalated, stage) matches Some(
            CascadeStepView::NeedClassifier,
        )),
        cfg.mode == RouterMode::Classifier ==> cascade(prompt, cfg, pinned, escalated, stage) == cascade(
            prompt,
            cfg,
            pinned,
            escalated,
            None,
        ),
{
}

/// A quiet turn (no outcomes, no doom loop) yields no signal and no stage verdict.
pub proof fn law_quiet_turn_has_no_verdict(threshold: u32, confidence: u32)
    ensures
        signals_of(tally(Seq::<ToolOutcome>::empty()), false) == no_signals(),
        stage_verdict(no_signals(), threshold, confidence) is None,
{
}

/// A doom loop is a critical override to high effort, whatever else the turn did.
pub proof fn law_doom_loop_forces_high(outcomes: Seq<ToolOutcome>, threshold: u32, confidence: u32)
    ensures
        signals_of(tally(outcomes), true).critical,
        signals_of(tally(outcomes), true).severity == CONFIDENCE_ONE,
        stage_verdict(signals_of(tally(outcomes), true), threshold, confidence) == Some(
            StageVerdict { effort: ReasoningEffort::High, confidence: CONFIDENCE_ONE, source: DecisionSource::Override },
        ),
{
}

/// One WRONG axis on its own leans at most half way (twice the lean is at most
/// `CONFIDENCE_ONE`); two full WRONG axes with no production lean all the way.
pub proof fn law_one_axis_leans_at_most_half(s: StageSignals)
    requires
        s.severity <= CONFIDENCE_ONE,
        s.spinning <= CONFIDENCE_ONE,
        s.exploring <= CONFIDENCE_ONE,
    ensures
        (s.production == 0 && ((s.spinning == 0 && s.exploring == 0) || (s.severity == 0 && s.exploring == 0) || (
        s.severity == 0 && s.spinning == 0))) ==> 0 <= balance(s) <= CONFIDENCE_ONE,
        (s.production == 0 && s.severity == CONFIDENCE_ONE && s.spinning == CONFIDENCE_ONE) ==> balance(s) == 2
            * CONFIDENCE_ONE,
{
}

/// A judge verdict is a triad level, with a confidence in `0..=CONFIDENCE_ONE` and a
/// reason of at most 80 chars.
pub proof fn law_verdict_bounded(f: Option<JudgeFieldsView>)
    ensures
        match verdict_of(f) {
            Some(v) => in_triad(v.0) && v.1 <= CONFIDENCE_ONE && v.2.len() <= 80,
            None => true,
        },
{
    if let Some(ff) = f {
        if let Some(c) = ff.confidence {
            if let Some(v) = crate::decimal::number_millionths(c) {
                assert(v <= 1_000_000);
            }
        }
    }
}

/// Reading the wire token of any level gives back that level folded into the triad.
pub proof fn law_token_roundtrip(e: ReasoningEffort)
    ensures
        crate::classifier::effort_of_token(crate::effort::effort_token(e)) == Some(triad_of(e)),
{
    reveal_strlit("none");
    reveal_strlit("minimal");
    reveal_strlit("low");
    reveal_strlit("medium");
    reveal_strlit("high");
    reveal_strlit("xhigh");
    reveal_strlit("max");
    let t = crate::effort::effort_token(e);
    assert(!crate::text::is_ws(t[0]));
    assert(!crate::text::is_ws(t.last()));
    assert(crate::text::trim_start(t) == t);
    assert(crate::text::trim_end(t) == t);
    assert(crate::text::lower(t) =~= t);
}

/// Heuristic mode is the keyword/length scorer: without escalation or a stage
/// verdict the cascade decides exactly what the scorer picks.
pub proof fn law_heuristic_mode_is_scorer(prompt: Seq<char>, cfg: EffortRouterConfig)
    requires
        cfg.enabled,
        cfg.mode == RouterMode::Heuristic,
    ensures
        match cascade(prompt, cfg, false, false, None) {
            Some(CascadeStepView::Done(d)) => d.effort == routed_effort(prompt, cfg) && d.source
                == DecisionSource::Heuristic,
            _ => false,
        },
{
    law_routed_within_bounds(prompt, cfg);
    law_clamp_keeps_level(routed_effort(prompt, cfg), bounds(cfg).0, bounds(cfg).1);
}

/// Outside classifier mode a stage verdict decides the turn, whatever the prompt
/// says: it comes before the obvious heuristic, the scorer and the judge. Its
/// level is kept when the bounds allow it and clamped to them otherwise.
pub proof fn law_stage_verdict_decides(prompt: Seq<char>, other: Seq<char>, cfg: EffortRouterConfig, v: StageVerdict)
    requires
        cfg.enabled,
        cfg.mode != RouterMode::Classifier,
    ensures
        cascade(prompt, cfg, false, false, Some(v)) == cascade(other, cfg, false, false, Some(v)),
        cascade(prompt, cfg, false, false, Some(v)) == Some(
            CascadeStepView::Done(
                RouteDecisionView {
                    effort: bounded_level(rank_of(v.effort), bounds(cfg).0, bounds(cfg).1),
                    source: v.source,
                    confidence: v.confidence,
                    reason: "stage "@ + source_token(v.source),
                },
            ),
        ),
        in_triad(v.effort) && rank_of(bounds(cfg).0) <= rank_of(v.effort) <= rank_of(bounds(cfg).1) ==> bounded_level(
            rank_of(v.effort),
            bounds(cfg).0,
            bounds(cfg).1,
        ) == v.effort,
{
    law_bounds_ordered(cfg);
    if in_triad(v.effort) && rank_of(bounds(cfg).0) <= rank_of(v.effort) <= rank_of(bounds(cfg).1) {
        law_clamp_keeps_level(v.effort, bounds(cfg).0, bounds(cfg).1);
    }
}

/// With the full low..=high range and neutral preference, a prompt of ordinary
/// length (40..=400 chars, trimmed) without simple-chat words is routed to medium,
/// and to high as soon as it names a hard task or a coding task. A short prompt
/// that names neither is routed to low; a long one that names either, to high.
pub proof fn law_scorer_keyword_buckets(prompt: Seq<char>, cfg: EffortRouterConfig)
    requires
        triad_of(cfg.floor) == ReasoningEffort::Low,
        triad_of(cfg.ceiling) == ReasoningEffort::High,
        cfg.preference == 3,
    ensures
        ({
            let t = trim(prompt);
            let n = t.len() as int;
            let l = lower(t);
            &&& (40 <= n <= 400 && !simple_signal(l, n) && !hard_signal(l) && !coding_signal(l))
                ==> routed_effort(prompt, cfg) == ReasoningEffort::Medium
            &&& (40 <= n <= 400 && !simple_signal(l, n) && coding_signal(l)) ==> routed_effort(prompt, cfg)
                == ReasoningEffort::High
            &&& (40 <= n <= 400 && !simple_signal(l, n) && hard_signal(l)) ==> routed_effort(prompt, cfg)
                == ReasoningEffort::High
            &&& (n < 40 && !hard_signal(l) && !coding_signal(l)) ==> routed_effort(prompt, cfg)
                == ReasoningEffort::Low
            &&& (n > 400 && (hard_signal(l) || coding_signal(l))) ==> routed_effort(prompt, cfg)
                == ReasoningEffort::High
        }),
{
}

/// A judge verdict decides the finished cascade on its own: the prompt plays no
/// part, the source is the judge and the confidence is the judge's, and the
/// judge's level is kept when the bounds allow it, else clamped to the nearer bound.
pub proof fn law_judge_verdict_decides(
    prompt: Seq<char>,
    other: Seq<char>,
    cfg: EffortRouterConfig,
    v: (ReasoningEffort, u32, Seq<char>),
)
    ensures
        finished(prompt, cfg, Some(v)) == finished(other, cfg, Some(v)),
        finished(prompt, cfg, Some(v)).source == DecisionSource::Classifier,
        finished(prompt, cfg, Some(v)).confidence == v.1,
        rank_of(bounds(cfg).0) <= rank_of(finished(prompt, cfg, Some(v)).effort) <= rank_of(bounds(cfg).1),
        in_triad(v.0) && rank_of(bounds(cfg).0) <= rank_of(v.0) <= rank_of(bounds(cfg).1) ==> finished(
            prompt,
            cfg,
            Some(v),
        ).effort == v.0,
        rank_of(v.0) >= rank_of(bounds(cfg).1) ==> finished(prompt, cfg, Some(v)).effort == bounds(cfg).1,
        rank_of(v.0) <= rank_of(bounds(cfg).0) ==> finished(prompt, cfg, Some(v)).effort == bounds(cfg).0,
{
    law_bounds_ordered(cfg);
    law_clamp_within_bounds(rank_of(v.0), bounds(cfg).0, bounds(cfg).1);
    if in_triad(v.0) && rank_of(bounds(cfg).0) <= rank_of(v.0) <= rank_of(bounds(cfg).1) {
        law_clamp_keeps_level(v.0, bounds(cfg).0, bounds(cfg).1);
    }
}

/// The failure count of a turn is zero only when no outcome failed.
proof fn lemma_no_failures(os: Seq<ToolOutcome>)
    ensures
        tally(os).fail == 0 ==> forall|i: int| 0 <= i < os.len() ==> #[trigger] os[i].failures == 0,
    decreases os.len(),
{
    if os.len() > 0 {
        lemma_no_failures(os.drop_last());
        if tally(os).fail == 0 {
            assert forall|i: int| 0 <= i < os.len() implies #[trigger] os[i].failures == 0 by {
                if i < os.len() - 1 {
                    assert(os.drop_last()[i] == os[i]);
                }
            }
        }
    }
}

/// Tests count as passed only on a turn where no call failed at all.
pub proof fn law_tests_passed_needs_clean_turn(outcomes: Seq<ToolOutcome>, doom: bool)
    ensures
        signals_of(tally(outcomes), doom).tests_passed ==> forall|i: int|
            0 <= i < outcomes.len() ==> #[trigger] outcomes[i].failures == 0,
        (exists|i: int| 0 <= i < outcomes.len() && #[trigger] outcomes[i].failures > 0) ==> !signals_of(
            tally(outcomes),
            doom,
        ).tests_passed,
{
    lemma_no_failures(outcomes);
}

/// Past the overrides and the threshold, the stage verdict takes the side of the
/// lean: high when errors, spinning and exploring together outweigh production,
/// low otherwise; below the threshold there is no verdict.
pub proof fn law_stage_lean_side(s: StageSignals, threshold: u32, confidence: u32)
    requires
        s.severity <= CONFIDENCE_ONE,
        s.spinning <= CONFIDENCE_ONE,
        s.exploring <= CONFIDENCE_ONE,
        s.production <= CONFIDENCE_ONE,
        !s.critical,
        !(s.tests_passed && s.production >= 500_000),
        s.severity > 0 || s.spinning > 0 || s.exploring > 0 || s.production > 0,
    ensures
        confidence < threshold ==> stage_verdict(s, threshold, confidence) is None,
        confidence >= threshold ==> stage_verdict(s, threshold, confidence) is Some,
        confidence >= threshold ==> stage_verdict(s, threshold, confidence)->0.source == DecisionSource::Stage,
        confidence >= threshold ==> stage_verdict(s, threshold, confidence)->0.confidence == confidence,
        (confidence >= threshold && s.severity + s.spinning + s.exploring > s.production) ==> stage_verdict(
            s,
            threshold,
            confidence,
        )->0.effort == ReasoningEffort::High,
        (confidence >= threshold && s.severity + s.spinning + s.exploring <= s.production) ==> stage_verdict(
            s,
            threshold,
            confidence,
        )->0.effort == ReasoningEffort::Low,
{
}

/// Whatever else it says, a prompt over 400 chars (trimmed) is routed high with
/// the full range and neutral preference; one of 40..=400 chars with a simple-chat
/// word and no hard or coding word is routed low.
pub proof fn law_scorer_length_and_chat(prompt: Seq<char>, cfg: EffortRouterConfig)
    requires
        triad_of(cfg.floor) == ReasoningEffort::Low,
        triad_of(cfg.ceiling) == ReasoningEffort::High,
        cfg.preference == 3,
    ensures
        ({
            let t = trim(prompt);
            let n = t.len() as int;
            let l = lower(t);
            &&& n > 400 ==> routed_effort(prompt, cfg) == ReasoningEffort::High
            &&& (40 <= n <= 400 && simple_signal(l, n) && !hard_signal(l) && !coding_signal(l))
                ==> routed_effort(prompt, cfg) == ReasoningEffort::Low
        }),
{
}

/// Preference 5 never routes below medium and preference 1 never above medium,
/// with the full range; one step of preference moves the level by at most one.
pub proof fn law_preference_extremes(prompt: Seq<char>, cfg: EffortRouterConfig, p: u8)
    requires
        triad_of(cfg.floor) == ReasoningEffort::Low,
        triad_of(cfg.ceiling) == ReasoningEffort::High,
        p < 255,
    ensures
        rank_of(routed_effort(prompt, EffortRouterConfig { preference: 5, ..cfg })) >= 1,
        rank_of(routed_effort(prompt, EffortRouterConfig { preference: 1, ..cfg })) <= 1
            || trim(prompt).len() > 400,
        rank_of(routed_effort(prompt, EffortRouterConfig { preference: (p + 1) as u8, ..cfg })) <= rank_of(
            routed_effort(prompt, EffortRouterConfig { preference: p, ..cfg }),
        ) + 1,
{
    let t = trim(prompt);
    let l = lower(t);
    let n = t.len() as int;
    if n > 400 {
        assert(!simple_signal(l, n));
    }
}

/// In hybrid mode, with no escalation and no stage verdict, an obvious prompt is
/// decided by the obvious heuristic at confidence 0.8 and any other prompt goes to
/// the judge; classifier mode always goes to the judge.
pub proof fn law_hybrid_obvious_else_judge(prompt: Seq<char>, cfg: EffortRouterConfig)
    requires
        cfg.enabled,
    ensures
        cfg.mode == RouterMode::Hybrid && crate::router::obvious_effort(prompt) is Some ==> (match cascade(
            prompt,
            cfg,
            false,
            false,
            None,
        ) {
            Some(CascadeStepView::Done(d)) => d.source == DecisionSource::Heuristic && d.confidence == 800_000
                && d.effort == bounded_level(
                rank_of(crate::router::obvious_effort(prompt)->0),
                bounds(cfg).0,
                bounds(cfg).1,
            ),
            _ => false,
        }),
        cfg.mode == RouterMode::Hybrid && crate::router::obvious_effort(prompt) is None ==> cascade(
            prompt,
            cfg,
            false,
            false,
            None,
        ) == Some(CascadeStepView::NeedClassifier),
        cfg.mode == RouterMode::Classifier ==> cascade(prompt, cfg, false, false, None) == Some(
            CascadeStepView::NeedClassifier,
        ),
{
}

/// The judge's reason is kept; an empty one reads `classifier`.
pub proof fn law_judge_reason(prompt: Seq<char>, cfg: EffortRouterConfig, v: (ReasoningEffort, u32, Seq<char>))
    ensures
        v.2.len() > 0 ==> finished(prompt, cfg, Some(v)).reason == v.2,
        v.2.len() == 0 ==> finished(prompt, cfg, Some(v)).reason == "classifier"@,
        finished(prompt, cfg, None).confidence == 400_000,
{
}

/// A call of a tool in `ws`.
pub open spec fn all_of_kind(os: Seq<ToolOutcome>, ws: Seq<Seq<char>>) -> bool {
    forall|i: int| 0 <= i < os.len() ==> one_of(#[trigger] os[i].tool_name@, ws)
}

proof fn lemma_explore_tally(os: Seq<ToolOutcome>)
    requires
        all_of_kind(os, explore_tools()),
        forall|i: int| 0 <= i < os.len() ==> !one_of(#[trigger] os[i].tool_name@, write_tools()),
    ensures
        tally(os).explores == tally(os).total,
        tally(os).writes == 0,
        tally(os).shells == 0,
        forall|i: int| 0 <= i < os.len() ==> tally(os).total >= #[trigger] os[i].successes,
    decreases os.len(),
{
    if os.len() > 0 {
        let d = os.drop_last();
        assert forall|i: int| 0 <= i < d.len() implies one_of(#[trigger] d[i].tool_name@, explore_tools()) by {
            assert(d[i] == os[i]);
        }
        assert forall|i: int| 0 <= i < d.len() implies !one_of(#[trigger] d[i].tool_name@, write_tools()) by {
            assert(d[i] == os[i]);
        }
        lemma_explore_tally(d);
        assert(one_of(os[os.len() - 1].tool_name@, explore_tools()));
        assert(!one_of(os[os.len() - 1].tool_name@, write_tools()));
        assert forall|i: int| 0 <= i < os.len() implies tally(os).total >= #[trigger] os[i].successes by {
            if i < os.len() - 1 {
                assert(d[i] == os[i]);
            }
        }
    }
}

/// A turn of explore calls only, at least one of them with a success, explores
/// fully and produces nothing.
pub proof fn law_explore_only_turn(os: Seq<ToolOutcome>)
    requires
        all_of_kind(os, explore_tools()),
        exists|i: int| 0 <= i < os.len() && #[trigger] os[i].successes > 0,
    ensures
        signals_of(tally(os), false).exploring == CONFIDENCE_ONE,
        signals_of(tally(os), false).production == 0,
        !signals_of(tally(os), false).tests_passed,
{
    assert forall|i: int| 0 <= i < os.len() implies !one_of(#[trigger] os[i].tool_name@, write_tools()) by {
        assert(one_of(os[i].tool_name@, explore_tools()));
        reveal_strlit("read_file");
        reveal_strlit("grep");
        reveal_strlit("codebase_search");
        reveal_strlit("glob");
        reveal_strlit("list_dir");
        reveal_strlit("list_directory");
        reveal_strlit("search_codebase");
        reveal_strlit("apply_patch");
        reveal_strlit("search_replace");
        reveal_strlit("str_replace");
        reveal_strlit("str_replace_editor");
        reveal_strlit("write_file");
        reveal_strlit("edit_file");
        reveal_strlit("create_file");
        let name = os[i].tool_name@;
        if one_of(name, write_tools()) {
            let a = choose|a: int| 0 <= a < explore_tools().len() && name == explore_tools()[a];
            let b = choose|b: int| 0 <= b < write_tools().len() && name == write_tools()[b];
            assert(explore_tools()[a] != write_tools()[b]) by {
                assert(explore_tools()[a].len() != write_tools()[b].len() || explore_tools()[a][0] != write_tools()[b][0]
                    || explore_tools()[a][1] != write_tools()[b][1] || explore_tools()[a][7] != write_tools()[b][7]);
            }
        }
    }
    lemma_explore_tally(os);
    let w = choose|i: int| 0 <= i < os.len() && #[trigger] os[i].successes > 0;
    assert(tally(os).total >= os[w].successes);
    let t = tally(os).total as int;
    assert(t > 0);
    assert(2 * 1_000_000 * t + t == (2 * t) * 1_000_000 + t) by (nonlinear_arith);
    vstd::arithmetic::div_mod::lemma_div_multiples_vanish_fancy(1_000_000, t, 2 * t);
}

proof fn lemma_clean_write_tally(os: Seq<ToolOutcome>)
    requires
        all_of_kind(os, write_tools()),
        forall|i: int| 0 <= i < os.len() ==> #[trigger] os[i].failures == 0,
    ensures
        tally(os).write_ok == tally(os).writes,
        tally(os).writes == tally(os).total,
        tally(os).fail == 0,
        tally(os).shell_fail == 0,
        forall|i: int| 0 <= i < os.len() ==> tally(os).total >= #[trigger] os[i].successes,
    decreases os.len(),
{
    if os.len() > 0 {
        let d = os.drop_last();
        assert forall|i: int| 0 <= i < d.len() implies one_of(#[trigger] d[i].tool_name@, write_tools()) by {
            assert(d[i] == os[i]);
        }
        assert forall|i: int| 0 <= i < d.len() implies #[trigger] d[i].failures == 0 by {
            assert(d[i] == os[i]);
        }
        lemma_clean_write_tally(d);
        assert(one_of(os[os.len() - 1].tool_name@, write_tools()));
        assert(os[os.len() - 1].failures == 0);
        assert forall|i: int| 0 <= i < os.len() implies tally(os).total >= #[trigger] os[i].successes by {
            if i < os.len() - 1 {
                assert(d[i] == os[i]);
            }
        }
    }
}

/// A turn of file edits only, none failing and at least one succeeding, is full
/// production: no error, no spin, no exploring, no critical override.
pub proof fn law_clean_edit_turn(os: Seq<ToolOutcome>)
    requires
        all_of_kind(os, write_tools()),
        forall|i: int| 0 <= i < os.len() ==> #[trigger] os[i].failures == 0,
        exists|i: int| 0 <= i < os.len() && #[trigger] os[i].successes > 0,
    ensures
        signals_of(tally(os), false).production == CONFIDENCE_ONE,
        signals_of(tally(os), false).severity == 0,
        signals_of(tally(os), false).spinning == 0,
        signals_of(tally(os), false).exploring == 0,
        !signals_of(tally(os), false).critical,
        balance(signals_of(tally(os), false)) == -(CONFIDENCE_ONE as int),
{
    lemma_clean_write_tally(os);
    let w = choose|i: int| 0 <= i < os.len() && #[trigger] os[i].successes > 0;
    assert(tally(os).total >= os[w].successes);
    let t = tally(os).writes as int;
    assert(t > 0);
    assert(2 * 1_000_000 * t + t == (2 * t) * 1_000_000 + t) by (nonlinear_arith);
    vstd::arithmetic::div_mod::lemma_div_multiples_vanish_fancy(1_000_000, t, 2 * t);
    let tt = tally(os).total as int;
    assert(2 * 1_000_000 * (3 * 0int) + 2 * tt == 2 * tt);
    vstd::arithmetic::div_mod::lemma_basic_div(2 * tt, 2 * (2 * tt));
}

/// A write tool or a shell tool failing makes the turn bad; a failure of any
/// other tool alone does not, and neither does a clean turn.
pub proof fn law_bad_turn_is_write_or_shell_failure(o: ToolOutcome)
    ensures
        crate::stage::bad_outcome(o) <==> (o.failures > 0 && (one_of(o.tool_name@, write_tools()) || one_of(
            o.tool_name@,
            shell_tools(),
        ))),
        o.failures == 0 ==> !crate::stage::bad_outcome(o),
{
}

/// A critical turn is a high override and a clean tested edit is a low verdict,
/// whatever the confidence and threshold.
pub proof fn law_stage_overrides(s: StageSignals, threshold: u32, confidence: u32)
    ensures
        s.critical ==> stage_verdict(s, threshold, confidence) == Some(
            StageVerdict { effort: ReasoningEffort::High, confidence: CONFIDENCE_ONE, source: DecisionSource::Override },
        ),
        !s.critical && s.tests_passed && s.production >= 500_000 ==> stage_verdict(s, threshold, confidence)
            == Some(
            StageVerdict { effort: ReasoningEffort::Low, confidence: 850_000, source: DecisionSource::TestsPassed },
        ),
        !s.critical && !(s.tests_passed && s.production >= 500_000) && s.severity == 0 && s.spinning == 0
            && s.exploring == 0 && s.production == 0 ==> stage_verdict(s, threshold, confidence) is None,
{
}

/// A lone shell call that failed at least as often as it succeeded is critical.
pub proof fn law_failing_shell_is_critical(o: ToolOutcome)
    requires
        one_of(o.tool_name@, shell_tools()),
        o.failures > 0,
        o.failures >= o.successes,
    ensures
        signals_of(tally(seq![o]), false).critical,
{
    reveal_strlit("bash");
    reveal_strlit("shell");
    reveal_strlit("run_command");
    reveal_strlit("apply_patch");
    reveal_strlit("search_replace");
    reveal_strlit("str_replace");
    reveal_strlit("str_replace_editor");
    reveal_strlit("write_file");
    reveal_strlit("edit_file");
    reveal_strlit("create_file");
    reveal_strlit("read_file");
    reveal_strlit("grep");
    reveal_strlit("codebase_search");
    reveal_strlit("glob");
    reveal_strlit("list_dir");
    reveal_strlit("list_directory");
    reveal_strlit("search_codebase");
    let os = seq![o];
    assert(os.drop_last() =~= Seq::<ToolOutcome>::empty());
    assert(os.last() == o);
    let name = o.tool_name@;
    let a = choose|a: int| 0 <= a < shell_tools().len() && name == shell_tools()[a];
    assert(!one_of(name, write_tools())) by {
        if one_of(name, write_tools()) {
            let b = choose|b: int| 0 <= b < write_tools().len() && name == write_tools()[b];
            assert(shell_tools()[a] != write_tools()[b]) by {
                assert(shell_tools()[a].len() != write_tools()[b].len() || shell_tools()[a][0] != write_tools()[b][0]
                    || shell_tools()[a][1] != write_tools()[b][1]);
            }
        }
    }
    assert(!one_of(name, explore_tools())) by {
        if one_of(name, explore_tools()) {
            let b = choose|b: int| 0 <= b < explore_tools().len() && name == explore_tools()[b];
            assert(shell_tools()[a] != explore_tools()[b]) by {
                assert(shell_tools()[a].len() != explore_tools()[b].len() || shell_tools()[a][0]
                    != explore_tools()[b][0] || shell_tools()[a][1] != explore_tools()[b][1]);
            }
        }
    }
    assert(tally(os.drop_last()).total == 0);
    assert(tally(os).shell_fail == o.failures);
    assert(tally(os).writes == 0);
    assert(tally(os).fail == o.failures);
    assert(tally(os).total > 0);
}

} // verus!
