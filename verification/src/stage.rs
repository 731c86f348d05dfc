//! Switchyard-style stage scorer over last-turn tool outcomes.
//!
//! WRONG (errors / spin / explore) pushes toward high effort.
//! PROGRESS (writes landing, no failures) pushes toward low/medium.
//! Axes are integers in millionths; the caller turns the signed lean into a
//! confidence (`tanh`) and hands it to [`score_stage`].

use vstd::prelude::*;
use crate::effort::ReasoningEffort;
use crate::router::{DecisionSource, StageVerdict, CONFIDENCE_ONE};
use crate::text::{one_of, one_of_exec};

verus! {

/// Tools that write files.
pub open spec fn write_tools() -> Seq<Seq<char>> {
    seq![
        "apply_patch"@,
        "search_replace"@,
        "str_replace"@,
        "str_replace_editor"@,
        "write_file"@,
        "edit_file"@,
        "create_file"@,
    ]
}

/// Tools that read or search the codebase.
pub open spec fn explore_tools() -> Seq<Seq<char>> {
    seq![
        "read_file"@,
        "grep"@,
        "codebase_search"@,
        "glob"@,
        "list_dir"@,
        "list_directory"@,
        "search_codebase"@,
    ]
}

/// Tools that run shell commands.
pub open spec fn shell_tools() -> Seq<Seq<char>> {
    seq![
        "bash"@,
        "shell"@,
        "run_command"@,
    ]
}

fn write_tool_list() -> (v: Vec<&'static str>)
    ensures
        v@.len() == write_tools().len(),
        forall|i: int| 0 <= i < v@.len() ==> #[trigger] v@[i]@ == write_tools()[i],
{
    let mut v: Vec<&'static str> = Vec::new();
    v.push("apply_patch");
    v.push("search_replace");
    v.push("str_replace");
    v.push("str_replace_editor");
    v.push("write_file");
    v.push("edit_file");
    v.push("create_file");
    v
}

fn explore_tool_list() -> (v: Vec<&'static str>)
    ensures
        v@.len() == explore_tools().len(),
        forall|i: int| 0 <= i < v@.len() ==> #[trigger] v@[i]@ == explore_tools()[i],
{
    let mut v: Vec<&'static str> = Vec::new();
    v.push("read_file");
    v.push("grep");
    v.push("codebase_search");
    v.push("glob");
    v.push("list_dir");
    v.push("list_directory");
    v.push("search_codebase");
    v
}

fn shell_tool_list() -> (v: Vec<&'static str>)
    ensures
        v@.len() == shell_tools().len(),
        forall|i: int| 0 <= i < v@.len() ==> #[trigger] v@[i]@ == shell_tools()[i],
{
    let mut v: Vec<&'static str> = Vec::new();
    v.push("bash");
    v.push("shell");
    v.push("run_command");
    v
}

pub fn is_write_tool(name: &str) -> (b: bool)
    ensures
        b == one_of(name@, write_tools()),
{
    one_of_exec(name, &write_tool_list(), Ghost(write_tools()))
}

pub fn is_explore_tool(name: &str) -> (b: bool)
    ensures
        b == one_of(name@, explore_tools()),
{
    one_of_exec(name, &explore_tool_list(), Ghost(explore_tools()))
}

pub fn is_shell_tool(name: &str) -> (b: bool)
    ensures
        b == one_of(name@, shell_tools()),
{
    one_of_exec(name, &shell_tool_list(), Ghost(shell_tools()))
}

/// What one tool did during the last turn.
#[derive(Clone, Debug)]
pub struct ToolOutcome {
    pub tool_name: String,
    pub successes: u32,
    pub failures: u32,
}

/// Axes the cascade reads, in millionths (`0..=CONFIDENCE_ONE`), and the boolean overrides.
#[derive(Clone, Copy, Debug, PartialEq, Eq, Structural)]
pub struct StageSignals {
    pub severity: u32,
    pub spinning: u32,
    pub exploring: u32,
    pub production: u32,
    pub critical: bool,
    pub tests_passed: bool,
}

/// No signal at all.
pub open spec fn no_signals() -> StageSignals {
    StageSignals {
        severity: 0,
        spinning: 0,
        exploring: 0,
        production: 0,
        critical: false,
        tests_passed: false,
    }
}

impl Default for StageSignals {
    fn default() -> (s: Self)
        ensures
            s == no_signals(),
    {
        StageSignals {
            severity: 0,
            spinning: 0,
            exploring: 0,
            production: 0,
            critical: false,
            tests_passed: false,
        }
    }
}

/// `a + b`, saturating at `u32::MAX`.
pub open spec fn sat(a: u32, b: u32) -> u32 {
    if a + b > u32::MAX {
        u32::MAX
    } else {
        (a + b) as u32
    }
}

/// Saturating call counts over a turn's outcomes.
pub struct Tally {
    pub writes: u32,
    pub write_ok: u32,
    pub explores: u32,
    pub shells: u32,
    pub shell_fail: u32,
    pub fail: u32,
    pub total: u32,
}

/// The tally with one more outcome counted: every call counts toward `total` and
/// every failure toward `fail`; calls of a write, explore or shell tool also count
/// in their bucket (writes also count successes, shells also count failures).
pub open spec fn tally_step(t: Tally, o: ToolOutcome) -> Tally {
    let n = sat(o.successes, o.failures);
    let name = o.tool_name@;
    let w = one_of(name, write_tools());
    let e = !w && one_of(name, explore_tools());
    let sh = !w && !e && one_of(name, shell_tools());
    Tally {
        writes: if w { sat(t.writes, n) } else { t.writes },
        write_ok: if w { sat(t.write_ok, o.successes) } else { t.write_ok },
        explores: if e { sat(t.explores, n) } else { t.explores },
        shells: if sh { sat(t.shells, n) } else { t.shells },
        shell_fail: if sh { sat(t.shell_fail, o.failures) } else { t.shell_fail },
        fail: sat(t.fail, o.failures),
        total: sat(t.total, n),
    }
}

/// The tally of a sequence of outcomes, counted in order.
pub open spec fn tally(os: Seq<ToolOutcome>) -> Tally
    decreases os.len(),
{
    if os.len() == 0 {
        Tally { writes: 0, write_ok: 0, explores: 0, shells: 0, shell_fail: 0, fail: 0, total: 0 }
    } else {
        tally_step(tally(os.drop_last()), os.last())
    }
}

/// `CONFIDENCE_ONE * num / den` rounded to nearest (halves up), capped at `CONFIDENCE_ONE`.
pub open spec fn ratio_millionths(num: int, den: int) -> int {
    let r = (2 * CONFIDENCE_ONE * num + den) / (2 * den);
    if r > CONFIDENCE_ONE {
        CONFIDENCE_ONE as int
    } else {
        r
    }
}

/// Stage axes of a tally.
pub open spec fn signals_of(t: Tally, doom: bool) -> StageSignals {
    StageSignals {
        severity: (if doom {
            CONFIDENCE_ONE as int
        } else if t.total == 0 {
            0
        } else {
            ratio_millionths(3 * t.fail, 2 * t.total)
        }) as u32,
        spinning: if t.total >= 4 && t.writes == 0 && t.fail > 0 {
            CONFIDENCE_ONE
        } else if t.total >= 3 && t.writes == 0 {
            600_000
        } else {
            0
        },
        exploring: (if t.explores > 0 && t.writes == 0 {
            ratio_millionths(t.explores as int, if t.total == 0 { 1 } else { t.total as int })
        } else {
            0
        }) as u32,
        production: (if t.writes == 0 {
            0
        } else {
            ratio_millionths(t.write_ok as int, t.writes as int)
        }) as u32,
        critical: doom || (t.shell_fail > 0 && t.writes == 0 && t.total > 0 && 2 * t.fail >= t.total),
        tests_passed: t.write_ok > 0 && t.fail == 0 && t.shell_fail == 0 && t.shells > 0,
    }
}

/// `CONFIDENCE_ONE * num / den` rounded to nearest, capped at `CONFIDENCE_ONE`.
fn ratio_exec(num: u64, den: u64) -> (r: u32)
    requires
        den > 0,
        num <= 2 * (u32::MAX as u64) * 2,
        den <= 2 * (u32::MAX as u64),
    ensures
        r as int == ratio_millionths(num as int, den as int),
{
    let q: u64 = (2_000_000u64 * num + den) / (2 * den);
    if q > 1_000_000 {
        1_000_000
    } else {
        q as u32
    }
}

/// Fold last-turn tool outcomes + a doom-loop flag into stage axes.
pub fn collect_stage_signals(outcomes: &[ToolOutcome], doom_fired: bool) -> (s: StageSignals)
    ensures
        s == signals_of(tally(outcomes@), doom_fired),
        s.severity <= CONFIDENCE_ONE,
        s.spinning <= CONFIDENCE_ONE,
        s.exploring <= CONFIDENCE_ONE,
        s.production <= CONFIDENCE_ONE,
{
    if outcomes.len() == 0 && !doom_fired {
        assert(tally(outcomes@).total == 0);
        return StageSignals::default();
    }
    let mut writes: u32 = 0;
    let mut write_ok: u32 = 0;
    let mut explores: u32 = 0;
    let mut shells: u32 = 0;
    let mut shell_fail: u32 = 0;
    let mut fail: u32 = 0;
    let mut total: u32 = 0;
    let mut i: usize = 0;
    while i < outcomes.len()
        invariant
            i <= outcomes.len(),
            tally(outcomes@.take(i as int)) == (Tally { writes, write_ok, explores, shells, shell_fail, fail, total }),
        decreases outcomes.len() - i,
    {
        let o = &outcomes[i];
        assert(outcomes@.take(i + 1).drop_last() =~= outcomes@.take(i as int));
        let n = o.successes.saturating_add(o.failures);
        total = total.saturating_add(n);
        fail = fail.saturating_add(o.failures);
        if is_write_tool(o.tool_name.as_str()) {
            writes = writes.saturating_add(n);
            write_ok = write_ok.saturating_add(o.successes);
        } else if is_explore_tool(o.tool_name.as_str()) {
            explores = explores.saturating_add(n);
        } else if is_shell_tool(o.tool_name.as_str()) {
            shells = shells.saturating_add(n);
            shell_fail = shell_fail.saturating_add(o.failures);
        }
        i = i + 1;
    }
    assert(outcomes@.take(outcomes.len() as int) =~= outcomes@);
    let severity: u32 = if doom_fired {
        1_000_000
    } else if total == 0 {
        0
    } else {
        ratio_exec(3 * (fail as u64), 2 * (total as u64))
    };
    let spinning: u32 = if total >= 4 && writes == 0 && fail > 0 {
        1_000_000
    } else if total >= 3 && writes == 0 {
        600_000
    } else {
        0
    };
    let exploring: u32 = if explores > 0 && writes == 0 {
        ratio_exec(explores as u64, if total == 0 { 1 } else { total as u64 })
    } else {
        0
    };
    let production: u32 = if writes == 0 {
        0
    } else {
        ratio_exec(write_ok as u64, writes as u64)
    };
    let tests_passed = write_ok > 0 && fail == 0 && shell_fail == 0 && shells > 0;
    let critical = doom_fired || (shell_fail > 0 && writes == 0 && total > 0 && 2 * (fail as u64)
        >= total as u64);
    StageSignals { severity, spinning, exploring, production, critical, tests_passed }
}

/// Twice the signed lean of the axes, in millionths: the WRONG axes
/// (severity + spinning + exploring, capped at two) minus production.
/// Positive leans toward high effort. The stage confidence is
/// `tanh(|balance| / (2 * CONFIDENCE_ONE))`.
pub open spec fn balance(s: StageSignals) -> int {
    let wrong = s.severity + s.spinning + s.exploring;
    (if wrong > 2 * CONFIDENCE_ONE { 2 * CONFIDENCE_ONE as int } else { wrong }) - s.production
}

/// Twice the signed lean of the axes, in millionths (see [`balance`]).
pub fn stage_balance(signals: &StageSignals) -> (b: i64)
    ensures
        b == balance(*signals),
{
    let wrong: u64 = signals.severity as u64 + signals.spinning as u64 + signals.exploring as u64;
    let capped: u64 = if wrong > 2_000_000 { 2_000_000 } else { wrong };
    capped as i64 - signals.production as i64
}

/// Every axis is zero.
pub open spec fn axes_empty(s: StageSignals) -> bool {
    s.severity == 0 && s.spinning == 0 && s.exploring == 0 && s.production == 0
}

/// The stage verdict. A critical turn forces high. Successful file edits with
/// clean shell runs give low. With every axis at zero there is no verdict.
/// Otherwise the side of the lean wins when its confidence reaches the threshold.
pub open spec fn stage_verdict(s: StageSignals, threshold: u32, confidence: u32) -> Option<StageVerdict> {
    if s.critical {
        Some(StageVerdict { effort: ReasoningEffort::High, confidence: CONFIDENCE_ONE, source: DecisionSource::Override })
    } else if s.tests_passed && s.production >= 500_000 {
        Some(StageVerdict { effort: ReasoningEffort::Low, confidence: 850_000, source: DecisionSource::TestsPassed })
    } else if axes_empty(s) {
        None
    } else if confidence < threshold {
        None
    } else {
        Some(
            StageVerdict {
                effort: if balance(s) > 0 { ReasoningEffort::High } else { ReasoningEffort::Low },
                confidence,
                source: DecisionSource::Stage,
            },
        )
    }
}

/// Score stage signals. `None` when there is nothing to act on.
///
/// `threshold` is the bar in millionths (default half of `CONFIDENCE_ONE`);
/// `confidence` is `tanh(|stage_balance(signals)| / (2 * CONFIDENCE_ONE))` in
/// millionths, computed by the caller.
pub fn score_stage(signals: &StageSignals, threshold: u32, confidence: u32) -> (v: Option<StageVerdict>)
    ensures
        v == stage_verdict(*signals, threshold, confidence),
{
    if signals.critical {
        return Some(
            StageVerdict { effort: ReasoningEffort::High, confidence: CONFIDENCE_ONE, source: DecisionSource::Override },
        );
    }
    if signals.tests_passed && signals.production >= 500_000 {
        return Some(
            StageVerdict { effort: ReasoningEffort::Low, confidence: 850_000, source: DecisionSource::TestsPassed },
        );
    }
    let empty = signals.severity == 0 && signals.spinning == 0 && signals.exploring == 0
        && signals.production == 0;
    if empty {
        return None;
    }
    if confidence < threshold {
        return None;
    }
    let effort = if stage_balance(signals) > 0 {
        ReasoningEffort::High
    } else {
        ReasoningEffort::Low
    };
    Some(StageVerdict { effort, confidence, source: DecisionSource::Stage })
}

/// The outcome is a failed call of a write or shell tool.
pub open spec fn bad_outcome(o: ToolOutcome) -> bool {
    o.failures > 0 && (one_of(o.tool_name@, write_tools()) || one_of(o.tool_name@, shell_tools()))
}

/// Last turn counts as a strike when doom-loop fired or a write/shell tool failed.
pub fn turn_was_bad(outcomes: &[ToolOutcome], doom_fired: bool) -> (b: bool)
    ensures
        b == (doom_fired || exists|i: int| 0 <= i < outcomes@.len() && bad_outcome(#[trigger] outcomes@[i])),
{
    if doom_fired {
        return true;
    }
    let mut i: usize = 0;
    while i < outcomes.len()
        invariant
            i <= outcomes.len(),
            forall|j: int| 0 <= j < i ==> !bad_outcome(#[trigger] outcomes@[j]),
        decreases outcomes.len() - i,
    {
        let o = &outcomes[i];
        if o.failures > 0 && (is_write_tool(o.tool_name.as_str()) || is_shell_tool(o.tool_name.as_str())) {
            assert(bad_outcome(outcomes@[i as int]));
            return true;
        }
        i = i + 1;
    }
    false
}

} // verus!
