//! Reasoning-effort levels and the rank arithmetic of the router triad
//! (low | medium | high).

use vstd::prelude::*;

verus! {

/// A reasoning-effort level as offered by a model catalog.
#[derive(Clone, Copy, Debug, PartialEq, Eq, Structural)]
pub enum ReasoningEffort {
    NoEffort,
    Minimal,
    Low,
    Medium,
    High,
    Xhigh,
    Max,
}

/// Router-selectable efforts, in rank order.
pub const ROUTER_EFFORTS: [ReasoningEffort; 3] = [
    ReasoningEffort::Low,
    ReasoningEffort::Medium,
    ReasoningEffort::High,
];

/// The wire token of each level.
pub open spec fn effort_token(e: ReasoningEffort) -> Seq<char> {
    match e {
        ReasoningEffort::NoEffort => "none"@,
        ReasoningEffort::Minimal => "minimal"@,
        ReasoningEffort::Low => "low"@,
        ReasoningEffort::Medium => "medium"@,
        ReasoningEffort::High => "high"@,
        ReasoningEffort::Xhigh => "xhigh"@,
        ReasoningEffort::Max => "max"@,
    }
}

impl ReasoningEffort {
    /// The lowercase wire token (`"low"`, `"xhigh"`, ...).
    pub fn as_str(self) -> (s: &'static str)
        ensures
            s@ == effort_token(self),
    {
        match self {
            ReasoningEffort::NoEffort => "none",
            ReasoningEffort::Minimal => "minimal",
            ReasoningEffort::Low => "low",
            ReasoningEffort::Medium => "medium",
            ReasoningEffort::High => "high",
            ReasoningEffort::Xhigh => "xhigh",
            ReasoningEffort::Max => "max",
        }
    }
}

/// One of low | medium | high.
pub open spec fn in_triad(e: ReasoningEffort) -> bool {
    e == ReasoningEffort::Low || e == ReasoningEffort::Medium || e == ReasoningEffort::High
}

/// Free-form level folded into the triad: none/minimal/low go to low,
/// high/xhigh/max go to high.
pub open spec fn triad_of(e: ReasoningEffort) -> ReasoningEffort {
    match e {
        ReasoningEffort::NoEffort | ReasoningEffort::Minimal | ReasoningEffort::Low => ReasoningEffort::Low,
        ReasoningEffort::Medium => ReasoningEffort::Medium,
        ReasoningEffort::High | ReasoningEffort::Xhigh | ReasoningEffort::Max => ReasoningEffort::High,
    }
}

/// Rank of a level once folded into the triad: low 0, medium 1, high 2.
pub open spec fn rank_of(e: ReasoningEffort) -> int {
    match triad_of(e) {
        ReasoningEffort::Low => 0,
        ReasoningEffort::Medium => 1,
        _ => 2,
    }
}

/// The triad level of a rank, ranks outside `0..=2` clamped first.
pub open spec fn level_of_rank(rank: int) -> ReasoningEffort {
    if rank <= 0 {
        ReasoningEffort::Low
    } else if rank == 1 {
        ReasoningEffort::Medium
    } else {
        ReasoningEffort::High
    }
}

/// `rank` clamped into `lo..=hi` (`lo` wins when the bounds cross, as `max` then `min`
/// would not; the router always passes `lo <= hi`).
pub open spec fn clamp_int(v: int, lo: int, hi: int) -> int {
    if v < lo {
        lo
    } else if v > hi {
        hi
    } else {
        v
    }
}

/// A rank clamped to the ranks of `floor..=ceiling`, as a triad level.
pub open spec fn bounded_level(rank: int, floor: ReasoningEffort, ceiling: ReasoningEffort) -> ReasoningEffort {
    level_of_rank(clamp_int(rank, rank_of(floor), rank_of(ceiling)))
}

/// Map a free-form effort into the router triad (low|medium|high).
pub fn clamp_to_router_triad(effort: ReasoningEffort) -> (r: ReasoningEffort)
    ensures
        r == triad_of(effort),
        in_triad(r),
{
    match effort {
        ReasoningEffort::NoEffort | ReasoningEffort::Minimal | ReasoningEffort::Low => ReasoningEffort::Low,
        ReasoningEffort::Medium => ReasoningEffort::Medium,
        ReasoningEffort::High | ReasoningEffort::Xhigh | ReasoningEffort::Max => ReasoningEffort::High,
    }
}

/// Rank within the triad: low 0, medium 1, high 2.
pub fn effort_rank(effort: ReasoningEffort) -> (r: u8)
    ensures
        r as int == rank_of(effort),
        r <= 2,
{
    match clamp_to_router_triad(effort) {
        ReasoningEffort::Low => 0,
        ReasoningEffort::Medium => 1,
        ReasoningEffort::High => 2,
        _ => 1,
    }
}

/// Triad level of a rank, clamped into `0..=2`.
pub fn effort_from_rank(rank: i8) -> (r: ReasoningEffort)
    ensures
        r == level_of_rank(rank as int),
        in_triad(r),
{
    let c: i8 = if rank < 0 {
        0
    } else if rank > 2 {
        2
    } else {
        rank
    };
    match c {
        0 => ReasoningEffort::Low,
        1 => ReasoningEffort::Medium,
        _ => ReasoningEffort::High,
    }
}

/// Triad level of `rank` clamped to `floor..=ceiling` (by rank).
pub fn clamp_rank_to_bounds(rank: i8, floor: ReasoningEffort, ceiling: ReasoningEffort) -> (r: ReasoningEffort)
    requires
        rank_of(floor) <= rank_of(ceiling),
    ensures
        r == bounded_level(rank as int, floor, ceiling),
        in_triad(r),
        rank_of(floor) <= rank_of(r) <= rank_of(ceiling),
{
    let lo: i8 = effort_rank(floor) as i8;
    let hi: i8 = effort_rank(ceiling) as i8;
    let c: i8 = if rank < lo {
        lo
    } else if rank > hi {
        hi
    } else {
        rank
    };
    effort_from_rank(c)
}

} // verus!
