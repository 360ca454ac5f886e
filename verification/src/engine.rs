//! The iterative deepening driver: translates the external time-control
//! request into a search budget, searches at increasing depths, discards the
//! depth aborted by the budget, and reports the best move and score of the
//! last fully completed depth together with one progress report per depth.

use vstd::prelude::*;
use monster_chess::board::Board;
use monster_chess::board::actions::Move;
use crate::boardlink::{encode_move, time_now, TIME_BOUND};
use crate::search::{negamax, SearchEnd, SearchInfo, SCORE_INF};
use crate::tables::EvalTables;

verus! {

/// Depth cap when no fixed depth is requested, so an unconstrained search
/// still terminates on its own.
pub const DEPTH_CAP: u32 = 100_000;

/// The external time-control request, reduced to plain values for the side to
/// move.
pub enum TimeControlSpec {
    /// Search to a fixed depth.
    Depth(u32),
    /// Spend a fixed time on this move, in milliseconds.
    MoveTime(u128),
    /// Expand at most this many nodes in one depth iteration.
    Nodes(u64),
    /// The mover's clock: remaining time and per-move increment, in
    /// milliseconds.
    Timed { time_ms: u128, inc_ms: u128 },
    /// Think until the depth cap is reached.
    Infinite,
}

impl TimeControlSpec {
    /// Requested depths stay under the cap and time values are small enough
    /// for exact deadline arithmetic.
    pub open spec fn wf(&self) -> bool {
        match *self {
            TimeControlSpec::Depth(d) => d <= DEPTH_CAP,
            TimeControlSpec::MoveTime(mt) => mt <= TIME_BOUND,
            TimeControlSpec::Timed { time_ms, inc_ms } => time_ms <= TIME_BOUND && inc_ms
                <= TIME_BOUND,
            _ => true,
        }
    }
}

/// The budget a time-control request translates to: a fixed depth runs
/// unbounded (the depth loop itself is capped), a fixed move time or a
/// per-player clock becomes an absolute deadline, a node budget is kept, and
/// an unconstrained request runs unbounded.
pub open spec fn spec_search_end(tc: TimeControlSpec, now: u128) -> SearchEnd {
    match tc {
        TimeControlSpec::Depth(_) => SearchEnd::Unbounded,
        TimeControlSpec::MoveTime(mt) => SearchEnd::Time((now + mt) as u128),
        TimeControlSpec::Nodes(n) => SearchEnd::Nodes(n),
        TimeControlSpec::Timed { time_ms, inc_ms } => SearchEnd::Time(
            (now + time_ms / 20 + inc_ms * 3 / 4) as u128,
        ),
        TimeControlSpec::Infinite => SearchEnd::Unbounded,
    }
}

/// The depth the iteration loop is capped at for a request.
pub open spec fn spec_max_depth(tc: TimeControlSpec) -> u32 {
    match tc {
        TimeControlSpec::Depth(d) => d,
        _ => DEPTH_CAP,
    }
}

/// Whether a request runs without a time or node budget, so that only the
/// depth cap ends the search.
pub open spec fn spec_unbounded(tc: TimeControlSpec) -> bool {
    tc is Depth || tc is Infinite
}

/// Translate the time-control request into the internal budget and the depth
/// cap, given the current clock reading.
pub fn search_end_of(tc: &TimeControlSpec, now: u128) -> (r: (SearchEnd, u32))
    requires
        tc.wf(),
        now <= TIME_BOUND,
    ensures
        r.0 == spec_search_end(*tc, now),
        r.1 == spec_max_depth(*tc),
{
    match tc {
        TimeControlSpec::Depth(d) => (SearchEnd::Unbounded, *d),
        TimeControlSpec::MoveTime(mt) => (SearchEnd::Time(now + *mt), DEPTH_CAP),
        TimeControlSpec::Nodes(n) => (SearchEnd::Nodes(*n), DEPTH_CAP),
        TimeControlSpec::Timed { time_ms, inc_ms } => (
            SearchEnd::Time(now + *time_ms / 20 + *inc_ms * 3 / 4),
            DEPTH_CAP,
        ),
        TimeControlSpec::Infinite => (SearchEnd::Unbounded, DEPTH_CAP),
    }
}

/// The progress report of one fully completed search depth.
pub struct DepthReport {
    pub depth: u32,
    pub score: i32,
    pub nodes: u64,
    /// Nodes per second: `nodes * 1000 / time`, saturated to `u64`.
    pub nps: u64,
    /// Elapsed milliseconds of this depth, clamped to at least 1.
    pub time: u128,
    /// The best move in the board library's notation.
    pub pv: String,
}

/// Nodes-per-second figure of a completed depth: `nodes * 1000` divided by
/// the elapsed milliseconds, saturated to `u64`.
pub open spec fn spec_nps(nodes: u64, time: u128) -> int {
    let q = (nodes * 1000) as int / time as int;
    if q > u64::MAX {
        u64::MAX as int
    } else {
        q
    }
}

/// Whether a report sequence is a well-formed progress log: depths count up
/// from 1 and each nodes-per-second figure matches its node count and its
/// (positive) elapsed time.
pub open spec fn reports_wf(reports: Seq<DepthReport>) -> bool {
    forall|k: int| 0 <= k < reports.len() ==> (#[trigger] reports[k]).depth == k + 1
        && reports[k].time >= 1 && reports[k].nps == spec_nps(reports[k].nodes, reports[k].time)
        && -SCORE_INF <= reports[k].score <= SCORE_INF
}

/// Iterative-deepening move selection.  Starting at depth 1, searches with a
/// fresh per-depth node counter under the budget the request translates to;
/// a depth aborted by the budget is discarded, otherwise its progress report
/// is recorded and the depth loop continues up to the cap.  Returns the best
/// move of the last completed depth with its score, and the reports; None
/// stands for the contract violation of a completed depth without a best
/// move, which only a board library that left no legal continuation
/// unclassified can produce — whenever at least one depth was reported, the
/// search state holds a recorded move.
pub fn select_move<'a>(board: &mut Board<'a, 1>, tables: &EvalTables, tc: &TimeControlSpec) -> (r:
    (Option<(Move, i32)>, Vec<DepthReport>))
    requires
        tables.wf(),
        tc.wf(),
    ensures
        reports_wf(r.1@),
        (match r.0 {
            Some(sel) => r.1@.len() >= 1 && sel.1 == r.1@[r.1@.len() - 1].score,
            None => true,
        }),
        r.1@.len() == 0 ==> r.0 is None,
        r.0 is Some && spec_unbounded(*tc) ==> r.1@.len() == (
        if spec_max_depth(*tc) == 0 {
            1int
        } else {
            spec_max_depth(*tc) as int
        }),
{
    let now = time_now();
    let ends = search_end_of(tc, now);
    let search_end = ends.0;
    let max_depth = ends.1;

    let mut search_info = SearchInfo { best_move: None, search_end, nodes: 0, ended: false };
    let mut depth: u32 = 0;
    let mut score: i32 = 0;
    let mut reports: Vec<DepthReport> = Vec::new();

    loop
        invariant_except_break
            depth == 0 || depth < max_depth,
            !search_info.ended,
            reports@.len() == depth as int,
        invariant
            tables.wf(),
            max_depth <= DEPTH_CAP,
            search_info.search_end == search_end,
            search_end == spec_search_end(*tc, now),
            max_depth == spec_max_depth(*tc),
            reports_wf(reports@),
            reports@.len() >= 1 ==> reports@[reports@.len() - 1].score == score,
            reports@.len() >= 1 ==> search_info.best_move is Some,
        ensures
            reports_wf(reports@),
            reports@.len() >= 1,
            reports@[reports@.len() - 1].score == score,
            search_info.best_move is Some,
            search_end is Unbounded ==> reports@.len() == (
            if max_depth == 0 {
                1int
            } else {
                max_depth as int
            }),
        decreases max_depth - depth,
    {
        depth = depth + 1;
        let depth_start = time_now();
        search_info.nodes = 0;

        let new_score = negamax(board, &mut search_info, tables, depth, 0, -SCORE_INF, SCORE_INF);
        if search_info.ended {
            proof {
                // The budget is never consulted at depth 1, so the first
                // iteration always completes and at least one report exists.
                assert(depth >= 2);
            }
            break;
        }
        score = new_score;

        let depth_end = time_now();
        let mut time: u128 = if depth_end > depth_start {
            depth_end - depth_start
        } else {
            0
        };
        if time == 0 {
            time = 1;
        }
        let nodes = search_info.nodes;
        let nps_wide: u128 = (nodes as u128) * 1000 / time;
        let nps: u64 = if nps_wide > (u64::MAX as u128) {
            u64::MAX
        } else {
            nps_wide as u64
        };
        let pv: String = match &search_info.best_move {
            Some(action) => encode_move(board, action),
            None => {
                return (None, reports);
            },
        };
        reports.push(DepthReport { depth, score, nodes, nps, time, pv });

        if depth >= max_depth {
            break;
        }
    }

    match search_info.best_move {
        Some(action) => (Some((action, score)), reports),
        None => (None, reports),
    }
}

} // verus!
