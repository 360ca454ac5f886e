//! Alpha-beta result equivalence.  This module models the searcher's
//! adversarial core over an explicit game tree: a full-width negamax
//! valuation defines the intended result, an executable alpha-beta search
//! mirrors the searcher's pruning, best-move bookkeeping and mate-distance
//! scoring, and its contract proves that pruning changes neither the score
//! nor the move chosen at the root, only the work done to find them.

use vstd::prelude::*;
use crate::evaluate::EVAL_BOUND;
use crate::search::{losing_score, winning_score, PLY_LIMIT, SCORE_INF};

verus! {

/// How a node resolves for its side to move, as the board library's
/// resolution would classify it given the node's legal moves.
pub enum NodeStatus {
    Ongoing,
    Drawn,
    MoverWins,
    MoverLoses,
}

/// A game tree: the heuristic evaluation of the position, its resolution,
/// and the subtrees after each legal move, in the order the searcher would
/// visit them.
pub struct GameTree {
    pub eval: i32,
    pub status: NodeStatus,
    pub children: Vec<GameTree>,
}

/// Every evaluation in the tree is a possible evaluator result.
pub open spec fn tree_wf(t: GameTree) -> bool
    decreases t,
{
    &&& -EVAL_BOUND <= t.eval <= EVAL_BOUND
    &&& forall|j: int| 0 <= j < t.children@.len() ==> tree_wf(#[trigger] t.children@[j])
}

/// The full-width negamax value of `t` searched to `depth`, `ply` half-moves
/// below the root: the evaluation at depth 0, the mate-distance or draw score
/// of a resolved node, and otherwise the best negated child value.
pub open spec fn negamax_value(t: GameTree, depth: nat, ply: int) -> int
    decreases depth, 0int,
{
    if depth == 0 {
        t.eval as int
    } else {
        match t.status {
            NodeStatus::Drawn => 0,
            NodeStatus::MoverWins => winning_score(ply),
            NodeStatus::MoverLoses => losing_score(ply),
            NodeStatus::Ongoing => best_child_value(
                t.children@,
                (depth - 1) as nat,
                ply,
                t.children@.len() as int,
            ),
        }
    }
}

/// The best negated child value among the first `n` children, searched one
/// level shallower and one ply deeper, or the no-move sentinel for `n == 0`.
pub open spec fn best_child_value(cs: Seq<GameTree>, depth: nat, ply: int, n: int) -> int
    decreases depth, n + 1,
{
    if n <= 0 {
        -SCORE_INF as int
    } else {
        let prev = best_child_value(cs, depth, ply, n - 1);
        let w = -negamax_value(cs[n - 1], depth, ply + 1);
        if w > prev {
            w
        } else {
            prev
        }
    }
}

/// The index of the child a full-width negamax would choose among the first
/// `n`: the first child strictly improving on everything before it.
pub open spec fn spec_best_index(cs: Seq<GameTree>, depth: nat, ply: int, n: int) -> Option<int>
    decreases n,
{
    if n <= 0 {
        None
    } else {
        let w = -negamax_value(cs[n - 1], depth, ply + 1);
        if w > best_child_value(cs, depth, ply, n - 1) {
            Some(n - 1)
        } else {
            spec_best_index(cs, depth, ply, n - 1)
        }
    }
}

proof fn lemma_value_bounds(t: GameTree, depth: nat, ply: int)
    requires
        tree_wf(t),
        0 <= ply,
        ply + depth <= PLY_LIMIT,
    ensures
        -SCORE_INF <= negamax_value(t, depth, ply) <= SCORE_INF,
    decreases depth, 0int,
{
    if depth > 0 {
        lemma_best_bounds(t.children@, (depth - 1) as nat, ply, t.children@.len() as int);
    }
}

proof fn lemma_best_bounds(cs: Seq<GameTree>, depth: nat, ply: int, n: int)
    requires
        forall|j: int| 0 <= j < cs.len() ==> tree_wf(#[trigger] cs[j]),
        0 <= ply,
        ply + 1 + depth <= PLY_LIMIT,
        n <= cs.len(),
    ensures
        -SCORE_INF <= best_child_value(cs, depth, ply, n) <= SCORE_INF,
    decreases depth, n + 1,
{
    if n > 0 {
        lemma_best_bounds(cs, depth, ply, n - 1);
        lemma_value_bounds(cs[n - 1], depth, ply + 1);
    }
}

proof fn lemma_best_monotone(cs: Seq<GameTree>, depth: nat, ply: int, n: int, m: int)
    requires
        0 <= n <= m,
    ensures
        best_child_value(cs, depth, ply, n) <= best_child_value(cs, depth, ply, m),
    decreases m,
{
    if m > n {
        lemma_best_monotone(cs, depth, ply, n, m - 1);
    }
}

proof fn lemma_best_index_stable(cs: Seq<GameTree>, depth: nat, ply: int, n: int, m: int)
    requires
        forall|j: int| 0 <= j < cs.len() ==> tree_wf(#[trigger] cs[j]),
        0 <= ply,
        ply + 1 + depth <= PLY_LIMIT,
        0 <= n <= m <= cs.len(),
        best_child_value(cs, depth, ply, n) >= SCORE_INF,
    ensures
        spec_best_index(cs, depth, ply, m) == spec_best_index(cs, depth, ply, n),
        best_child_value(cs, depth, ply, m) == best_child_value(cs, depth, ply, n),
    decreases m,
{
    if m > n {
        lemma_best_index_stable(cs, depth, ply, n, m - 1);
        lemma_value_bounds(cs[m - 1], depth, ply + 1);
    }
}

/// Alpha-beta search of the game-tree model over the window
/// `(alpha, beta)`, visiting children in order and tracking the best child
/// index exactly as the searcher tracks its best move.  The contract is the
/// pruning-equivalence law: a result inside the window equals the full-width
/// negamax value, a result at or outside a window edge bounds it from the
/// matching side, and over the full score window — as the root is searched —
/// the score and the chosen child both equal the full-width result.
pub fn alphabeta(t: &GameTree, depth: u32, ply: u32, alpha: i32, beta: i32) -> (r: (
    Option<usize>,
    i32,
))
    requires
        tree_wf(*t),
        -SCORE_INF <= alpha < beta <= SCORE_INF,
        ply + depth <= PLY_LIMIT,
    ensures
        -SCORE_INF <= r.1 <= SCORE_INF,
        r.1 <= alpha ==> negamax_value(*t, depth as nat, ply as int) <= r.1,
        r.1 >= beta ==> negamax_value(*t, depth as nat, ply as int) >= r.1,
        alpha < r.1 < beta ==> r.1 == negamax_value(*t, depth as nat, ply as int),
        alpha == -SCORE_INF && beta == SCORE_INF ==> r.1 == negamax_value(
            *t,
            depth as nat,
            ply as int,
        ),
        alpha == -SCORE_INF && beta == SCORE_INF && depth >= 1 && t.status is Ongoing ==> (
        match spec_best_index(
            t.children@,
            (depth - 1) as nat,
            ply as int,
            t.children@.len() as int,
        ) {
            Some(j) => r.0 == Some(j as usize),
            None => r.0 is None,
        }),
    decreases depth,
{
    if depth == 0 {
        return (None, t.eval);
    }
    match t.status {
        NodeStatus::Drawn => {
            return (None, 0);
        },
        NodeStatus::MoverWins => {
            return (None, 100_000 - (ply as i32));
        },
        NodeStatus::MoverLoses => {
            return (None, -100_000 + (ply as i32));
        },
        NodeStatus::Ongoing => {},
    }

    let ghost cs = t.children@;
    let ghost d1 = (depth - 1) as nat;
    let ghost plyi = ply as int;
    let ghost full = best_child_value(cs, d1, plyi, cs.len() as int);

    let mut max: i32 = -SCORE_INF;
    let mut best: Option<usize> = None;
    let mut alpha_v: i32 = alpha;
    let mut i: usize = 0;
    let mut cutoff = false;

    while i < t.children.len() && !cutoff
        invariant
            tree_wf(*t),
            cs == t.children@,
            d1 == (depth - 1) as nat,
            plyi == ply as int,
            full == best_child_value(cs, d1, plyi, cs.len() as int),
            ply + depth <= PLY_LIMIT,
            depth >= 1,
            i <= cs.len(),
            -SCORE_INF <= alpha <= alpha_v <= SCORE_INF,
            -SCORE_INF <= max <= SCORE_INF,
            alpha < beta <= SCORE_INF,
            alpha_v == (if max > alpha {
                max
            } else {
                alpha
            }),
            !cutoff ==> alpha_v < beta,
            !cutoff ==> best_child_value(cs, d1, plyi, i as int) <= max,
            !cutoff ==> max <= (if best_child_value(cs, d1, plyi, i as int) > alpha {
                best_child_value(cs, d1, plyi, i as int)
            } else {
                alpha as int
            }),
            cutoff ==> max >= beta && best_child_value(cs, d1, plyi, i as int) >= max,
            alpha == -SCORE_INF && beta == SCORE_INF ==> max == best_child_value(
                cs,
                d1,
                plyi,
                i as int,
            ),
            alpha == -SCORE_INF && beta == SCORE_INF ==> (match spec_best_index(
                cs,
                d1,
                plyi,
                i as int,
            ) {
                Some(j) => best == Some(j as usize),
                None => best is None,
            }),
        decreases cs.len() - i,
    {
        let child = &t.children[i];
        let ghost prefix = best_child_value(cs, d1, plyi, i as int);
        proof {
            assert(tree_wf(cs[i as int]));
            lemma_value_bounds(cs[i as int], d1, plyi + 1);
        }
        let sub = alphabeta(child, depth - 1, ply + 1, -beta, -alpha_v);
        let score = -sub.1;
        let ghost w = -negamax_value(cs[i as int], d1, plyi + 1);
        proof {
            // Translate the child's window clauses to the negated score.
            if score >= beta {
                assert(w >= score);
            }
            if score <= alpha_v {
                assert(w <= score);
            }
            if alpha_v < score < beta {
                assert(w == score);
            }
            assert(best_child_value(cs, d1, plyi, i + 1) == (if w > prefix {
                w
            } else {
                prefix
            }));
            assert(spec_best_index(cs, d1, plyi, i + 1) == (if w > prefix {
                Some(i as int)
            } else {
                spec_best_index(cs, d1, plyi, i as int)
            }));
        }
        if score > max {
            best = Some(i);
            max = score;
        }
        if max > alpha_v {
            alpha_v = max;
        }
        i = i + 1;
        if alpha_v >= beta {
            cutoff = true;
        }
    }

    proof {
        if cutoff {
            lemma_best_monotone(cs, d1, plyi, i as int, cs.len() as int);
            if alpha == -SCORE_INF && beta == SCORE_INF {
                // The cutoff child already scores at the top of the window,
                // so no later child changes the value or the choice.
                lemma_best_index_stable(cs, d1, plyi, i as int, cs.len() as int);
            }
        }
    }
    (best, max)
}

} // verus!
