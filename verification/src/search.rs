//! The negamax searcher: capture-value move ordering, alpha-beta pruning with
//! best-move bookkeeping at the root, mate-distance scoring of decisive
//! results, and cooperative early termination when the search budget runs out.

use vstd::prelude::*;
use vstd::seq_lib::group_to_multiset_ensures;
use monster_chess::board::Board;
use monster_chess::board::actions::{HistoryMove, Move, SimpleMove};
use monster_chess::board::game::GameResults;
use crate::boardlink::{generate_moves, is_legal, make_move, read_position, resolve, time_now,
    undo_move};
use crate::evaluate::{bit_at, evaluate, Position, EVAL_BOUND};
use crate::tables::EvalTables;

verus! {

/// Scores are confined to this magnitude; the sentinel for "no move examined
/// yet" is its negation.
pub const SCORE_INF: i32 = 1_000_000;

/// Bound on `ply + depth` for one search: keeps every mate-distance score
/// inside the score range.
pub const PLY_LIMIT: u32 = 300_000;

/// When the search of one depth iteration must stop: at an absolute time on
/// the driver's clock, at a node-count ceiling, or never.
#[derive(Debug, Clone, Copy)]
pub enum SearchEnd {
    Time(u128),
    Nodes(u64),
    Unbounded,
}

/// The state of one top-level search call: the best root move found so far,
/// the node counter of the current depth iteration, the fixed budget, and the
/// flag set once when the budget is exhausted mid-search.
#[derive(Clone, Copy)]
pub struct SearchInfo {
    pub best_move: Option<Move>,
    pub nodes: u64,
    pub search_end: SearchEnd,
    pub ended: bool,
}

/// Whether a node-count budget has been reached.
pub open spec fn nodes_budget_hit(si: SearchInfo) -> bool {
    match si.search_end {
        SearchEnd::Nodes(n) => si.nodes >= n,
        _ => false,
    }
}

/// The priority of a candidate move: passes and quiet relocations score 0; a
/// capture scores 1000 plus the captured piece's value minus the mover's
/// value, so valuable victims attacked by cheap pieces come first.
pub open spec fn spec_move_score(p: Position, m: Move, t: EvalTables) -> int {
    match m {
        SimpleMove::Pass => 0,
        SimpleMove::Action(a) => {
            if a.to >= 128 || a.piece_type >= 6 {
                0
            } else if !bit_at(p.opposing, a.to as u32) {
                0
            } else {
                1000 + t.material@[spec_captured_kind(p, a.to as u32)]
                    - t.material@[a.piece_type as int]
            }
        },
    }
}

/// The kind of the piece standing on square `to`: the first of the five
/// non-king kinds whose bitboard has the square, defaulting to the pawn kind.
pub open spec fn spec_captured_kind(p: Position, to: u32) -> int {
    if bit_at(p.pieces@[0], to) {
        0
    } else if bit_at(p.pieces@[1], to) {
        1
    } else if bit_at(p.pieces@[2], to) {
        2
    } else if bit_at(p.pieces@[3], to) {
        3
    } else if bit_at(p.pieces@[4], to) {
        4
    } else {
        0
    }
}

/// Static ordering priority of a candidate move; used only to sort moves
/// before expansion, never as a returned evaluation.  Destinations or piece
/// kinds outside the chess ranges, which the generator never produces for a
/// chess board, score as quiet moves.
pub fn move_score(p: &Position, action: &Move, t: &EvalTables) -> (r: i32)
    requires
        t.wf(),
    ensures
        r == spec_move_score(*p, *action, *t),
{
    match action {
        SimpleMove::Pass => 0,
        SimpleMove::Action(a) => {
            if a.to >= 128 || a.piece_type >= 6 {
                return 0;
            }
            let to = a.to as u32;
            if (p.opposing >> to) & 1 != 1 {
                return 0;
            }
            let captured: usize = if (p.pieces[0] >> to) & 1 == 1 {
                0
            } else if (p.pieces[1] >> to) & 1 == 1 {
                1
            } else if (p.pieces[2] >> to) & 1 == 1 {
                2
            } else if (p.pieces[3] >> to) & 1 == 1 {
                3
            } else if (p.pieces[4] >> to) & 1 == 1 {
                4
            } else {
                0
            };
            1000 + t.material[captured] - t.material[a.piece_type as usize]
        },
    }
}

/// Descending order on the ordering priorities of a scored move list.
pub open spec fn sorted_desc(s: Seq<(Move, i32)>) -> bool {
    forall|i: int, j: int| #![trigger s[i], s[j]] 0 <= i < j < s.len() ==> s[i].1 >= s[j].1
}

/// The predicate selecting the scored moves of one priority class.
pub open spec fn score_is(sc: i32) -> spec_fn((Move, i32)) -> bool {
    |p: (Move, i32)| p.1 == sc
}

proof fn lemma_pair_filter<A>(a: A, b: A, pred: spec_fn(A) -> bool)
    requires
        !(pred(a) && pred(b)),
    ensures
        seq![a, b].filter(pred) == seq![b, a].filter(pred),
{
    reveal_with_fuel(Seq::filter, 3);
    assert(seq![a, b].drop_last() =~= seq![a]);
    assert(seq![b, a].drop_last() =~= seq![b]);
    assert(seq![a].drop_last() =~= Seq::<A>::empty());
    assert(seq![b].drop_last() =~= Seq::<A>::empty());
    if pred(a) {
        assert(seq![a, b].filter(pred) =~= seq![a]);
        assert(seq![b, a].filter(pred) =~= seq![a]);
    } else if pred(b) {
        assert(seq![a, b].filter(pred) =~= seq![b]);
        assert(seq![b, a].filter(pred) =~= seq![b]);
    } else {
        assert(seq![a, b].filter(pred) =~= Seq::<A>::empty());
        assert(seq![b, a].filter(pred) =~= Seq::<A>::empty());
    }
}

proof fn lemma_adjacent_swap_filter<A>(s: Seq<A>, j: int, pred: spec_fn(A) -> bool)
    requires
        1 <= j < s.len(),
        !(pred(s[j - 1]) && pred(s[j])),
    ensures
        s.update(j - 1, s[j]).update(j, s[j - 1]).filter(pred) == s.filter(pred),
{
    let swapped = s.update(j - 1, s[j]).update(j, s[j - 1]);
    let pre = s.subrange(0, j - 1);
    let mid = seq![s[j - 1], s[j]];
    let mid_swapped = seq![s[j], s[j - 1]];
    let post = s.subrange(j + 1, s.len() as int);
    assert(s =~= (pre + mid) + post);
    assert(swapped =~= (pre + mid_swapped) + post);
    Seq::filter_distributes_over_add(pre + mid, post, pred);
    Seq::filter_distributes_over_add(pre, mid, pred);
    Seq::filter_distributes_over_add(pre + mid_swapped, post, pred);
    Seq::filter_distributes_over_add(pre, mid_swapped, pred);
    lemma_pair_filter(s[j - 1], s[j], pred);
}

proof fn lemma_swap_multiset<A>(s: Seq<A>, i: int, j: int)
    requires
        0 <= i < s.len(),
        0 <= j < s.len(),
        i != j,
    ensures
        s.update(i, s[j]).update(j, s[i]).to_multiset() == s.to_multiset(),
{
    broadcast use group_to_multiset_ensures;

    let s1 = s.update(i, s[j]);
    let s2 = s1.update(j, s[i]);
    assert(s1[j] == s[j]);
    assert(s2.to_multiset() =~= s.to_multiset()) by {
        assert(s1.to_multiset() == s.to_multiset().insert(s[j]).remove(s[i]));
        assert(s2.to_multiset() == s1.to_multiset().insert(s[i]).remove(s[j]));
        assert(s.to_multiset().contains(s[i]));
    }
}

/// Insertion sort of the scored move list into descending priority order:
/// the result is a permutation of the input, sorted by score, and stable —
/// moves of equal priority keep their generation order, so the search stays
/// reproducible for a fixed move-generation order.
pub fn sort_moves(v: &mut Vec<(Move, i32)>)
    ensures
        final(v)@.len() == old(v)@.len(),
        sorted_desc(final(v)@),
        final(v)@.to_multiset() == old(v)@.to_multiset(),
        forall|sc: i32| #[trigger] final(v)@.filter(score_is(sc)) == old(v)@.filter(score_is(sc)),
{
    let ghost orig = v@;
    let mut i: usize = 1;
    while i < v.len()
        invariant
            1 <= i,
            v@.len() == orig.len(),
            v@.to_multiset() == orig.to_multiset(),
            forall|sc: i32| #[trigger] v@.filter(score_is(sc)) == orig.filter(score_is(sc)),
            forall|a: int, b: int| #![trigger v@[a], v@[b]] 0 <= a < b < i && b < v@.len()
                ==> v@[a].1 >= v@[b].1,
        decreases v@.len() - i,
    {
        let mut j: usize = i;
        while j > 0 && v[j - 1].1 < v[j].1
            invariant
                j <= i < v@.len(),
                v@.len() == orig.len(),
                v@.to_multiset() == orig.to_multiset(),
                forall|sc: i32| #[trigger] v@.filter(score_is(sc)) == orig.filter(score_is(sc)),
                forall|a: int, b: int| #![trigger v@[a], v@[b]] 0 <= a < b <= i && b != j
                    ==> v@[a].1 >= v@[b].1,
                forall|a: int| #![trigger v@[a]] j < a <= i ==> v@[j as int].1 >= v@[a].1,
            decreases j,
        {
            let ghost before = v@;
            let x = v[j - 1];
            let y = v[j];
            v[j - 1] = y;
            v[j] = x;
            proof {
                assert(v@ =~= before.update(j - 1, before[j as int]).update(
                    j as int,
                    before[j - 1],
                ));
                lemma_swap_multiset(before, j - 1, j as int);
                // The swapped neighbors have strictly different priorities,
                // so no priority class changes its internal order.
                assert forall|sc: i32| #[trigger] v@.filter(score_is(sc)) == orig.filter(
                    score_is(sc),
                ) by {
                    lemma_adjacent_swap_filter(before, j as int, score_is(sc));
                }
            }
            j = j - 1;
        }
        i = i + 1;
    }
}

/// Score of a forced win for the side to move, found `ply` half-moves from
/// the root: nearer mates score strictly higher.
pub open spec fn winning_score(ply: int) -> int {
    100_000 - ply
}

/// Score of a forced loss for the side to move, found `ply` half-moves from
/// the root: nearer losses score strictly lower.
pub open spec fn losing_score(ply: int) -> int {
    -100_000 + ply
}

/// Mate-distance monotonicity: a forced mate found at ply `k` scores strictly
/// higher in magnitude than the same mate found at ply `k + 1`, on both the
/// winning and the losing side.
pub proof fn lemma_mate_distance_monotonic(k: int)
    requires
        0 <= k,
    ensures
        winning_score(k) > winning_score(k + 1),
        losing_score(k) < losing_score(k + 1),
{
}

/// Translate a game resolution into a score for the side to move at `ply`:
/// None while the game is ongoing, 0 for a draw, and a mate-distance score
/// for a decisive result.
pub fn resolution_score(result: &GameResults, moving_team: u16, ply: u32) -> (r: Option<i32>)
    requires
        ply <= PLY_LIMIT,
    ensures
        (match *result {
            GameResults::Ongoing => r is None,
            GameResults::Draw => r == Some(0i32),
            GameResults::Win(team) => r == Some(
                (if team == moving_team {
                    winning_score(ply as int)
                } else {
                    losing_score(ply as int)
                }) as i32,
            ),
        }),
        (match r {
            Some(s) => -SCORE_INF < s < SCORE_INF,
            None => *result is Ongoing,
        }),
{
    match result {
        GameResults::Ongoing => None,
        GameResults::Draw => Some(0),
        GameResults::Win(team) => Some(
            if *team == moving_team {
                100_000 - (ply as i32)
            } else {
                -100_000 + (ply as i32)
            },
        ),
    }
}

/// Recursive negamax search with alpha-beta pruning over the window
/// `(alpha, beta)`.  Once the termination flag is set, every node at any
/// depth returns 0 immediately, so the stack unwinds without further work.
/// Otherwise, at depth 0 the node is evaluated; deeper nodes consult the
/// budget (at depth > 1), score the pseudo-legal moves and visit them in
/// descending priority order, applying each legal one, searching it with the
/// negated window and undoing it; the decisive-or-drawn resolution of the
/// node overrides the best negamax score.  At the root of an unaborted search
/// the best move is recorded in the search state, and it is `Some` whenever a
/// legal move exists: the contract says a root search that records no move
/// returned a drawn or decisive score, never a searched one.
pub fn negamax<'a>(
    board: &mut Board<'a, 1>,
    search_info: &mut SearchInfo,
    tables: &EvalTables,
    depth: u32,
    ply: u32,
    alpha: i32,
    beta: i32,
) -> (r: i32)
    requires
        tables.wf(),
        -SCORE_INF <= alpha <= SCORE_INF,
        -SCORE_INF <= beta <= SCORE_INF,
        alpha < beta,
        ply + depth <= PLY_LIMIT,
    ensures
        -SCORE_INF < r < SCORE_INF,
        final(search_info).search_end == old(search_info).search_end,
        final(search_info).nodes >= old(search_info).nodes,
        old(search_info).ended ==> r == 0 && *final(search_info) == *old(search_info),
        depth == 0 ==> *final(search_info) == *old(search_info) && -EVAL_BOUND <= r <= EVAL_BOUND,
        ply > 0 ==> final(search_info).best_move == old(search_info).best_move,
        ply == 0 && final(search_info).ended ==> final(search_info).best_move == old(
            search_info,
        ).best_move,
        depth > 1 && !old(search_info).ended && nodes_budget_hit(*old(search_info))
            ==> final(search_info).ended && final(search_info).nodes == old(search_info).nodes
                && final(search_info).best_move == old(search_info).best_move && r == 0,
        (depth <= 1 || old(search_info).search_end is Unbounded) && !old(search_info).ended
            ==> final(search_info).ended == old(search_info).ended,
        (match old(search_info).search_end {
            SearchEnd::Nodes(n) => (final(search_info).ended && !old(search_info).ended)
                ==> final(search_info).nodes >= n,
            _ => true,
        }),
        (ply == 0 && depth >= 1 && !final(search_info).ended
            && final(search_info).best_move is None)
            ==> r == 0 || r == winning_score(0) || r == losing_score(0),
    decreases depth,
{
    if search_info.ended {
        return 0;
    }

    if depth == 0 {
        match read_position(board) {
            Some(p) => {
                let eval = evaluate(&p, tables);
                return eval;
            },
            None => {
                // A board without the chess piece kinds evaluates as level.
                return 0;
            },
        }
    }

    if depth > 1 {
        let end_early: bool = match search_info.search_end {
            SearchEnd::Nodes(nodes) => search_info.nodes >= nodes,
            SearchEnd::Time(time) => {
                let now = time_now();
                now >= time
            },
            SearchEnd::Unbounded => false,
        };
        if end_early {
            search_info.ended = true;
            return 0;
        }
    }

    let mut max: i32 = -SCORE_INF;
    let mut best_move: Option<Move> = None;
    let mut alpha_v: i32 = alpha;

    let moves = generate_moves(board);
    let pos_opt = read_position(board);

    let mut scored: Vec<(Move, i32)> = Vec::new();
    let mut mi: usize = 0;
    while mi < moves.len()
        invariant
            tables.wf(),
            mi <= moves@.len(),
        decreases moves@.len() - mi,
    {
        let action = moves[mi];
        let score = match &pos_opt {
            Some(p) => move_score(p, &action, tables),
            None => 0,
        };
        scored.push((action, score));
        mi = mi + 1;
    }
    sort_moves(&mut scored);

    let mut legal_moves: Vec<Move> = Vec::new();
    let mut i: usize = 0;
    while i < scored.len()
        invariant_except_break
            alpha_v < beta,
        invariant
            i <= scored@.len(),
            tables.wf(),
            depth >= 1,
            ply + depth <= PLY_LIMIT,
            -SCORE_INF <= alpha_v < SCORE_INF,
            -SCORE_INF <= max < SCORE_INF,
            -SCORE_INF <= beta <= SCORE_INF,
            search_info.search_end == old(search_info).search_end,
            search_info.nodes >= old(search_info).nodes,
            search_info.best_move == old(search_info).best_move,
            !old(search_info).ended,
            !search_info.ended,
            depth > 1 ==> !nodes_budget_hit(*old(search_info)),
            legal_moves@.len() == 0 ==> max == -SCORE_INF && best_move is None,
            legal_moves@.len() > 0 ==> max > -SCORE_INF && best_move is Some,
        ensures
            search_info.search_end == old(search_info).search_end,
            search_info.nodes >= old(search_info).nodes,
            search_info.best_move == old(search_info).best_move,
            -SCORE_INF <= max < SCORE_INF,
            !search_info.ended,
            depth > 1 ==> !nodes_budget_hit(*old(search_info)),
            legal_moves@.len() == 0 ==> max == -SCORE_INF && best_move is None,
            legal_moves@.len() > 0 ==> max > -SCORE_INF && best_move is Some,
        decreases scored@.len() - i,
    {
        let action = scored[i].0;
        let resp = is_legal(board, &action);
        let legal = resp.is_legal;
        let made_move = resp.made_move;
        if !legal && made_move.is_some() {
            match made_move {
                Some(mm) => {
                    match mm {
                        Some(u) => undo_move(board, u),
                        None => {},
                    }
                },
                None => {},
            }
        } else {
            let mut undo: Option<HistoryMove<1>> = match made_move {
                Some(mm) => mm,
                None => None,
            };
            if undo.is_none() {
                undo = make_move(board, &action);
            }

            if search_info.nodes < u64::MAX {
                search_info.nodes = search_info.nodes + 1;
            }
            let child = negamax(board, search_info, tables, depth - 1, ply + 1, -beta, -alpha_v);
            let score = -child;
            match undo {
                Some(u) => undo_move(board, u),
                None => {},
            }

            if search_info.ended {
                // The budget ran out somewhere below: unwind at once, the
                // driver discards this whole depth.
                return 0;
            }

            if score > max {
                best_move = Some(action);
                max = score;
            }
            if max > alpha_v {
                alpha_v = max;
            }
            legal_moves.push(action);
            if alpha_v >= beta {
                break;
            }
        }
        i = i + 1;
    }

    if ply == 0 && !search_info.ended {
        search_info.best_move = best_move;
    }

    let result = resolve(board, &legal_moves);
    let team = match &pos_opt {
        Some(p) => p.moving_team,
        None => 0,
    };
    match resolution_score(&result, team, ply) {
        Some(score) => score,
        None => max,
    }
}

} // verus!
