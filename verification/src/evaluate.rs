//! Positional evaluation from the perspective of the side to move: material
//! balance plus piece-square bonuses, summed over the five non-king piece
//! kinds.  Works on a `Position`, the plain-value snapshot of the board state
//! that the evaluator and the move orderer read.

use vstd::prelude::*;
use crate::tables::{EvalTables, MATERIAL_BOUND, PST_BOUND};

verus! {

/// Bound on the magnitude of any heuristic evaluation: five piece kinds, each
/// contributing at most `MATERIAL_BOUND * 128` of material difference and
/// `2 * 64 * PST_BOUND` of positional difference.
pub const EVAL_BOUND: i32 = 900_000;

/// The plain-value snapshot of a board position that the evaluator and the
/// move orderer read: one bitboard per piece kind, the two team bitboards
/// oriented around the side to move, and the moving team's index.
pub struct Position {
    /// Bitboard of each piece kind, both teams together, indexed by the
    /// piece-kind constants of `tables`.
    pub pieces: [u128; 6],
    /// Squares occupied by the side to move.
    pub team: u128,
    /// Squares occupied by the opposing side.
    pub opposing: u128,
    /// Index of the side to move (0 is the side whose orientation matches the
    /// authored piece-square tables).
    pub moving_team: u16,
}

/// Whether bit `i` of `x` is set.
pub open spec fn bit_at(x: u128, i: u32) -> bool {
    x >> i & 1 == 1
}

/// Number of set bits among the low `n` bits of `x`.
pub open spec fn count_set(x: u128, n: u32) -> int
    decreases n,
{
    if n == 0 {
        0
    } else {
        count_set(x, (n - 1) as u32) + if bit_at(x, (n - 1) as u32) { 1int } else { 0int }
    }
}

/// Sum of `table` over the squares among the low `n` bits of `x` that are set.
pub open spec fn square_sum(x: u128, table: Seq<i32>, n: u32) -> int
    decreases n,
{
    if n == 0 {
        0
    } else {
        square_sum(x, table, (n - 1) as u32)
            + if bit_at(x, (n - 1) as u32) { table[n - 1] as int } else { 0int }
    }
}

proof fn lemma_count_set_bound(x: u128, n: u32)
    ensures
        0 <= count_set(x, n) <= n,
    decreases n,
{
    if n > 0 {
        lemma_count_set_bound(x, (n - 1) as u32);
    }
}

/// Count the set bits of a full 128-bit board.
fn popcount(x: u128) -> (c: u32)
    ensures
        c == count_set(x, 128),
        c <= 128,
{
    let mut c: u32 = 0;
    let mut i: u32 = 0;
    while i < 128
        invariant
            i <= 128,
            c == count_set(x, i),
            c <= i,
        decreases 128 - i,
    {
        if (x >> i) & 1 == 1 {
            c = c + 1;
        }
        i = i + 1;
    }
    c
}

/// Sum the table bonuses of the pieces of `x` on the 64 board squares.
fn sum_squares(x: u128, table: &[i32; 64]) -> (s: i32)
    requires
        forall|i: int| 0 <= i < 64 ==> -PST_BOUND <= #[trigger] table@[i] <= PST_BOUND,
    ensures
        s == square_sum(x, table@, 64),
        -64 * PST_BOUND <= s <= 64 * PST_BOUND,
{
    let mut s: i32 = 0;
    let mut i: u32 = 0;
    while i < 64
        invariant
            i <= 64,
            s == square_sum(x, table@, i),
            -(i as int) * PST_BOUND <= s <= (i as int) * PST_BOUND,
            forall|j: int| 0 <= j < 64 ==> -PST_BOUND <= #[trigger] table@[j] <= PST_BOUND,
        decreases 64 - i,
    {
        if (x >> i) & 1 == 1 {
            s = s + table[i as usize];
        }
        i = i + 1;
    }
    s
}

/// Material difference for one piece kind: the material value times the
/// difference between the mover's and the opponent's piece counts.
pub open spec fn spec_material_difference(p: Position, pieces: u128, material: i32) -> int {
    material * (count_set(pieces & p.team, 128) - count_set(pieces & p.opposing, 128))
}

/// Positional difference for one piece kind: the base table scores the side
/// with index 0, the mirrored table the other side; the mover's sum minus the
/// opponent's sum.
pub open spec fn spec_piece_square_difference(
    p: Position,
    pieces: u128,
    table: Seq<i32>,
    table_rev: Seq<i32>,
) -> int {
    let white = if p.moving_team == 0 { p.team } else { p.opposing };
    let black = if p.moving_team == 0 { p.opposing } else { p.team };
    let white_sum = square_sum(pieces & white, table, 64);
    let black_sum = square_sum(pieces & black, table_rev, 64);
    if p.moving_team == 0 {
        white_sum - black_sum
    } else {
        black_sum - white_sum
    }
}

/// Combined material and positional difference of piece kind `k`.
pub open spec fn spec_difference(p: Position, k: int, t: EvalTables) -> int {
    spec_material_difference(p, p.pieces@[k], t.material@[k])
        + spec_piece_square_difference(p, p.pieces@[k], t.pst@[k]@, t.pst_rev@[k]@)
}

/// The evaluation of a position: the sum of the per-kind differences over
/// pawns, knights, bishops, rooks and queens (kings carry no material and the
/// king table only shapes move ordering through the same bound).
pub open spec fn spec_evaluate(p: Position, t: EvalTables) -> int {
    spec_difference(p, 0, t) + spec_difference(p, 1, t) + spec_difference(p, 2, t)
        + spec_difference(p, 3, t) + spec_difference(p, 4, t)
}

impl Position {
    fn material_difference(&self, pieces: u128, material: i32) -> (r: i32)
        requires
            -MATERIAL_BOUND <= material <= MATERIAL_BOUND,
        ensures
            r == spec_material_difference(*self, pieces, material),
            -128 * MATERIAL_BOUND <= r <= 128 * MATERIAL_BOUND,
    {
        let home_pieces = popcount(pieces & self.team) as i32;
        let opposing_pieces = popcount(pieces & self.opposing) as i32;
        let diff = home_pieces - opposing_pieces;
        assert(-128 * MATERIAL_BOUND <= material * diff <= 128 * MATERIAL_BOUND)
            by (nonlinear_arith)
            requires
                -MATERIAL_BOUND <= material <= MATERIAL_BOUND,
                -128 <= diff <= 128,
        ;
        material * diff
    }

    fn piece_square_difference(
        &self,
        pieces: u128,
        table: &[i32; 64],
        table_rev: &[i32; 64],
    ) -> (r: i32)
        requires
            forall|i: int| 0 <= i < 64 ==> -PST_BOUND <= #[trigger] table@[i] <= PST_BOUND,
            forall|i: int| 0 <= i < 64 ==> -PST_BOUND <= #[trigger] table_rev@[i] <= PST_BOUND,
        ensures
            r == spec_piece_square_difference(*self, pieces, table@, table_rev@),
            -128 * PST_BOUND <= r <= 128 * PST_BOUND,
    {
        let (white, black) = if self.moving_team == 0 {
            (self.team, self.opposing)
        } else {
            (self.opposing, self.team)
        };
        let white_pieces = sum_squares(pieces & white, table);
        let black_pieces = sum_squares(pieces & black, table_rev);
        if self.moving_team == 0 {
            white_pieces - black_pieces
        } else {
            black_pieces - white_pieces
        }
    }

    fn difference(&self, k: usize, t: &EvalTables) -> (r: i32)
        requires
            k < 6,
            t.wf(),
        ensures
            r == spec_difference(*self, k as int, *t),
            -180_000 <= r <= 180_000,
    {
        self.material_difference(self.pieces[k], t.material[k])
            + self.piece_square_difference(self.pieces[k], &t.pst[k], &t.pst_rev[k])
    }
}

/// Score a position from the perspective of the side to move: positive values
/// favor the mover.  The result is a pure function of the position and the
/// tables, so two calls on the same inputs return identical values.
pub fn evaluate(p: &Position, t: &EvalTables) -> (r: i32)
    requires
        t.wf(),
    ensures
        r == spec_evaluate(*p, *t),
        -EVAL_BOUND <= r <= EVAL_BOUND,
{
    p.difference(0, t) + p.difference(1, t) + p.difference(2, t) + p.difference(3, t)
        + p.difference(4, t)
}

} // verus!
