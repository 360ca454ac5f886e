//! Static evaluation data: material values per piece kind and the 8x8
//! piece-square tables, together with the row-mirrored variants used to score
//! the opposing side's pieces from the same authored tables.

use vstd::prelude::*;

verus! {

/// Piece-kind indices, matching the board library's chess piece ordering.
pub const PAWN: usize = 0;
pub const KNIGHT: usize = 1;
pub const BISHOP: usize = 2;
pub const ROOK: usize = 3;
pub const QUEEN: usize = 4;
pub const KING: usize = 5;

/// Number of piece kinds in chess.
pub const PIECE_KINDS: usize = 6;

/// Bound on the magnitude of a material value (the largest authored value is
/// 1025); keeps every evaluation term well inside `i32`.
pub const MATERIAL_BOUND: i32 = 1100;

/// Bound on the magnitude of a piece-square entry (the largest authored entry
/// is 167 in magnitude).
pub const PST_BOUND: i32 = 250;

/// The square of the mirrored table that square `i` of the base table maps to:
/// same column, rows in reverse order.
pub open spec fn mirror_index(i: int) -> int {
    8 * (7 - i / 8) + i % 8
}

/// The authored material values, by piece kind: pawn, knight, bishop, rook,
/// queen, king.
pub open spec fn spec_material() -> Seq<i32> {
    seq![82i32, 337i32, 365i32, 477i32, 1025i32, 0i32]
}

pub open spec fn spec_pawn_pst() -> Seq<i32> {
    seq![
        0i32, 0i32, 0i32, 0i32, 0i32, 0i32, 0i32, 0i32,
        98i32, 134i32, 61i32, 95i32, 68i32, 126i32, 34i32, -11i32,
        -6i32, 7i32, 26i32, 31i32, 65i32, 56i32, 25i32, -20i32,
        -14i32, 13i32, 6i32, 21i32, 23i32, 12i32, 17i32, -23i32,
        -27i32, -2i32, -5i32, 12i32, 17i32, 6i32, 10i32, -25i32,
        -26i32, -4i32, -4i32, -10i32, 3i32, 3i32, 33i32, -12i32,
        -35i32, -1i32, -20i32, -23i32, -15i32, 24i32, 38i32, -22i32,
        0i32, 0i32, 0i32, 0i32, 0i32, 0i32, 0i32, 0i32,
    ]
}

pub open spec fn spec_knight_pst() -> Seq<i32> {
    seq![
        -167i32, -89i32, -34i32, -49i32, 61i32, -97i32, -15i32, -107i32,
        -73i32, -41i32, 72i32, 36i32, 23i32, 62i32, 7i32, -17i32,
        -47i32, 60i32, 37i32, 65i32, 84i32, 129i32, 73i32, 44i32,
        -9i32, 17i32, 19i32, 53i32, 37i32, 69i32, 18i32, 22i32,
        -13i32, 4i32, 16i32, 13i32, 28i32, 19i32, 21i32, -8i32,
        -23i32, -9i32, 12i32, 10i32, 19i32, 17i32, 25i32, -16i32,
        -29i32, -53i32, -12i32, -3i32, -1i32, 18i32, -14i32, -19i32,
        -105i32, -21i32, -58i32, -33i32, -17i32, -28i32, -19i32, -23i32,
    ]
}

pub open spec fn spec_bishop_pst() -> Seq<i32> {
    seq![
        -29i32, 4i32, -82i32, -37i32, -25i32, -42i32, 7i32, -8i32,
        -26i32, 16i32, -18i32, -13i32, 30i32, 59i32, 18i32, -47i32,
        -16i32, 37i32, 43i32, 40i32, 35i32, 50i32, 37i32, -2i32,
        -4i32, 5i32, 19i32, 50i32, 37i32, 37i32, 7i32, -2i32,
        -6i32, 13i32, 13i32, 26i32, 34i32, 12i32, 10i32, 4i32,
        0i32, 15i32, 15i32, 15i32, 14i32, 27i32, 18i32, 10i32,
        4i32, 15i32, 16i32, 0i32, 7i32, 21i32, 33i32, 1i32,
        -33i32, -3i32, -14i32, -21i32, -13i32, -12i32, -39i32, -21i32,
    ]
}

pub open spec fn spec_rook_pst() -> Seq<i32> {
    seq![
        32i32, 42i32, 32i32, 51i32, 63i32, 9i32, 31i32, 43i32,
        27i32, 32i32, 58i32, 62i32, 80i32, 67i32, 26i32, 44i32,
        -5i32, 19i32, 26i32, 36i32, 17i32, 45i32, 61i32, 16i32,
        -24i32, -11i32, 7i32, 26i32, 24i32, 35i32, -8i32, -20i32,
        -36i32, -26i32, -12i32, -1i32, 9i32, -7i32, 6i32, -23i32,
        -45i32, -25i32, -16i32, -17i32, 3i32, 0i32, -5i32, -33i32,
        -44i32, -16i32, -20i32, -9i32, -1i32, 11i32, -6i32, -71i32,
        -19i32, -13i32, 1i32, 17i32, 16i32, 7i32, -37i32, -26i32,
    ]
}

pub open spec fn spec_queen_pst() -> Seq<i32> {
    seq![
        -28i32, 0i32, 29i32, 12i32, 59i32, 44i32, 43i32, 45i32,
        -24i32, -39i32, -5i32, 1i32, -16i32, 57i32, 28i32, 54i32,
        -13i32, -17i32, 7i32, 8i32, 29i32, 56i32, 47i32, 57i32,
        -27i32, -27i32, -16i32, -16i32, -1i32, 17i32, -2i32, 1i32,
        -9i32, -26i32, -9i32, -10i32, -2i32, -4i32, 3i32, -3i32,
        -14i32, 2i32, -11i32, -2i32, -5i32, 2i32, 14i32, 5i32,
        -35i32, -8i32, 11i32, 2i32, 8i32, 15i32, -3i32, 1i32,
        -1i32, -18i32, -9i32, 10i32, -15i32, -25i32, -31i32, -50i32,
    ]
}

pub open spec fn spec_king_pst() -> Seq<i32> {
    seq![
        -65i32, 23i32, 16i32, -15i32, -56i32, -34i32, 2i32, 13i32,
        29i32, -1i32, -20i32, -7i32, -8i32, -4i32, -38i32, -29i32,
        -9i32, 24i32, 2i32, -16i32, -20i32, 6i32, 22i32, -22i32,
        -17i32, -20i32, -12i32, -27i32, -30i32, -25i32, -14i32, -36i32,
        -49i32, -1i32, -27i32, -39i32, -46i32, -44i32, -33i32, -51i32,
        -14i32, -14i32, -22i32, -46i32, -44i32, -30i32, -15i32, -27i32,
        1i32, 7i32, -8i32, -64i32, -43i32, -16i32, 9i32, 8i32,
        -15i32, 36i32, 12i32, -54i32, 8i32, -28i32, 24i32, 14i32,
    ]
}

/// The authored piece-square table of piece kind `k` (the widely used
/// simplified evaluation tables).
pub open spec fn spec_pst(k: int) -> Seq<i32> {
    if k == 0 {
        spec_pawn_pst()
    } else if k == 1 {
        spec_knight_pst()
    } else if k == 2 {
        spec_bishop_pst()
    } else if k == 3 {
        spec_rook_pst()
    } else if k == 4 {
        spec_queen_pst()
    } else {
        spec_king_pst()
    }
}

/// Row-mirror an 8x8 piece-square table: the rows come out in reverse order,
/// each row keeping its column order, so the same table can score the side
/// playing in the opposite orientation.
pub fn reverse_pst(pst: &[i32; 64]) -> (r: [i32; 64])
    ensures
        forall|i: int| 0 <= i < 64 ==> r@[i] == pst@[mirror_index(i)],
{
    let mut r: [i32; 64] = [0; 64];
    let mut i: usize = 0;
    while i < 64
        invariant
            i <= 64,
            forall|j: int| 0 <= j < i ==> r@[j] == pst@[mirror_index(j)],
        decreases 64 - i,
    {
        let row: usize = i / 8;
        let col: usize = i % 8;
        r[i] = pst[8 * (7 - row) + col];
        i = i + 1;
    }
    r
}

/// The evaluator's read-only data: material values and piece-square tables
/// per piece kind, plus the mirrored tables derived once at construction.
pub struct EvalTables {
    pub material: [i32; 6],
    pub pst: [[i32; 64]; 6],
    pub pst_rev: [[i32; 64]; 6],
}

impl EvalTables {
    /// Every value is bounded, and each mirrored table is the row-mirror of
    /// its base table.
    pub open spec fn wf(&self) -> bool {
        &&& forall|k: int| 0 <= k < 6 ==> -MATERIAL_BOUND <= #[trigger] self.material@[k] <= MATERIAL_BOUND
        &&& forall|k: int, i: int| 0 <= k < 6 && 0 <= i < 64 ==> -PST_BOUND <= #[trigger] self.pst@[k]@[i] <= PST_BOUND
        &&& forall|k: int, i: int| 0 <= k < 6 && 0 <= i < 64 ==> #[trigger] self.pst_rev@[k]@[i] == self.pst@[k]@[mirror_index(i)]
    }

    /// Build the authored tables and derive the mirrored variants.  The
    /// contract pins every entry: the material values and the base
    /// piece-square tables equal the authored data, and `wf`'s mirror law
    /// fixes the mirrored tables from the base ones.
    pub fn new() -> (t: EvalTables)
        ensures
            t.wf(),
            t.material@ == spec_material(),
            forall|k: int| 0 <= k < 6 ==> #[trigger] t.pst@[k]@ == spec_pst(k),
    {
        let material: [i32; 6] = [82, 337, 365, 477, 1025, 0];
        let pawn: [i32; 64] = [
            0, 0, 0, 0, 0, 0, 0, 0,
            98, 134, 61, 95, 68, 126, 34, -11,
            -6, 7, 26, 31, 65, 56, 25, -20,
            -14, 13, 6, 21, 23, 12, 17, -23,
            -27, -2, -5, 12, 17, 6, 10, -25,
            -26, -4, -4, -10, 3, 3, 33, -12,
            -35, -1, -20, -23, -15, 24, 38, -22,
            0, 0, 0, 0, 0, 0, 0, 0,
        ];
        let knight: [i32; 64] = [
            -167, -89, -34, -49, 61, -97, -15, -107,
            -73, -41, 72, 36, 23, 62, 7, -17,
            -47, 60, 37, 65, 84, 129, 73, 44,
            -9, 17, 19, 53, 37, 69, 18, 22,
            -13, 4, 16, 13, 28, 19, 21, -8,
            -23, -9, 12, 10, 19, 17, 25, -16,
            -29, -53, -12, -3, -1, 18, -14, -19,
            -105, -21, -58, -33, -17, -28, -19, -23,
        ];
        let bishop: [i32; 64] = [
            -29, 4, -82, -37, -25, -42, 7, -8,
            -26, 16, -18, -13, 30, 59, 18, -47,
            -16, 37, 43, 40, 35, 50, 37, -2,
            -4, 5, 19, 50, 37, 37, 7, -2,
            -6, 13, 13, 26, 34, 12, 10, 4,
            0, 15, 15, 15, 14, 27, 18, 10,
            4, 15, 16, 0, 7, 21, 33, 1,
            -33, -3, -14, -21, -13, -12, -39, -21,
        ];
        let rook: [i32; 64] = [
            32, 42, 32, 51, 63, 9, 31, 43,
            27, 32, 58, 62, 80, 67, 26, 44,
            -5, 19, 26, 36, 17, 45, 61, 16,
            -24, -11, 7, 26, 24, 35, -8, -20,
            -36, -26, -12, -1, 9, -7, 6, -23,
            -45, -25, -16, -17, 3, 0, -5, -33,
            -44, -16, -20, -9, -1, 11, -6, -71,
            -19, -13, 1, 17, 16, 7, -37, -26,
        ];
        let queen: [i32; 64] = [
            -28, 0, 29, 12, 59, 44, 43, 45,
            -24, -39, -5, 1, -16, 57, 28, 54,
            -13, -17, 7, 8, 29, 56, 47, 57,
            -27, -27, -16, -16, -1, 17, -2, 1,
            -9, -26, -9, -10, -2, -4, 3, -3,
            -14, 2, -11, -2, -5, 2, 14, 5,
            -35, -8, 11, 2, 8, 15, -3, 1,
            -1, -18, -9, 10, -15, -25, -31, -50,
        ];
        let king: [i32; 64] = [
            -65, 23, 16, -15, -56, -34, 2, 13,
            29, -1, -20, -7, -8, -4, -38, -29,
            -9, 24, 2, -16, -20, 6, 22, -22,
            -17, -20, -12, -27, -30, -25, -14, -36,
            -49, -1, -27, -39, -46, -44, -33, -51,
            -14, -14, -22, -46, -44, -30, -15, -27,
            1, 7, -8, -64, -43, -16, 9, 8,
            -15, 36, 12, -54, 8, -28, 24, 14,
        ];
        let pst: [[i32; 64]; 6] = [pawn, knight, bishop, rook, queen, king];
        let pst_rev: [[i32; 64]; 6] = [
            reverse_pst(&pawn),
            reverse_pst(&knight),
            reverse_pst(&bishop),
            reverse_pst(&rook),
            reverse_pst(&queen),
            reverse_pst(&king),
        ];
        let t = EvalTables { material, pst, pst_rev };
        proof {
            assert(t.material@ =~= spec_material());
            assert forall|k: int| 0 <= k < 6 implies #[trigger] t.pst@[k]@ == spec_pst(k) by {
                if k == 0 {
                    assert(t.pst@[0]@ =~= spec_pawn_pst());
                } else if k == 1 {
                    assert(t.pst@[1]@ =~= spec_knight_pst());
                } else if k == 2 {
                    assert(t.pst@[2]@ =~= spec_bishop_pst());
                } else if k == 3 {
                    assert(t.pst@[3]@ =~= spec_rook_pst());
                } else if k == 4 {
                    assert(t.pst@[4]@ =~= spec_queen_pst());
                } else {
                    assert(t.pst@[5]@ =~= spec_king_pst());
                }
            }
        }
        t
    }
}

} // verus!
