//! The boundary to the `monster_chess` board library.  The board itself is
//! opaque here: the searcher drives it through the trusted declarations and
//! wrappers below, and every decision taken on what comes back is made by
//! verified functions on plain values.

use vstd::prelude::*;
use monster_chess::board::Board;
use monster_chess::board::actions::{Action, HistoryMove, Move, SimpleMove};
use monster_chess::board::game::{GameResults, MoveLegalResponse, NORMAL_MODE};
use monster_chess::board::tests::get_time_ms;
use crate::evaluate::Position;

verus! {

/// A piece relocation of the board library: origin, destination, moving team
/// and piece kind, all plain integers the move orderer reads.
#[verifier::external_type_specification]
pub struct ExAction(Action);

/// A move of the board library: a pass or a relocation.
#[verifier::external_type_specification]
#[verifier::reject_recursive_types(T)]
pub struct ExSimpleMove<T>(SimpleMove<T>);

/// The board library's resolution of a position: won by a team, drawn, or
/// still ongoing.
#[verifier::external_type_specification]
pub struct ExGameResults(GameResults);

/// The undo record a move application returns; opaque, carried from the
/// application of a move to its undo.
#[verifier::external_type_specification]
#[verifier::external_body]
pub struct ExHistoryMove<const T: usize>(HistoryMove<T>);

/// The board itself: opaque mutable state owned by the board library.
#[verifier::external_type_specification]
#[verifier::external_body]
pub struct ExBoard<'a, const T: usize>(Board<'a, T>);

/// The board library's answer to a legality probe: the verdict and the probe
/// move it may have left applied.
#[verifier::external_type_specification]
pub struct ExMoveLegalResponse<const T: usize>(MoveLegalResponse<T>);

/// Relies on Board::generate_moves under the normal move-generation mode: the
/// pseudo-legal moves of the position, in the library's generation order.
#[verifier::external_body]
pub(crate) fn generate_moves<'a>(board: &Board<'a, 1>) -> (moves: Vec<Move>) {
    board.generate_moves(NORMAL_MODE)
}

/// Relies on Board::get_next_team and the board's public state: copies the
/// moving team's index, the two team bitboards and the six chess piece
/// bitboards into plain integers; None when the board has fewer piece kinds
/// or teams than chess.
#[verifier::external_body]
pub(crate) fn read_position<'a>(board: &Board<'a, 1>) -> (p: Option<Position>) {
    let s = &board.state;
    if s.pieces.len() < 6 || s.teams.len() < 2 || (s.moving_team as usize) >= s.teams.len() {
        return None;
    }
    let opposing = board.get_next_team(s.moving_team);
    Some(Position {
        pieces: [
            s.pieces[0].bits[0], s.pieces[1].bits[0], s.pieces[2].bits[0],
            s.pieces[3].bits[0], s.pieces[4].bits[0], s.pieces[5].bits[0],
        ],
        team: s.teams[s.moving_team as usize].bits[0],
        opposing: s.teams[opposing as usize].bits[0],
        moving_team: s.moving_team,
    })
}

/// Relies on MoveController::is_legal with unmake_move set to false: reports
/// whether the move is legal, and hands back the probe move the check may
/// have left applied to the board.
#[verifier::external_body]
pub(crate) fn is_legal<'a>(board: &mut Board<'a, 1>, action: &Move) -> (r: MoveLegalResponse<1>) {
    board.game.controller.is_legal(board, action, false)
}

/// Relies on Board::make_move: applies the move and returns its undo record.
#[verifier::external_body]
pub(crate) fn make_move<'a>(board: &mut Board<'a, 1>, action: &Move) -> (undo: Option<
    HistoryMove<1>,
>) {
    board.make_move(action)
}

/// Relies on Board::undo_move: restores the state recorded when the move was
/// made.
#[verifier::external_body]
pub(crate) fn undo_move<'a>(board: &mut Board<'a, 1>, undo: HistoryMove<1>) {
    board.undo_move(Some(undo));
}

/// Relies on Resolution::resolve: classifies the position, given the moves
/// found legal at this node, as ongoing, drawn, or won by some team.  Both
/// resolutions the board library ships (chess and ataxx) report a position
/// with no legal moves as won or drawn, never as ongoing — the interface
/// contract the searcher depends on to record a best move.
#[verifier::external_body]
pub(crate) fn resolve<'a>(board: &mut Board<'a, 1>, legal_moves: &Vec<Move>) -> (r: GameResults)
    ensures
        r is Ongoing ==> legal_moves@.len() > 0,
{
    board.game.resolution.resolve(board, legal_moves)
}

/// Bound on any millisecond reading of the clock: `Duration::as_millis` of a
/// duration of at most `u64::MAX` seconds stays far below this.
pub const TIME_BOUND: u128 = 1_000_000_000_000_000_000_000_000_000_000;

/// Relies on get_time_ms: the current time in milliseconds on the clock
/// source that deadline budgets are expressed in.  The reading is the
/// milliseconds of a `Duration`, which its type bounds below `2^74`.
#[verifier::external_body]
pub(crate) fn time_now() -> (t: u128)
    ensures
        t <= TIME_BOUND,
{
    get_time_ms()
}

/// Relies on Board::encode_action: the move's text in the library's notation.
#[verifier::external_body]
pub(crate) fn encode_move<'a>(board: &Board<'a, 1>, action: &Move) -> (s: String) {
    board.encode_action(action)
}

} // verus!
