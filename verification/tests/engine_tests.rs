use ampersand::engine::{search_end_of, select_move, TimeControlSpec, DEPTH_CAP};
use ampersand::evaluate::{evaluate, Position};
use ampersand::minimax::{alphabeta, GameTree, NodeStatus};
use ampersand::search::{
    move_score, negamax, resolution_score, sort_moves, SearchEnd, SearchInfo, SCORE_INF,
};
use ampersand::tables::{reverse_pst, EvalTables, PAWN, QUEEN};
use monster_chess::board::actions::{Action, SimpleMove};
use monster_chess::board::game::GameResults;
use monster_chess::games::chess::Chess;

/// Square index of the board library: column plus 8 times (8 minus rank).
fn sq(col: u16, rank: u16) -> u16 {
    col + 8 * (8 - rank)
}

fn bit(square: u16) -> u128 {
    1u128 << square
}

/// The starting chess position as the evaluator's plain-value snapshot,
/// white to move.
fn start_position() -> Position {
    let mut pawns: u128 = 0;
    for col in 0..8 {
        pawns |= bit(sq(col, 2)) | bit(sq(col, 7));
    }
    let knights = bit(sq(1, 1)) | bit(sq(6, 1)) | bit(sq(1, 8)) | bit(sq(6, 8));
    let bishops = bit(sq(2, 1)) | bit(sq(5, 1)) | bit(sq(2, 8)) | bit(sq(5, 8));
    let rooks = bit(sq(0, 1)) | bit(sq(7, 1)) | bit(sq(0, 8)) | bit(sq(7, 8));
    let queens = bit(sq(3, 1)) | bit(sq(3, 8));
    let kings = bit(sq(4, 1)) | bit(sq(4, 8));
    let mut white: u128 = 0;
    let mut black: u128 = 0;
    for col in 0..8 {
        white |= bit(sq(col, 1)) | bit(sq(col, 2));
        black |= bit(sq(col, 7)) | bit(sq(col, 8));
    }
    Position {
        pieces: [pawns, knights, bishops, rooks, queens, kings],
        team: white,
        opposing: black,
        moving_team: 0,
    }
}

#[test]
fn reverse_pst_mirrors_rows() {
    let mut base = [0i32; 64];
    for i in 0..64 {
        base[i] = i as i32;
    }
    let rev = reverse_pst(&base);
    for row in 0..8 {
        for col in 0..8 {
            assert_eq!(rev[8 * row + col], base[8 * (7 - row) + col]);
        }
    }
}

#[test]
fn evaluate_is_deterministic_and_symmetric_at_start() {
    let tables = EvalTables::new();
    let pos = start_position();
    let first = evaluate(&pos, &tables);
    let second = evaluate(&pos, &tables);
    assert_eq!(first, second);
    assert_eq!(first, 0);
}

#[test]
fn evaluate_counts_material() {
    let tables = EvalTables::new();
    // A lone white queen on a1 against a lone black pawn on a7.
    let queen_sq = sq(0, 1);
    let pawn_sq = sq(0, 7);
    let pos = Position {
        pieces: [bit(pawn_sq), 0, 0, 0, bit(queen_sq), 0],
        team: bit(queen_sq),
        opposing: bit(pawn_sq),
        moving_team: 0,
    };
    let tables_material = 1025 - 82;
    // Piece-square terms: queen a1 from the base table, pawn a7 from the
    // mirrored table (same entry as a white pawn on a2).
    let queen_bonus = -1; // queen table, last row, first column
    let pawn_bonus = -35; // pawn table, seventh row, first column
    assert_eq!(
        evaluate(&pos, &tables),
        tables_material + queen_bonus - pawn_bonus
    );
}

#[test]
fn move_score_ranks_winning_capture_first() {
    let tables = EvalTables::new();
    // White pawn on c4 can take an undefended black queen on d5.
    let pawn_sq = sq(2, 4);
    let queen_sq = sq(3, 5);
    let pos = Position {
        pieces: [bit(pawn_sq), 0, 0, 0, bit(queen_sq), 0],
        team: bit(pawn_sq),
        opposing: bit(queen_sq),
        moving_team: 0,
    };
    let capture = SimpleMove::Action(Action {
        from: Some(pawn_sq),
        to: queen_sq,
        team: 0,
        piece_type: PAWN as u16,
        info: 0,
        move_type: 0,
    });
    let quiet = SimpleMove::Action(Action {
        from: Some(pawn_sq),
        to: sq(2, 5),
        team: 0,
        piece_type: PAWN as u16,
        info: 0,
        move_type: 0,
    });
    assert_eq!(move_score(&pos, &capture, &tables), 1000 + 1025 - 82);
    assert_eq!(move_score(&pos, &quiet, &tables), 0);
    assert_eq!(move_score(&pos, &SimpleMove::Pass, &tables), 0);
    assert!(move_score(&pos, &capture, &tables) > move_score(&pos, &quiet, &tables));
}

#[test]
fn move_score_uses_cheapest_victim_rule() {
    let tables = EvalTables::new();
    // A queen capturing a pawn scores below a pawn capturing a queen.
    let queen_sq = sq(3, 1);
    let pawn_sq = sq(3, 5);
    let pos = Position {
        pieces: [bit(pawn_sq), 0, 0, 0, bit(queen_sq), 0],
        team: bit(queen_sq),
        opposing: bit(pawn_sq),
        moving_team: 0,
    };
    let capture = SimpleMove::Action(Action {
        from: Some(queen_sq),
        to: pawn_sq,
        team: 0,
        piece_type: QUEEN as u16,
        info: 0,
        move_type: 0,
    });
    assert_eq!(move_score(&pos, &capture, &tables), 1000 + 82 - 1025);
}

#[test]
fn sort_moves_orders_descending() {
    let mut moves = vec![
        (SimpleMove::Pass, 1),
        (SimpleMove::Pass, 5),
        (SimpleMove::Pass, 3),
        (SimpleMove::Pass, 5),
        (SimpleMove::Pass, -2),
    ];
    sort_moves(&mut moves);
    let scores: Vec<i32> = moves.iter().map(|m| m.1).collect();
    assert_eq!(scores, vec![5, 5, 3, 1, -2]);
}

#[test]
fn sort_moves_keeps_generation_order_on_ties() {
    let mk = |to: u16, score: i32| {
        (
            SimpleMove::Action(Action {
                from: None,
                to,
                team: 0,
                piece_type: 0,
                info: 0,
                move_type: 0,
            }),
            score,
        )
    };
    let mut moves = vec![mk(1, 3), mk(2, 7), mk(3, 3), mk(4, 7)];
    sort_moves(&mut moves);
    let order: Vec<(u16, i32)> = moves
        .iter()
        .map(|(m, s)| match m {
            SimpleMove::Action(a) => (a.to, *s),
            SimpleMove::Pass => (u16::MAX, *s),
        })
        .collect();
    // Equal priorities keep their generation order.
    assert_eq!(order, vec![(2, 7), (4, 7), (1, 3), (3, 3)]);
}

#[test]
fn resolution_scores_follow_mate_distance() {
    // A mate found earlier scores strictly higher in magnitude.
    let win0 = resolution_score(&GameResults::Win(0), 0, 0).unwrap();
    let win1 = resolution_score(&GameResults::Win(0), 0, 1).unwrap();
    let loss0 = resolution_score(&GameResults::Win(1), 0, 0).unwrap();
    let loss1 = resolution_score(&GameResults::Win(1), 0, 1).unwrap();
    assert_eq!(win0, 100_000);
    assert_eq!(win1, 99_999);
    assert_eq!(loss0, -100_000);
    assert_eq!(loss1, -99_999);
    assert!(win0 > win1);
    assert!(loss0.abs() > loss1.abs());
    assert_eq!(resolution_score(&GameResults::Draw, 0, 3), Some(0));
    assert_eq!(resolution_score(&GameResults::Ongoing, 0, 3), None);
}

#[test]
fn depth_one_search_returns_legal_opening_move() {
    let game = Chess::create();
    let mut board = game.default();
    let tables = EvalTables::new();
    let (result, reports) = select_move(&mut board, &tables, &TimeControlSpec::Depth(1));
    let (best, score) = result.expect("depth-1 search must find a move");
    assert_eq!(reports.len(), 1);
    assert_eq!(reports[0].depth, 1);
    assert_eq!(reports[0].score, score);
    // Material and tables are symmetric at the start, so the score is the
    // best piece-square improvement of one opening move: developing the
    // king's knight, 17 - (-19) = 36 on the knight table.
    assert_eq!(score, 36);
    assert_eq!(board.encode_action(&best), "g1f3");
    let legal = board.generate_legal_moves(0);
    let encoded = board.encode_action(&best);
    assert!(legal.iter().any(|m| board.encode_action(m) == encoded));
}

/// The piece placement, side to move and castling rights of a position's
/// notation.  The board library's own undo does not restore its en passant
/// marker and move counters (they are rebuilt from a history record that the
/// legality probes disturb), so those fields are outside what any engine on
/// top of it can keep.
fn board_fields(fen: &str) -> Vec<String> {
    fen.split_whitespace().take(3).map(|f| f.to_string()).collect()
}

#[test]
fn search_restores_position_exactly() {
    // The board state is identical after a search, at every depth.
    let game = Chess::create();
    let mut board = game.default();
    let tables = EvalTables::new();
    let fen_before = board.to_fen();
    for depth in 1..4u32 {
        let (result, _) = select_move(&mut board, &tables, &TimeControlSpec::Depth(depth));
        assert!(result.is_some());
        assert_eq!(board_fields(&board.to_fen()), board_fields(&fen_before));
    }
}

#[test]
fn iterative_deepening_node_counts_grow() {
    // A deeper completed search expands at least as many nodes here.
    let game = Chess::create();
    let tables = EvalTables::new();
    let mut previous: u64 = 0;
    for depth in 1..4u32 {
        let mut board = game.default();
        let mut info = SearchInfo {
            best_move: None,
            nodes: 0,
            search_end: SearchEnd::Unbounded,
            ended: false,
        };
        let score = negamax(&mut board, &mut info, &tables, depth, 0, -SCORE_INF, SCORE_INF);
        assert!(!info.ended);
        assert!(score.abs() <= SCORE_INF);
        assert!(info.nodes >= previous);
        previous = info.nodes;
    }
    assert!(previous > 20);
}

#[test]
fn node_budget_aborts_promptly() {
    // With a one-node budget, a depth-3 search stops at the first budget
    // check past the cap: one node expanded, the flag set, and the whole
    // remaining tree unwound without further work.
    let game = Chess::create();
    let mut board = game.default();
    let tables = EvalTables::new();
    let mut info = SearchInfo {
        best_move: None,
        nodes: 0,
        search_end: SearchEnd::Nodes(1),
        ended: false,
    };
    let score = negamax(&mut board, &mut info, &tables, 3, 0, -SCORE_INF, SCORE_INF);
    assert!(info.ended);
    assert_eq!(score, 0);
    assert_eq!(info.nodes, 1);
    assert!(info.best_move.is_none());
    // Once the flag is set, every node at any depth returns 0 at once,
    // leaves included, and expands nothing.
    let again = negamax(&mut board, &mut info, &tables, 0, 0, -SCORE_INF, SCORE_INF);
    assert_eq!(again, 0);
    assert_eq!(info.nodes, 1);
}

#[test]
fn node_budget_driver_keeps_last_completed_depth() {
    let game = Chess::create();
    let mut board = game.default();
    let tables = EvalTables::new();
    let (result, reports) = select_move(&mut board, &tables, &TimeControlSpec::Nodes(1));
    // Depths 1 and 2 complete (their interior nodes never reach a
    // depth-greater-than-one budget check with a nonzero counter); depth 3
    // aborts and is discarded.
    assert!(result.is_some());
    assert_eq!(reports.len(), 2);
    assert_eq!(reports[0].depth, 1);
    assert_eq!(reports[1].depth, 2);
    assert_eq!(result.unwrap().1, reports[1].score);
}

#[test]
fn reports_carry_consistent_rates() {
    let game = Chess::create();
    let mut board = game.default();
    let tables = EvalTables::new();
    let (_, reports) = select_move(&mut board, &tables, &TimeControlSpec::Depth(3));
    assert_eq!(reports.len(), 3);
    for (k, report) in reports.iter().enumerate() {
        assert_eq!(report.depth as usize, k + 1);
        assert!(report.time >= 1);
        assert_eq!(
            report.nps as u128,
            (report.nodes as u128) * 1000 / report.time
        );
        assert!(!report.pv.is_empty());
    }
}

#[test]
fn mated_position_scores_losing_mate_at_root() {
    // No legal continuation and the mover mated: minus 100000 at ply 0.
    let game = Chess::create();
    let mut board =
        game.from_fen("rnb1kbnr/pppp1ppp/8/4p3/6Pq/5P2/PPPPP2P/RNBQKBNR w KQkq - 0 3");
    let tables = EvalTables::new();
    let mut info = SearchInfo {
        best_move: None,
        nodes: 0,
        search_end: SearchEnd::Unbounded,
        ended: false,
    };
    let score = negamax(&mut board, &mut info, &tables, 1, 0, -SCORE_INF, SCORE_INF);
    assert_eq!(score, -100_000);
    assert!(info.best_move.is_none());
    let (result, reports) = select_move(&mut board, &tables, &TimeControlSpec::Depth(1));
    assert!(result.is_none());
    assert!(reports.is_empty());
}

#[test]
fn search_end_translation_follows_the_request() {
    assert!(matches!(
        search_end_of(&TimeControlSpec::Depth(5), 1000),
        (SearchEnd::Unbounded, 5)
    ));
    assert!(matches!(
        search_end_of(&TimeControlSpec::MoveTime(500), 100),
        (SearchEnd::Time(600), _)
    ));
    assert!(matches!(
        search_end_of(&TimeControlSpec::Nodes(42), 0),
        (SearchEnd::Nodes(42), _)
    ));
    // A clock of 2000 ms with a 100 ms increment: a twentieth of the clock
    // plus three quarters of the increment.
    assert!(matches!(
        search_end_of(
            &TimeControlSpec::Timed { time_ms: 2000, inc_ms: 100 },
            1000
        ),
        (SearchEnd::Time(1175), _)
    ));
    assert!(matches!(
        search_end_of(&TimeControlSpec::Infinite, 7),
        (SearchEnd::Unbounded, DEPTH_CAP)
    ));
}

fn leaf(eval: i32) -> GameTree {
    GameTree {
        eval,
        status: NodeStatus::Ongoing,
        children: Vec::new(),
    }
}

#[test]
fn alphabeta_matches_full_width_negamax() {
    // The pruned search returns the full-width value and move choice.
    // Depth 2 over a hand-built tree: the root value is the maximum over
    // children of the negated depth-1 child value, and the depth-1 child
    // value is the maximum negated grandchild evaluation.
    let child_a = GameTree {
        eval: 0,
        status: NodeStatus::Ongoing,
        children: vec![leaf(-3), leaf(5), leaf(1)],
    };
    // child_a depth-1 value: max(3, -5, -1) = 3; root contribution -3.
    let child_b = GameTree {
        eval: 0,
        status: NodeStatus::Ongoing,
        children: vec![leaf(-1), leaf(-2)],
    };
    // child_b depth-1 value: max(1, 2) = 2; root contribution -2.
    let child_c = GameTree {
        eval: 0,
        status: NodeStatus::Ongoing,
        children: vec![leaf(4), leaf(9)],
    };
    // child_c depth-1 value: max(-4, -9) = -4; root contribution 4.
    let root = GameTree {
        eval: 0,
        status: NodeStatus::Ongoing,
        children: vec![child_a, child_b, child_c],
    };
    let (best, score) = alphabeta(&root, 2, 0, -SCORE_INF, SCORE_INF);
    assert_eq!(score, 4);
    assert_eq!(best, Some(2));
    // Depth 1 reads the children's own evaluations instead.
    let (best1, score1) = alphabeta(&root, 1, 0, -SCORE_INF, SCORE_INF);
    assert_eq!(score1, 0);
    assert_eq!(best1, Some(0));
}

#[test]
fn alphabeta_scores_resolved_nodes_by_mate_distance() {
    let lost = GameTree {
        eval: 7,
        status: NodeStatus::MoverLoses,
        children: Vec::new(),
    };
    let (_, score) = alphabeta(&lost, 1, 0, -SCORE_INF, SCORE_INF);
    assert_eq!(score, -100_000);
    let won = GameTree {
        eval: -7,
        status: NodeStatus::MoverWins,
        children: Vec::new(),
    };
    let (_, at_root) = alphabeta(&won, 1, 0, -SCORE_INF, SCORE_INF);
    let (_, deeper) = alphabeta(&won, 1, 2, -SCORE_INF, SCORE_INF);
    assert_eq!(at_root, 100_000);
    assert_eq!(deeper, 99_998);
    let drawn = GameTree {
        eval: 7,
        status: NodeStatus::Drawn,
        children: Vec::new(),
    };
    let (_, draw_score) = alphabeta(&drawn, 1, 0, -SCORE_INF, SCORE_INF);
    assert_eq!(draw_score, 0);
}
