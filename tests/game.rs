use tic_tac_toe::{
    authorize, Board, Cell, GameError, GameOutcome, GameSnapshot, GameState, InstantiationArgument,
    Operation, Owner, Player, TicTacToeContract, TicTacToeService,
};

const ALICE: Owner = Owner(1, 2, 3, 4);
const BOB: Owner = Owner(5, 6, 7, 8);

fn all_marks(board: &Board) -> Vec<Option<Player>> {
    let mut marks = Vec::new();
    for y in 0..3u16 {
        for x in 0..3u16 {
            marks.push(board.get_mark(x, y));
        }
    }
    marks
}

fn started_contract() -> TicTacToeContract {
    let mut contract = TicTacToeContract::load(None).expect("fresh state");
    contract.instantiate(InstantiationArgument { players: [ALICE, BOB] });
    contract
}

#[test]
fn fresh_board_is_empty() {
    let board = Board::new();
    assert_eq!(board.size(), 3);
    assert_eq!(board.marks(), vec![None; 9]);
    assert_eq!(all_marks(&board), vec![None; 9]);
    assert_eq!(board.get_active_player(), Player::One);
    assert_eq!(board.get_winner(), None);
}

#[test]
fn player_opponent_and_index() {
    assert_eq!(Player::One.opponent(), Player::Two);
    assert_eq!(Player::Two.opponent(), Player::One);
    assert_eq!(Player::One.index(), 0);
    assert_eq!(Player::Two.index(), 1);
    assert_eq!(Player::default(), Player::One);
}

#[test]
fn turns_alternate() {
    let mut board = Board::new();
    let moves = [(1u16, 1u16), (0, 0), (2, 2), (0, 2), (2, 0)];
    let mut expected = Player::One;
    for (x, y) in moves {
        assert_eq!(board.get_active_player(), expected);
        assert!(board.mark_board(x, y).is_ok());
        assert_eq!(board.get_mark(x, y), Some(expected));
        expected = expected.opponent();
    }
    assert_eq!(board.get_active_player(), Player::Two);
}

#[test]
fn replay_is_deterministic() {
    let moves = [(0u16, 0u16), (1, 0), (0, 1), (4, 4), (1, 1), (1, 1), (0, 2), (2, 2)];
    let run = || {
        let mut board = Board::new();
        let results: Vec<Result<GameOutcome, GameError>> =
            moves.iter().map(|&(x, y)| board.mark_board(x, y)).collect();
        (results, board.marks(), board.get_active_player())
    };
    let first = run();
    let second = run();
    assert_eq!(first, second);
}

#[test]
fn finished_game_rejects_moves() {
    let mut board = Board::new();
    for (x, y) in [(0u16, 0u16), (1, 0), (0, 1), (1, 1)] {
        assert_eq!(board.mark_board(x, y), Ok(GameOutcome::Continue));
    }
    assert_eq!(board.mark_board(0, 2), Ok(GameOutcome::Winner(Player::One)));
    let before = board.marks();
    let active = board.get_active_player();
    for (x, y) in [(2u16, 2u16), (1, 2), (0, 0), (3, 0)] {
        assert_eq!(board.mark_board(x, y), Err(GameError::GameEnded));
        assert_eq!(board.marks(), before);
        assert_eq!(board.get_active_player(), active);
    }
    assert_eq!(board.get_winner(), Some(Player::One));
}

#[test]
fn out_of_bounds_and_occupied_are_rejected() {
    let mut board = Board::new();
    assert_eq!(board.mark_board(3, 0), Err(GameError::OutOfBounds));
    assert_eq!(board.mark_board(0, 3), Err(GameError::OutOfBounds));
    assert_eq!(board.marks(), vec![None; 9]);
    assert_eq!(board.get_active_player(), Player::One);
    assert_eq!(board.mark_board(1, 2), Ok(GameOutcome::Continue));
    let before = board.marks();
    assert_eq!(board.mark_board(1, 2), Err(GameError::CellOccupied));
    assert_eq!(board.marks(), before);
    assert_eq!(board.get_active_player(), Player::Two);
    assert_eq!(board.get_mark(1, 2), Some(Player::One));
}

#[test]
fn column_win_for_first_player() {
    let mut board = Board::new();
    let moves = [(0u16, 0u16), (1, 0), (0, 1), (1, 1), (0, 2)];
    let outcomes: Vec<GameOutcome> = moves
        .iter()
        .map(|&(x, y)| board.mark_board(x, y).expect("accepted"))
        .collect();
    assert_eq!(
        outcomes,
        vec![
            GameOutcome::Continue,
            GameOutcome::Continue,
            GameOutcome::Continue,
            GameOutcome::Continue,
            GameOutcome::Winner(Player::One),
        ]
    );
    assert_eq!(board.get_winner(), Some(Player::One));
}

#[test]
fn second_player_wins_on_a_diagonal() {
    let mut board = Board::new();
    for (x, y) in [(0u16, 0u16), (2, 0), (1, 0), (1, 1), (2, 2)] {
        assert_eq!(board.mark_board(x, y), Ok(GameOutcome::Continue));
    }
    assert_eq!(board.mark_board(0, 2), Ok(GameOutcome::Winner(Player::Two)));
}

#[test]
fn row_win_is_detected() {
    let mut board = Board::new();
    for (x, y) in [(0u16, 1u16), (0, 0), (1, 1), (1, 0)] {
        assert_eq!(board.mark_board(x, y), Ok(GameOutcome::Continue));
    }
    assert_eq!(board.mark_board(2, 1), Ok(GameOutcome::Winner(Player::One)));
}

#[test]
fn unauthorized_move_is_rejected() {
    let mut contract = started_contract();
    let op = Operation::MarkBoard { x: 0, y: 0 };
    assert_eq!(contract.execute_operation(Some(BOB), op), Err(GameError::NotYourTurn));
    assert_eq!(contract.execute_operation(None, op), Err(GameError::NotYourTurn));
    assert_eq!(contract.state.tic_tac_toe_board.marks(), vec![None; 9]);
    assert_eq!(contract.state.tic_tac_toe_board.get_active_player(), Player::One);
    assert_eq!(contract.execute_operation(Some(ALICE), op), Ok(GameOutcome::Continue));
    let op2 = Operation::MarkBoard { x: 1, y: 1 };
    assert_eq!(contract.execute_operation(Some(ALICE), op2), Err(GameError::NotYourTurn));
    assert_eq!(contract.state.tic_tac_toe_board.get_mark(1, 1), None);
    assert_eq!(contract.execute_operation(Some(BOB), op2), Ok(GameOutcome::Continue));
    assert_eq!(contract.state.tic_tac_toe_board.get_mark(1, 1), Some(Player::Two));
}

#[test]
fn moves_before_instantiation_are_rejected() {
    let mut contract = TicTacToeContract::load(None).expect("fresh state");
    let op = Operation::MarkBoard { x: 0, y: 0 };
    assert_eq!(contract.execute_operation(Some(ALICE), op), Err(GameError::NotYourTurn));
    assert_eq!(authorize(&None, Player::One, &Some(ALICE)), Err(GameError::NotYourTurn));
    assert_eq!(authorize(&Some([ALICE, BOB]), Player::Two, &Some(BOB)), Ok(()));
    assert_eq!(authorize(&Some([ALICE, BOB]), Player::Two, &Some(ALICE)), Err(GameError::NotYourTurn));
}

#[test]
fn full_board_without_line_has_no_winner() {
    let mut board = Board::new();
    let moves = [(0u16, 0u16), (1, 0), (2, 0), (1, 1), (0, 1), (2, 1), (1, 2), (0, 2), (2, 2)];
    for (x, y) in moves {
        assert_eq!(board.mark_board(x, y), Ok(GameOutcome::Continue));
    }
    assert!(board.marks().iter().all(|m| m.is_some()));
    assert_eq!(board.get_winner(), None);
    assert_eq!(board.mark_board(0, 0), Err(GameError::CellOccupied));
}

#[test]
fn store_then_load_round_trips() {
    let mut contract = started_contract();
    for (x, y, who) in [(0u16, 0u16, ALICE), (2, 1, BOB), (1, 1, ALICE)] {
        assert!(contract.execute_operation(Some(who), Operation::MarkBoard { x, y }).is_ok());
    }
    let marks = contract.state.tic_tac_toe_board.marks();
    let snapshot = contract.store();
    assert_eq!(snapshot.game_players, Some([ALICE, BOB]));
    assert_eq!(snapshot.size, 3);
    assert_eq!(snapshot.cells, marks);
    assert_eq!(snapshot.active_player, Player::Two);
    let reloaded = TicTacToeContract::load(Some(snapshot.clone())).expect("valid snapshot");
    assert_eq!(reloaded.state.game_players, Some([ALICE, BOB]));
    assert_eq!(reloaded.state.tic_tac_toe_board.marks(), marks);
    assert_eq!(reloaded.state.tic_tac_toe_board.get_active_player(), Player::Two);
    let again = reloaded.store();
    assert_eq!(again.cells, snapshot.cells);
    assert_eq!(again.game_players, snapshot.game_players);
}

#[test]
fn loading_nothing_gives_a_fresh_game() {
    let state = GameState::load(None).expect("fresh state");
    assert_eq!(state.game_players, None);
    assert_eq!(state.tic_tac_toe_board.marks(), vec![None; 9]);
    assert_eq!(state.tic_tac_toe_board.get_active_player(), Player::One);
}

#[test]
fn malformed_snapshot_is_refused() {
    let short = GameSnapshot {
        game_players: None,
        size: 3,
        cells: vec![None; 8],
        active_player: Player::One,
    };
    assert!(GameState::load(Some(short)).is_none());
    let wrong_size = GameSnapshot {
        game_players: None,
        size: 4,
        cells: vec![None; 9],
        active_player: Player::One,
    };
    assert!(GameState::load(Some(wrong_size)).is_none());
    assert!(Board::from_parts(3, &vec![Some(Player::Two); 9], Player::One).is_some());
}

#[test]
fn messages_are_unsupported() {
    let mut contract = started_contract();
    assert_eq!(contract.execute_message(), Err(GameError::UnsupportedMessage));
    assert_eq!(contract.state.tic_tac_toe_board.marks(), vec![None; 9]);
}

#[test]
fn service_answers_queries() {
    let mut contract = started_contract();
    for (x, y, who) in [(2u16, 0u16, ALICE), (0, 0, BOB), (2, 1, ALICE), (0, 1, BOB), (2, 2, ALICE)] {
        assert!(contract.execute_operation(Some(who), Operation::MarkBoard { x, y }).is_ok());
    }
    let service = TicTacToeService::new(Some(contract.store())).expect("valid snapshot");
    assert_eq!(service.winner(), Some(Player::One));
    assert_eq!(service.game_players(), Some([ALICE, BOB]));
    assert_eq!(service.tic_tac_toe_board().get_mark(2, 2), Some(Player::One));
    let empty = TicTacToeService::new(None).expect("fresh state");
    assert_eq!(empty.winner(), None);
    assert_eq!(empty.game_players(), None);
}

#[test]
fn cells_start_empty() {
    assert_eq!(Cell::default().mark(), None);
    let board = Board::default();
    assert_eq!(board.marks(), vec![None; 9]);
    let mut copy = board.clone();
    assert_eq!(copy.mark_board(2, 2), Ok(GameOutcome::Continue));
    assert_eq!(copy.get_mark(2, 2), Some(Player::One));
    assert_eq!(board.get_mark(2, 2), None);
}
