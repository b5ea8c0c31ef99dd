use vstd::prelude::*;

use crate::board::{line_x, line_y, BoardView, GameError, GameOutcome, LINE_COUNT};
use crate::player::Player;
use crate::session::{
    execute_board, execute_result, is_authorized, loaded, GameSnapshot, GameState, Operation, Owner,
};

verus! {

/// The board after playing `moves` in order from `b`, each as `mark_board`
/// would: a rejected move leaves the board as it was.
pub open spec fn play(b: BoardView, moves: Seq<(int, int)>) -> BoardView
    decreases moves.len(),
{
    if moves.len() == 0 {
        b
    } else {
        play(b.after_mark(moves[0].0, moves[0].1), moves.drop_first())
    }
}

/// What `mark_board` returns for each of `moves` played in order from `b`.
pub open spec fn outcomes(b: BoardView, moves: Seq<(int, int)>) -> Seq<
    Result<GameOutcome, GameError>,
>
    decreases moves.len(),
{
    if moves.len() == 0 {
        Seq::empty()
    } else {
        seq![b.mark_result(moves[0].0, moves[0].1)] + outcomes(
            b.after_mark(moves[0].0, moves[0].1),
            moves.drop_first(),
        )
    }
}

/// Every one of `moves`, played in order from `b`, is accepted.
pub open spec fn all_accepted(b: BoardView, moves: Seq<(int, int)>) -> bool
    decreases moves.len(),
{
    moves.len() == 0 || (b.mark_result(moves[0].0, moves[0].1) is Ok && all_accepted(
        b.after_mark(moves[0].0, moves[0].1),
        moves.drop_first(),
    ))
}

/// No line is owned from `line` on, so no winner is found from there.
proof fn lemma_no_line_no_winner(b: BoardView, line: int)
    requires
        0 <= line <= LINE_COUNT,
        forall|l: int| line <= l < LINE_COUNT ==> (#[trigger] b.line_owner(l)) is None,
    ensures
        b.winner_from(line) is None,
    decreases LINE_COUNT - line,
{
    if line < LINE_COUNT {
        lemma_no_line_no_winner(b, line + 1);
    }
}

/// A winner found from `line` on owns one of the lines it scanned.
proof fn lemma_winner_from_owns(b: BoardView, line: int)
    requires
        0 <= line,
        b.winner_from(line) is Some,
    ensures
        exists|l: int|
            line <= l < LINE_COUNT && #[trigger] b.line_owner(l) == b.winner_from(line),
    decreases LINE_COUNT - line,
{
    if b.line_owner(line) is None {
        lemma_winner_from_owns(b, line + 1);
    }
}

/// The winner is the owner of a winning line; without a winner, no line is
/// owned.
pub proof fn lemma_winner_owns_line(b: BoardView)
    ensures
        b.winner() is Some ==> exists|l: int|
            0 <= l < LINE_COUNT && #[trigger] b.line_owner(l) == b.winner(),
        b.winner() is None ==> forall|l: int| 0 <= l < LINE_COUNT ==> (#[trigger] b.line_owner(l)) is None,
{
    if b.winner() is Some {
        lemma_winner_from_owns(b, 0);
    } else {
        assert forall|l: int| 0 <= l < LINE_COUNT implies (#[trigger] b.line_owner(l)) is None by {
            lemma_none_from(b, 0, l);
        }
    }
}

/// Without a winner from `line` on, no line from there is owned.
proof fn lemma_none_from(b: BoardView, line: int, l: int)
    requires
        0 <= line <= l < LINE_COUNT,
        b.winner_from(line) is None,
    ensures
        b.line_owner(l) is None,
    decreases l - line,
{
    if line < l {
        lemma_none_from(b, line + 1, l);
    }
}

/// A fresh board is well formed, has 9 empty cells, lets player `One` move
/// first and has no winner.
pub proof fn lemma_initial_board()
    ensures
        BoardView::initial().wf(),
        BoardView::initial().cells.len() == 9,
        forall|i: int| 0 <= i < 9 ==> (#[trigger] BoardView::initial().cells[i]) is None,
        BoardView::initial().active_player == Player::One,
        BoardView::initial().winner() is None,
{
    let b = BoardView::initial();
    assert forall|l: int| 0 <= l < LINE_COUNT implies (#[trigger] b.line_owner(l)) is None by {
        assert(b.mark_at(line_x(l, 0), line_y(l, 0)) is None);
    }
    lemma_no_line_no_winner(b, 0);
}

/// Turns alternate: after a run of accepted moves, the player to move is
/// the one who started when the run has even length, the other one when
/// it has odd length.
pub proof fn lemma_turns_alternate(b: BoardView, moves: Seq<(int, int)>)
    requires
        b.wf(),
        all_accepted(b, moves),
    ensures
        play(b, moves).active_player == if moves.len() % 2 == 0 {
            b.active_player
        } else {
            b.active_player.spec_opponent()
        },
    decreases moves.len(),
{
    if moves.len() > 0 {
        let next = b.after_mark(moves[0].0, moves[0].1);
        lemma_turns_alternate(next, moves.drop_first());
    }
}

/// From a fresh board, accepted moves are made by `One`, `Two`, `One`, ...:
/// after an even number of them `One` is to move, after an odd number `Two`.
pub proof fn lemma_turns_alternate_from_start(moves: Seq<(int, int)>)
    requires
        all_accepted(BoardView::initial(), moves),
    ensures
        play(BoardView::initial(), moves).active_player == if moves.len() % 2 == 0 {
            Player::One
        } else {
            Player::Two
        },
{
    lemma_initial_board();
    lemma_turns_alternate(BoardView::initial(), moves);
}

/// Replaying the same moves on a fresh board gives the same board and the
/// same sequence of results.
pub proof fn lemma_replay_deterministic(first: Seq<(int, int)>, second: Seq<(int, int)>)
    requires
        first == second,
    ensures
        play(BoardView::initial(), first) == play(BoardView::initial(), second),
        outcomes(BoardView::initial(), first) == outcomes(BoardView::initial(), second),
{
}

/// Once the game has a winner, every later move is rejected with
/// `GameEnded` and the board stays as it is.
pub proof fn lemma_finished_game_rejects(b: BoardView, moves: Seq<(int, int)>)
    requires
        b.wf(),
        b.winner() is Some,
    ensures
        play(b, moves) == b,
        outcomes(b, moves).len() == moves.len(),
        forall|i: int|
            0 <= i < moves.len() ==> #[trigger] outcomes(b, moves)[i] == Err::<
                GameOutcome,
                GameError,
            >(GameError::GameEnded),
    decreases moves.len(),
{
    if moves.len() > 0 {
        lemma_finished_game_rejects(b, moves.drop_first());
        let rest = outcomes(b, moves.drop_first());
        assert forall|i: int| 0 <= i < moves.len() implies #[trigger] outcomes(b, moves)[i] == Err::<
            GameOutcome,
            GameError,
        >(GameError::GameEnded) by {
            if i > 0 {
                assert(outcomes(b, moves)[i] == rest[i - 1]);
            }
        }
    }
}

/// On a game in progress, a move off the board is rejected with
/// `OutOfBounds` and a move on a marked cell with `CellOccupied`; neither
/// changes the board.
pub proof fn lemma_illegal_moves_rejected(b: BoardView, x: int, y: int)
    requires
        b.wf(),
        b.winner() is None,
    ensures
        !b.in_bounds(x, y) ==> b.mark_result(x, y) == Err::<GameOutcome, GameError>(
            GameError::OutOfBounds,
        ) && b.after_mark(x, y) == b,
        b.in_bounds(x, y) && b.mark_at(x, y) is Some ==> b.mark_result(x, y) == Err::<
            GameOutcome,
            GameError,
        >(GameError::CellOccupied) && b.after_mark(x, y) == b,
{
}

/// A mark, once placed, is never cleared or overwritten by later moves.
pub proof fn lemma_marks_are_permanent(b: BoardView, moves: Seq<(int, int)>, i: int)
    requires
        b.wf(),
        0 <= i < b.cells.len(),
        b.cells[i] is Some,
    ensures
        play(b, moves).cells[i] == b.cells[i],
        play(b, moves).wf(),
    decreases moves.len(),
{
    if moves.len() > 0 {
        let next = b.after_mark(moves[0].0, moves[0].1);
        assert(next.cells[i] == b.cells[i]);
        lemma_marks_are_permanent(next, moves.drop_first(), i);
    }
}

/// An operation from a caller that is not the identity registered for the
/// active player is rejected with `NotYourTurn` and leaves the board as it
/// is.
pub proof fn lemma_unauthorized_rejected(
    players: Option<[Owner; 2]>,
    b: BoardView,
    caller: Option<Owner>,
    operation: Operation,
)
    requires
        !is_authorized(players, b.active_player, caller),
    ensures
        execute_result(players, b, caller, operation) == Err::<GameOutcome, GameError>(
            GameError::NotYourTurn,
        ),
        execute_board(players, b, caller, operation) == b,
{
}

/// Storing a state and loading the snapshot gives back the same players
/// and the same board.
pub proof fn lemma_store_load_round_trip(state: GameState, snapshot: GameSnapshot)
    requires
        state.wf(),
        snapshot.contents() == state.contents(),
    ensures
        loaded(Some(snapshot)) == Some(state.contents()),
{
}

} // verus!
