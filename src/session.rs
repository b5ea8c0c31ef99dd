use vstd::prelude::*;

use crate::board::{Board, BoardView, GameError, GameOutcome};
use crate::player::Player;

verus! {

/// An authenticated identity that may be bound to a player: the owner's
/// 256-bit hash as four 64-bit words.
#[derive(Debug, Clone, Copy, PartialEq, Eq, Structural)]
pub struct Owner(pub u64, pub u64, pub u64, pub u64);

/// The application interface: moves go in, outcomes come out.
pub struct TicTacToeAbi;

/// The only operation: mark the cell at column `x`, row `y`.
#[derive(Debug, Clone, Copy, PartialEq, Eq, Structural)]
pub enum Operation {
    MarkBoard { x: u16, y: u16 },
}

/// The identities playing `One` (slot 0) and `Two` (slot 1).
#[derive(Debug, Clone, Copy)]
pub struct InstantiationArgument {
    pub players: [Owner; 2],
}

/// Whether `caller` may move for `active`: the players are registered and
/// the caller is the identity in the active player's slot.
pub open spec fn is_authorized(
    players: Option<[Owner; 2]>,
    active: Player,
    caller: Option<Owner>,
) -> bool {
    &&& players is Some
    &&& caller == Some(players->0@[active.spec_index() as int])
}

/// Accepts the caller iff it is the identity registered for the active
/// player; a session without registered players accepts nobody.
pub fn authorize(players: &Option<[Owner; 2]>, active: Player, caller: &Option<Owner>) -> (r:
    Result<(), GameError>)
    ensures
        r is Ok <==> is_authorized(*players, active, *caller),
        r is Err ==> r == Err::<(), GameError>(GameError::NotYourTurn),
{
    match players {
        Some(owners) => {
            let expected = owners[active.index()];
            match caller {
                Some(c) => {
                    if *c == expected {
                        Ok(())
                    } else {
                        Err(GameError::NotYourTurn)
                    }
                },
                None => Err(GameError::NotYourTurn),
            }
        },
        None => Err(GameError::NotYourTurn),
    }
}

/// The persisted aggregate: the registered players, absent before
/// instantiation, and the board.
#[derive(Debug, Clone)]
pub struct GameState {
    /// The owners controlling players `One` and `Two`.
    pub game_players: Option<[Owner; 2]>,
    /// The current game state.
    pub tic_tac_toe_board: Board,
}

/// A game state as plain values, the unit that storage reads and writes.
#[derive(Debug, Clone)]
pub struct GameSnapshot {
    pub game_players: Option<[Owner; 2]>,
    pub size: u16,
    /// The marks in row-major order.
    pub cells: Vec<Option<Player>>,
    pub active_player: Player,
}

impl GameSnapshot {
    /// The players and the board that this snapshot records.
    pub open spec fn contents(self) -> (Option<[Owner; 2]>, BoardView) {
        (
            self.game_players,
            BoardView { size: self.size as nat, cells: self.cells@, active_player: self.active_player },
        )
    }
}

/// What loading gives: a fresh game where nothing was stored yet, what the
/// snapshot records where that is a well-formed board, and nothing otherwise.
pub open spec fn loaded(snapshot: Option<GameSnapshot>) -> Option<(Option<[Owner; 2]>, BoardView)> {
    match snapshot {
        None => Some((None, BoardView::initial())),
        Some(s) => if s.contents().1.wf() {
            Some(s.contents())
        } else {
            None
        },
    }
}

/// The result of an operation submitted by `caller`: rejected unless the
/// caller plays the active player, then the board's verdict on the move.
pub open spec fn execute_result(
    players: Option<[Owner; 2]>,
    board: BoardView,
    caller: Option<Owner>,
    operation: Operation,
) -> Result<GameOutcome, GameError> {
    match operation {
        Operation::MarkBoard { x, y } => if is_authorized(players, board.active_player, caller) {
            board.mark_result(x as int, y as int)
        } else {
            Err(GameError::NotYourTurn)
        },
    }
}

/// The board after an operation submitted by `caller`.
pub open spec fn execute_board(
    players: Option<[Owner; 2]>,
    board: BoardView,
    caller: Option<Owner>,
    operation: Operation,
) -> BoardView {
    match operation {
        Operation::MarkBoard { x, y } => if is_authorized(players, board.active_player, caller) {
            board.after_mark(x as int, y as int)
        } else {
            board
        },
    }
}

impl GameState {
    pub open spec fn wf(&self) -> bool {
        self.tic_tac_toe_board.wf()
    }

    pub open spec fn contents(&self) -> (Option<[Owner; 2]>, BoardView) {
        (self.game_players, self.tic_tac_toe_board@)
    }

    /// Reads a state back from storage: a fresh game when nothing was
    /// stored, `None` when the snapshot does not hold a 3x3 board.
    pub fn load(snapshot: Option<GameSnapshot>) -> (r: Option<GameState>)
        ensures
            r is Some <==> loaded(snapshot) is Some,
            r is Some ==> r->0.wf() && r->0.contents() == loaded(snapshot)->0,
    {
        match snapshot {
            None => Some(GameState::default()),
            Some(s) => match Board::from_parts(s.size, &s.cells, s.active_player) {
                Some(board) => Some(GameState { game_players: s.game_players, tic_tac_toe_board: board }),
                None => None,
            },
        }
    }

    /// The snapshot that storage writes: the players and the whole board.
    pub fn store(&self) -> (r: GameSnapshot)
        ensures
            r.contents() == self.contents(),
    {
        GameSnapshot {
            game_players: self.game_players,
            size: self.tic_tac_toe_board.size(),
            cells: self.tic_tac_toe_board.marks(),
            active_player: self.tic_tac_toe_board.get_active_player(),
        }
    }
}

impl Default for GameState {
    fn default() -> (r: Self)
        ensures
            r.wf(),
            r.game_players is None,
            r.tic_tac_toe_board@ == BoardView::initial(),
    {
        GameState { game_players: None, tic_tac_toe_board: Board::new() }
    }
}

/// Executes operations on one game session.
pub struct TicTacToeContract {
    pub state: GameState,
}

impl TicTacToeContract {
    /// Starts a session from what storage holds.
    pub fn load(snapshot: Option<GameSnapshot>) -> (r: Option<Self>)
        ensures
            r is Some <==> loaded(snapshot) is Some,
            r is Some ==> r->0.state.wf() && r->0.state.contents() == loaded(snapshot)->0,
    {
        match GameState::load(snapshot) {
            Some(state) => Some(TicTacToeContract { state }),
            None => None,
        }
    }

    /// Registers the two players and starts a fresh board.
    pub fn instantiate(&mut self, arg: InstantiationArgument)
        ensures
            final(self).state.wf(),
            final(self).state.game_players == Some(arg.players),
            final(self).state.tic_tac_toe_board@ == BoardView::initial(),
    {
        self.state.tic_tac_toe_board = Board::new();
        self.state.game_players = Some(arg.players);
    }

    /// Runs a move submitted by `signer`: rejected with `NotYourTurn` unless
    /// the signer is registered for the active player, then applied to the
    /// board. A rejected operation changes nothing.
    pub fn execute_operation(&mut self, signer: Option<Owner>, operation: Operation) -> (r: Result<
        GameOutcome,
        GameError,
    >)
        ensures
            final(self).state.wf(),
            final(self).state.game_players == old(self).state.game_players,
            r == execute_result(
                old(self).state.game_players,
                old(self).state.tic_tac_toe_board@,
                signer,
                operation,
            ),
            final(self).state.tic_tac_toe_board@ == execute_board(
                old(self).state.game_players,
                old(self).state.tic_tac_toe_board@,
                signer,
                operation,
            ),
    {
        proof {
            use_type_invariant(&self.state.tic_tac_toe_board);
        }
        let active = self.state.tic_tac_toe_board.get_active_player();
        let (x, y) = match operation {
            Operation::MarkBoard { x, y } => (x, y),
        };
        match authorize(&self.state.game_players, active, &signer) {
            Ok(()) => self.state.tic_tac_toe_board.mark_board(x, y),
            Err(e) => Err(e),
        }
    }

    /// Messages from other sessions are not supported: always rejected.
    pub fn execute_message(&mut self) -> (r: Result<(), GameError>)
        ensures
            r == Err::<(), GameError>(GameError::UnsupportedMessage),
            *final(self) == *old(self),
    {
        Err(GameError::UnsupportedMessage)
    }

    /// Ends the session, giving back what storage is to write.
    pub fn store(self) -> (r: GameSnapshot)
        ensures
            r.contents() == self.state.contents(),
    {
        self.state.store()
    }
}

/// Read-only queries on a stored game.
pub struct TicTacToeService {
    pub state: GameState,
}

impl TicTacToeService {
    /// Opens the stored game for queries.
    pub fn new(snapshot: Option<GameSnapshot>) -> (r: Option<Self>)
        ensures
            r is Some <==> loaded(snapshot) is Some,
            r is Some ==> r->0.state.wf() && r->0.state.contents() == loaded(snapshot)->0,
    {
        match GameState::load(snapshot) {
            Some(state) => Some(TicTacToeService { state }),
            None => None,
        }
    }

    /// The winner of the game, if any.
    pub fn winner(&self) -> (r: Option<Player>)
        ensures
            r == self.state.tic_tac_toe_board@.winner(),
    {
        self.state.tic_tac_toe_board.get_winner()
    }

    /// The registered players; `None` before instantiation.
    pub fn game_players(&self) -> (r: Option<[Owner; 2]>)
        ensures
            r == self.state.game_players,
    {
        self.state.game_players
    }

    /// The whole board.
    pub fn tic_tac_toe_board(&self) -> (r: &Board)
        ensures
            r == &self.state.tic_tac_toe_board,
    {
        &self.state.tic_tac_toe_board
    }
}

} // verus!
