use vstd::prelude::*;

use crate::player::Player;

verus! {

/// The side length of the board.
pub const BOARD_SIZE: u16 = 3;

/// The number of cells: 3 columns of 3.
pub const CELL_COUNT: usize = 9;

/// The number of winning lines on a 3x3 board: 3 rows, 3 columns, 2 diagonals.
pub const LINE_COUNT: usize = 8;

/// What an accepted move leads to.
#[derive(Debug, Clone, Copy, PartialEq, Eq, Structural)]
pub enum GameOutcome {
    /// The move completed a line of this player.
    Winner(Player),
    /// No line is complete: the game goes on.
    Continue,
}

/// Why an operation was rejected. A rejected operation changes nothing.
#[derive(Debug, Clone, Copy, PartialEq, Eq, Structural)]
pub enum GameError {
    /// The game already has a winner.
    GameEnded,
    /// A coordinate lies outside the board.
    OutOfBounds,
    /// The target cell already carries a mark.
    CellOccupied,
    /// The caller is not the identity registered for the active player.
    NotYourTurn,
    /// Only the move operation is supported.
    UnsupportedMessage,
}

/// One grid position: unmarked, or marked once and for all by a player.
#[derive(Debug, Clone, Copy, PartialEq, Eq, Structural)]
pub struct Cell {
    mark: Option<Player>,
}

impl Cell {
    /// The player who marked this cell, if any.
    pub fn mark(&self) -> (r: Option<Player>)
        ensures
            r == self.spec_mark(),
    {
        self.mark
    }

    pub closed spec fn spec_mark(self) -> Option<Player> {
        self.mark
    }
}

impl Default for Cell {
    fn default() -> (r: Self)
        ensures
            r.spec_mark() is None,
    {
        Cell { mark: None }
    }
}

/// Column of the `k`-th cell of winning line `line`: lines 0 to 2 are the
/// columns x = 0, 1, 2, lines 3 to 5 the rows y = 0, 1, 2, then the two
/// diagonals.
pub open spec fn line_x(line: int, k: int) -> int {
    if line < 3 {
        line
    } else {
        k
    }
}

/// Row of the `k`-th cell of winning line `line`.
pub open spec fn line_y(line: int, k: int) -> int {
    if line < 3 {
        k
    } else if line < 6 {
        line - 3
    } else if line == 6 {
        k
    } else {
        2 - k
    }
}

/// The mathematical state of a board.
pub struct BoardView {
    pub size: nat,
    /// Marks in row-major order: cell (x, y) is at `x + y * size`.
    pub cells: Seq<Option<Player>>,
    pub active_player: Player,
}

impl BoardView {
    pub open spec fn wf(self) -> bool {
        self.size == BOARD_SIZE && self.cells.len() == CELL_COUNT
    }

    /// An empty 3x3 board on which player `One` moves next.
    pub open spec fn initial() -> BoardView {
        BoardView {
            size: BOARD_SIZE as nat,
            cells: Seq::new(9, |i: int| None),
            active_player: Player::One,
        }
    }

    pub open spec fn in_bounds(self, x: int, y: int) -> bool {
        0 <= x < self.size && 0 <= y < self.size
    }

    pub open spec fn index_of(self, x: int, y: int) -> int {
        x + y * self.size
    }

    pub open spec fn mark_at(self, x: int, y: int) -> Option<Player> {
        self.cells[self.index_of(x, y)]
    }

    /// The player owning every cell of winning line `line`, if one does.
    pub open spec fn line_owner(self, line: int) -> Option<Player> {
        let a = self.mark_at(line_x(line, 0), line_y(line, 0));
        let b = self.mark_at(line_x(line, 1), line_y(line, 1));
        let c = self.mark_at(line_x(line, 2), line_y(line, 2));
        if a is Some && b == a && c == a {
            a
        } else {
            None
        }
    }

    /// The owner of the first owned line among lines `line` .. 7.
    pub open spec fn winner_from(self, line: int) -> Option<Player>
        decreases LINE_COUNT - line,
    {
        if line >= LINE_COUNT {
            None
        } else if self.line_owner(line) is Some {
            self.line_owner(line)
        } else {
            self.winner_from(line + 1)
        }
    }

    /// The owner of the first owned line in scan order, if any line is owned.
    pub open spec fn winner(self) -> Option<Player> {
        self.winner_from(0)
    }

    /// The board after the active player marks (x, y) and the turn passes.
    pub open spec fn place(self, x: int, y: int) -> BoardView {
        BoardView {
            size: self.size,
            cells: self.cells.update(self.index_of(x, y), Some(self.active_player)),
            active_player: self.active_player.spec_opponent(),
        }
    }

    pub open spec fn outcome(self) -> GameOutcome {
        match self.winner() {
            Some(p) => GameOutcome::Winner(p),
            None => GameOutcome::Continue,
        }
    }

    /// The result of a move at (x, y): the first violated rule, checked in
    /// order, or the outcome of the board with the mark placed.
    pub open spec fn mark_result(self, x: int, y: int) -> Result<GameOutcome, GameError> {
        if self.winner() is Some {
            Err(GameError::GameEnded)
        } else if !self.in_bounds(x, y) {
            Err(GameError::OutOfBounds)
        } else if self.mark_at(x, y) is Some {
            Err(GameError::CellOccupied)
        } else {
            Ok(self.place(x, y).outcome())
        }
    }

    /// The board after a move at (x, y): unchanged when the move is rejected.
    pub open spec fn after_mark(self, x: int, y: int) -> BoardView {
        if self.mark_result(x, y) is Ok {
            self.place(x, y)
        } else {
            self
        }
    }
}

/// A 3x3 grid of cells and the player whose move is next.
#[derive(Debug)]
pub struct Board {
    cells: Vec<Cell>,
    size: u16,
    active_player: Player,
}

impl View for Board {
    type V = BoardView;

    closed spec fn view(&self) -> BoardView {
        BoardView {
            size: self.size as nat,
            cells: self.cells@.map_values(|c: Cell| c.mark),
            active_player: self.active_player,
        }
    }
}

impl Board {
    /// Well-formedness: 3 columns and 3 rows, 9 cells.
    pub open spec fn wf(&self) -> bool {
        self@.wf()
    }

    /// Every board is well formed.
    #[verifier::type_invariant]
    pub open spec fn inv(self) -> bool {
        self.wf()
    }

    /// Creates an empty 3x3 board on which player `One` moves first.
    pub fn new() -> (r: Self)
        ensures
            r.wf(),
            r@ == BoardView::initial(),
    {
        let size: u16 = BOARD_SIZE;
        let cell_count: usize = CELL_COUNT;
        let mut cells: Vec<Cell> = Vec::new();
        while cells.len() < cell_count
            invariant
                cell_count == 9,
                cells.len() <= cell_count,
                forall|i: int| 0 <= i < cells.len() ==> (#[trigger] cells@[i]).mark is None,
            decreases cell_count - cells.len(),
        {
            cells.push(Cell { mark: None });
        }
        let r = Board { size, cells, active_player: Player::One };
        assert(r@.cells =~= BoardView::initial().cells);
        r
    }

    /// The player whose move is next.
    pub fn get_active_player(&self) -> (r: Player)
        ensures
            r == self@.active_player,
    {
        self.active_player
    }

    /// The side length of the board.
    pub fn size(&self) -> (r: u16)
        ensures
            r == self@.size,
    {
        self.size
    }

    /// The mark at (x, y), if any.
    pub fn get_mark(&self, x: u16, y: u16) -> (r: Option<Player>)
        requires
            x < BOARD_SIZE,
            y < BOARD_SIZE,
        ensures
            r == self@.mark_at(x as int, y as int),
    {
        proof {
            use_type_invariant(&*self);
        }
        self.get_cell(x, y).mark
    }

    /// All marks in row-major order: (x, y) is at `x + y * size`.
    pub fn marks(&self) -> (r: Vec<Option<Player>>)
        ensures
            r@ == self@.cells,
    {
        let mut r: Vec<Option<Player>> = Vec::new();
        let mut i: usize = 0;
        while i < self.cells.len()
            invariant
                i <= self.cells.len(),
                r@ == self@.cells.subrange(0, i as int),
            decreases self.cells.len() - i,
        {
            r.push(self.cells[i].mark);
            i = i + 1;
            assert(r@ =~= self@.cells.subrange(0, i as int));
        }
        assert(r@ =~= self@.cells);
        r
    }

    /// Rebuilds a board from its side length, its marks in row-major order
    /// and the player to move; `None` unless the side is 3 and there are 9
    /// marks.
    pub fn from_parts(size: u16, marks: &Vec<Option<Player>>, active_player: Player) -> (r:
        Option<Board>)
        ensures
            r is Some <==> size == BOARD_SIZE && marks@.len() == CELL_COUNT,
            r is Some ==> r->0.wf() && r->0@ == (BoardView {
                size: size as nat,
                cells: marks@,
                active_player,
            }),
    {
        if size != BOARD_SIZE || marks.len() != CELL_COUNT {
            return None;
        }
        let mut cells: Vec<Cell> = Vec::new();
        let mut i: usize = 0;
        while i < marks.len()
            invariant
                i <= marks.len(),
                cells.len() == i,
                forall|j: int| 0 <= j < i ==> (#[trigger] cells@[j]).mark == marks@[j],
            decreases marks.len() - i,
        {
            cells.push(Cell { mark: marks[i] });
            i = i + 1;
        }
        let board = Board { cells, size, active_player };
        assert(board@.cells =~= marks@);
        Some(board)
    }

    /// Marks (x, y) for the active player and passes the turn.
    ///
    /// A move is rejected, with nothing changed, when the game already has a
    /// winner, when (x, y) lies outside the board, or when the cell is marked,
    /// checked in that order. An accepted move reports the winner, if the
    /// move completed a line.
    pub fn mark_board(&mut self, x: u16, y: u16) -> (r: Result<GameOutcome, GameError>)
        ensures
            final(self).wf(),
            r == old(self)@.mark_result(x as int, y as int),
            final(self)@ == old(self)@.after_mark(x as int, y as int),
    {
        proof {
            use_type_invariant(&*self);
        }
        if self.get_winner().is_some() {
            return Err(GameError::GameEnded);
        }
        if !(x < self.size && y < self.size) {
            return Err(GameError::OutOfBounds);
        }
        if self.get_cell(x, y).mark.is_some() {
            return Err(GameError::CellOccupied);
        }
        self.place_mark(x, y);
        match self.get_winner() {
            Some(winner) => Ok(GameOutcome::Winner(winner)),
            None => Ok(GameOutcome::Continue),
        }
    }

    fn place_mark(&mut self, x: u16, y: u16)
        requires
            x < BOARD_SIZE,
            y < BOARD_SIZE,
        ensures
            final(self).wf(),
            final(self)@ == old(self)@.place(x as int, y as int),
    {
        proof {
            use_type_invariant(&*self);
        }
        let player = self.active_player;
        let ghost before = self@;
        let index = self.cell_index(x, y);
        let mut cells: Vec<Cell> = Vec::new();
        let mut i: usize = 0;
        while i < self.cells.len()
            invariant
                i <= self.cells.len(),
                index < self.cells.len(),
                cells.len() == i,
                forall|j: int|
                    0 <= j < i ==> #[trigger] cells@[j] == (if j == index {
                        Cell { mark: Some(player) }
                    } else {
                        self.cells@[j]
                    }),
            decreases self.cells.len() - i,
        {
            if i == index {
                cells.push(Cell { mark: Some(player) });
            } else {
                cells.push(self.cells[i]);
            }
            i = i + 1;
        }
        *self = Board { cells, size: self.size, active_player: player.opponent() };
        assert(self@.cells =~= before.place(x as int, y as int).cells);
    }

    /// The winner of the game: the owner of the first line, among the three
    /// columns, the three rows and the two diagonals, whose cells all carry
    /// the same mark.
    pub fn get_winner(&self) -> (r: Option<Player>)
        ensures
            r == self@.winner(),
    {
        proof {
            use_type_invariant(&*self);
        }
        let mut line: usize = 0;
        while line < LINE_COUNT
            invariant
                self.wf(),
                line <= LINE_COUNT,
                self@.winner() == self@.winner_from(line as int),
            decreases LINE_COUNT - line,
        {
            let a = self.line_mark(line, 0);
            let b = self.line_mark(line, 1);
            let c = self.line_mark(line, 2);
            match a {
                Some(p) => {
                    if b == Some(p) && c == Some(p) {
                        return Some(p);
                    }
                },
                None => {},
            }
            line = line + 1;
        }
        None
    }

    /// The mark on the `k`-th cell of winning line `line`.
    fn line_mark(&self, line: usize, k: u16) -> (r: Option<Player>)
        requires
            line < LINE_COUNT,
            k < 3,
        ensures
            r == self@.mark_at(line_x(line as int, k as int), line_y(line as int, k as int)),
    {
        proof {
            use_type_invariant(&*self);
        }
        let (x, y): (u16, u16) = if line < 3 {
            (line as u16, k)
        } else if line < 6 {
            (k, (line - 3) as u16)
        } else if line == 6 {
            (k, k)
        } else {
            (k, 2 - k)
        };
        self.get_cell(x, y).mark
    }

    fn get_cell(&self, x: u16, y: u16) -> (r: &Cell)
        requires
            x < BOARD_SIZE,
            y < BOARD_SIZE,
        ensures
            r.mark == self@.mark_at(x as int, y as int),
    {
        proof {
            use_type_invariant(&*self);
        }
        &self.cells[self.cell_index(x, y)]
    }

    /// Position of (x, y) in the row-major cell vector.
    fn cell_index(&self, x: u16, y: u16) -> (r: usize)
        requires
            x < BOARD_SIZE,
            y < BOARD_SIZE,
        ensures
            r == self@.index_of(x as int, y as int),
            r < CELL_COUNT,
    {
        proof {
            use_type_invariant(&*self);
        }
        let size = self.size as usize;
        proof {
            assert(size == 3);
            assert((y as usize) * size <= 6) by (nonlinear_arith)
                requires
                    y < 3,
                    size == 3,
            ;
        }
        x as usize + (y as usize) * size
    }
}

impl Clone for Board {
    fn clone(&self) -> (r: Self)
        ensures
            r@ == self@,
    {
        proof {
            use_type_invariant(&*self);
        }
        let mut cells: Vec<Cell> = Vec::new();
        let mut i: usize = 0;
        while i < self.cells.len()
            invariant
                i <= self.cells.len(),
                cells@ == self.cells@.subrange(0, i as int),
            decreases self.cells.len() - i,
        {
            cells.push(self.cells[i]);
            i = i + 1;
            assert(cells@ =~= self.cells@.subrange(0, i as int));
        }
        assert(cells@ =~= self.cells@);
        Board { cells, size: self.size, active_player: self.active_player }
    }
}

impl Default for Board {
    fn default() -> (r: Self)
        ensures
            r.wf(),
            r@ == BoardView::initial(),
    {
        Board::new()
    }
}

} // verus!
