//! Cells, factions and the rules that end a round.
//!
//! A board is nine cells in row-major order: index `3 * row + column`.

use vstd::prelude::*;

verus! {

/// What one square of the board holds.
#[derive(Debug, Copy, Clone, PartialEq, Eq, Structural)]
pub enum Cell {
    Cross,
    Ring,
    Empty,
}

/// One of the two sides of a round.
#[derive(Debug, Copy, Clone, PartialEq, Eq, Structural)]
pub enum Faction {
    Cross,
    Ring,
}

impl Cell {
    /// Whether no faction has marked this cell.
    pub fn is_empty(&self) -> (empty: bool)
        ensures
            empty == (*self == Cell::Empty),
    {
        matches!(self, Cell::Empty)
    }
}

impl Faction {
    /// The mark that this faction leaves on the board.
    pub open spec fn mark(self) -> Cell {
        match self {
            Faction::Cross => Cell::Cross,
            Faction::Ring => Cell::Ring,
        }
    }

    /// The other side.
    pub open spec fn other(self) -> Faction {
        match self {
            Faction::Cross => Faction::Ring,
            Faction::Ring => Faction::Cross,
        }
    }

    /// Whether this faction makes the first move of a round. Ring does.
    pub fn goes_first(&self) -> (first: bool)
        ensures
            first == (*self == Faction::Ring),
    {
        match self {
            Faction::Cross => false,
            Faction::Ring => true,
        }
    }

    /// The other side: cross for ring and ring for cross.
    pub fn opposite(&self) -> (other: Faction)
        ensures
            other == self.other(),
    {
        match self {
            Faction::Cross => Faction::Ring,
            Faction::Ring => Faction::Cross,
        }
    }

    /// Turns one fair coin flip into a faction: `true` is ring, `false` is cross.
    pub fn sample(coin: bool) -> (faction: Faction)
        ensures
            faction == if coin { Faction::Ring } else { Faction::Cross },
    {
        match coin {
            false => Faction::Cross,
            true => Faction::Ring,
        }
    }
}

impl vstd::std_specs::convert::FromSpecImpl<Faction> for Cell {
    open spec fn obeys_from_spec() -> bool {
        true
    }

    open spec fn from_spec(faction: Faction) -> Cell {
        faction.mark()
    }
}

impl From<Faction> for Cell {
    fn from(faction: Faction) -> (cell: Cell) {
        match faction {
            Faction::Cross => Cell::Cross,
            Faction::Ring => Cell::Ring,
        }
    }
}

/// Every cell of `board` is marked.
pub open spec fn is_full(board: Seq<Cell>) -> bool {
    forall|i: int| 0 <= i < board.len() ==> board[i] != Cell::Empty
}

/// The cells at `a`, `b` and `c` carry the same mark.
pub open spec fn line_taken(board: Seq<Cell>, a: int, b: int, c: int) -> bool {
    board[a] != Cell::Empty && board[a] == board[b] && board[a] == board[c]
}

/// Row `row` (0, 1 or 2) is taken by one faction.
pub open spec fn row_taken(board: Seq<Cell>, row: int) -> bool {
    line_taken(board, 3 * row, 3 * row + 1, 3 * row + 2)
}

/// Column `column` (0, 1 or 2) is taken by one faction.
pub open spec fn column_taken(board: Seq<Cell>, column: int) -> bool {
    line_taken(board, column, column + 3, column + 6)
}

/// One of the eight lines of the board is taken by one faction.
pub open spec fn has_line(board: Seq<Cell>) -> bool {
    ||| line_taken(board, 0, 1, 2)
    ||| line_taken(board, 3, 4, 5)
    ||| line_taken(board, 6, 7, 8)
    ||| line_taken(board, 0, 3, 6)
    ||| line_taken(board, 1, 4, 7)
    ||| line_taken(board, 2, 5, 8)
    ||| line_taken(board, 0, 4, 8)
    ||| line_taken(board, 2, 4, 6)
}

/// One of the rows or columns below index `n` is taken by one faction.
spec fn straight_taken_below(board: Seq<Cell>, n: int) -> bool {
    ||| n > 0 && (row_taken(board, 0) || column_taken(board, 0))
    ||| n > 1 && (row_taken(board, 1) || column_taken(board, 1))
    ||| n > 2 && (row_taken(board, 2) || column_taken(board, 2))
}

/// The round on `board` is over: no cell is left, or a line is taken.
pub open spec fn terminal(board: Seq<Cell>) -> bool {
    is_full(board) || has_line(board)
}

/// Whether all nine cells of `board` are marked.
pub fn board_is_full(board: &[Cell; 9]) -> (full: bool)
    ensures
        full == is_full(board@),
{
    let mut i: usize = 0;
    while i < 9
        invariant
            i <= 9,
            forall|j: int| 0 <= j < i ==> board@[j] != Cell::Empty,
        decreases 9 - i,
    {
        if board[i].is_empty() {
            return false;
        }
        i += 1;
    }
    true
}

/// Whether the round on `board` is over: the board is full, or one of the
/// three rows, three columns and two diagonals holds three equal marks.
pub fn is_terminal(board: &[Cell; 9]) -> (over: bool)
    ensures
        over == terminal(board@),
{
    if board_is_full(board) {
        return true;
    }
    let mut found = false;
    let mut i: usize = 0;
    while i < 3
        invariant
            i <= 3,
            found == straight_taken_below(board@, i as int),
        decreases 3 - i,
    {
        if (!board[3 * i].is_empty() && board[3 * i] == board[3 * i + 1] && board[3 * i]
            == board[3 * i + 2]) || (!board[i].is_empty() && board[i] == board[i + 3] && board[i]
            == board[i + 6]) {
            found = true;
        }
        i += 1;
    }
    if (!board[0].is_empty() && board[0] == board[4] && board[0] == board[8]) || (
    !board[2].is_empty() && board[2] == board[4] && board[2] == board[6]) {
        found = true;
    }
    found
}

} // verus!
