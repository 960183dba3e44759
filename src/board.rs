use vstd::prelude::*;

verus! {

/// The content of one square of the board; a player is one of the two marks.
#[derive(Clone, Copy, PartialEq, Eq, Structural, Debug)]
pub enum Cell {
    Empty,
    X,
    O,
}

/// Why a move was refused.
#[derive(Clone, Copy, PartialEq, Eq, Structural, Debug)]
pub enum MoveError {
    /// The row or the column is 3 or more.
    OutOfRange,
    /// The target square already holds a mark.
    CellOccupied,
}

impl MoveError {
    /// The text shown to a player whose move was refused.
    pub open spec fn text(self) -> Seq<char> {
        match self {
            MoveError::OutOfRange => "Invalid move: Row and column out of range."@,
            MoveError::CellOccupied => "Invalid move: Cell already occupied."@,
        }
    }

    pub fn message(&self) -> (r: String)
        ensures
            r@ == self.text(),
    {
        match self {
            MoveError::OutOfRange => String::from_str("Invalid move: Row and column out of range."),
            MoveError::CellOccupied => String::from_str("Invalid move: Cell already occupied."),
        }
    }
}

/// Whether (`row`, `col`) addresses a square of the board.
pub open spec fn in_range(row: int, col: int) -> bool {
    0 <= row < 3 && 0 <= col < 3
}

/// The three squares of line `k`, in scan order: the rows top to bottom
/// (0 to 2), the columns left to right (3 to 5), the main diagonal (6) and
/// the anti-diagonal (7).
pub open spec fn line_squares(k: int) -> ((int, int), (int, int), (int, int)) {
    if 0 <= k < 3 {
        ((k, 0), (k, 1), (k, 2))
    } else if 3 <= k < 6 {
        ((0, k - 3), (1, k - 3), (2, k - 3))
    } else if k == 6 {
        ((0, 0), (1, 1), (2, 2))
    } else {
        ((0, 2), (1, 1), (2, 0))
    }
}

/// The text of one square: its symbol padded with a space on each side.
pub open spec fn cell_text(c: Cell) -> Seq<char> {
    match c {
        Cell::Empty => "   "@,
        Cell::X => " X "@,
        Cell::O => " O "@,
    }
}

/// A 3x3 grid of cells, addressed by (row, column).
pub struct Board {
    pub cells: [[Cell; 3]; 3],
}

impl Board {
    /// The cell at (`r`, `c`).
    pub open spec fn at(self, r: int, c: int) -> Cell {
        self.cells@[r]@[c]
    }

    /// The mark on the first square of line `k`.
    pub open spec fn line_mark(self, k: int) -> Cell {
        let (a, _, _) = line_squares(k);
        self.at(a.0, a.1)
    }

    /// Line `k` holds three equal marks.
    pub open spec fn line_complete(self, k: int) -> bool {
        let (a, b, c) = line_squares(k);
        &&& self.at(a.0, a.1) != Cell::Empty
        &&& self.at(a.0, a.1) == self.at(b.0, b.1)
        &&& self.at(a.0, a.1) == self.at(c.0, c.1)
    }

    /// Some line of the board holds three equal marks.
    pub open spec fn has_line(self) -> bool {
        exists|k: int| 0 <= k < 8 && self.line_complete(k)
    }

    /// The mark of the first complete line in scan order, if any.
    pub open spec fn winner(self) -> Option<Cell> {
        if self.line_complete(0) {
            Some(self.line_mark(0))
        } else if self.line_complete(1) {
            Some(self.line_mark(1))
        } else if self.line_complete(2) {
            Some(self.line_mark(2))
        } else if self.line_complete(3) {
            Some(self.line_mark(3))
        } else if self.line_complete(4) {
            Some(self.line_mark(4))
        } else if self.line_complete(5) {
            Some(self.line_mark(5))
        } else if self.line_complete(6) {
            Some(self.line_mark(6))
        } else if self.line_complete(7) {
            Some(self.line_mark(7))
        } else {
            None
        }
    }

    /// No square of the board is empty.
    pub open spec fn full(self) -> bool {
        forall|r: int, c: int| in_range(r, c) ==> #[trigger] self.at(r, c) != Cell::Empty
    }

    /// Every square of the board is empty.
    pub open spec fn blank(self) -> bool {
        forall|r: int, c: int| in_range(r, c) ==> #[trigger] self.at(r, c) == Cell::Empty
    }

    /// `self` is `before` with `m` placed at (`row`, `col`) and every other
    /// square kept.
    pub open spec fn placed(self, before: Board, row: int, col: int, m: Cell) -> bool {
        forall|r: int, c: int|
            in_range(r, c) ==> #[trigger] self.at(r, c) == (if r == row && c == col {
                m
            } else {
                before.at(r, c)
            })
    }

    /// The rendered board: one line of text per row, top to bottom.
    pub open spec fn text(self) -> Seq<char> {
        self.row_text(0) + self.row_text(1) + self.row_text(2)
    }

    /// The rendered row `r`, ended by a line break.
    pub open spec fn row_text(self, r: int) -> Seq<char> {
        cell_text(self.at(r, 0)) + cell_text(self.at(r, 1)) + cell_text(self.at(r, 2)) + "\n"@
    }

    /// A board whose nine squares are all empty.
    pub fn new() -> (b: Board)
        ensures
            b.blank(),
    {
        Board { cells: [[Cell::Empty; 3]; 3] }
    }

    /// Places `player`'s mark at (`row`, `col`). A refused move leaves the
    /// board as it was.
    pub fn make_move(&mut self, row: usize, col: usize, player: Cell) -> (r: Result<(), MoveError>)
        requires
            player != Cell::Empty,
        ensures
            !in_range(row as int, col as int) ==> r == Err::<(), MoveError>(MoveError::OutOfRange),
            in_range(row as int, col as int) && old(self).at(row as int, col as int) != Cell::Empty
                ==> r == Err::<(), MoveError>(MoveError::CellOccupied),
            in_range(row as int, col as int) && old(self).at(row as int, col as int) == Cell::Empty
                ==> r is Ok,
            r is Ok ==> final(self).placed(*old(self), row as int, col as int, player),
            r is Err ==> *final(self) == *old(self),
    {
        if row >= 3 || col >= 3 {
            return Err(MoveError::OutOfRange);
        }
        if self.cells[row][col] != Cell::Empty {
            return Err(MoveError::CellOccupied);
        }
        self.cells[row][col] = player;
        Ok(())
    }

    /// The winning mark: that of the first complete line in scan order.
    pub fn check_winner(&self) -> (r: Option<Cell>)
        ensures
            r == self.winner(),
    {
        let mut i: usize = 0;
        while i < 3
            invariant
                0 <= i <= 3,
                forall|k: int| 0 <= k < i ==> !self.line_complete(k),
            decreases 3 - i,
        {
            if self.cells[i][0] != Cell::Empty && self.cells[i][0] == self.cells[i][1]
                && self.cells[i][0] == self.cells[i][2] {
                return Some(self.cells[i][0]);
            }
            i = i + 1;
        }
        let mut j: usize = 0;
        while j < 3
            invariant
                0 <= j <= 3,
                forall|k: int| 0 <= k < 3 + j ==> !self.line_complete(k),
            decreases 3 - j,
        {
            if self.cells[0][j] != Cell::Empty && self.cells[0][j] == self.cells[1][j]
                && self.cells[0][j] == self.cells[2][j] {
                return Some(self.cells[0][j]);
            }
            j = j + 1;
        }
        if self.cells[0][0] != Cell::Empty && self.cells[0][0] == self.cells[1][1]
            && self.cells[0][0] == self.cells[2][2] {
            return Some(self.cells[0][0]);
        }
        if self.cells[0][2] != Cell::Empty && self.cells[0][2] == self.cells[1][1]
            && self.cells[0][2] == self.cells[2][0] {
            return Some(self.cells[0][2]);
        }
        None
    }

    /// Whether no square is empty.
    pub fn is_full(&self) -> (r: bool)
        ensures
            r == self.full(),
    {
        let mut i: usize = 0;
        while i < 3
            invariant
                0 <= i <= 3,
                forall|r: int, c: int| 0 <= r < i && 0 <= c < 3 ==> self.at(r, c) != Cell::Empty,
            decreases 3 - i,
        {
            let mut j: usize = 0;
            while j < 3
                invariant
                    0 <= i < 3,
                    0 <= j <= 3,
                    forall|r: int, c: int| 0 <= r < i && 0 <= c < 3 ==> self.at(r, c) != Cell::Empty,
                    forall|c: int| 0 <= c < j ==> self.at(i as int, c) != Cell::Empty,
                decreases 3 - j,
            {
                if self.cells[i][j] == Cell::Empty {
                    assert(in_range(i as int, j as int) && self.at(i as int, j as int) == Cell::Empty);
                    return false;
                }
                j = j + 1;
            }
            i = i + 1;
        }
        true
    }

    /// The board as text: each square as its symbol (a blank for an empty
    /// one) padded with a space on each side, each row ended by a line break.
    pub fn render(&self) -> (r: String)
        ensures
            r@ == self.text(),
    {
        let mut out = String::new();
        let mut i: usize = 0;
        while i < 3
            invariant
                0 <= i <= 3,
                out@ == (if i == 0 {
                    Seq::<char>::empty()
                } else if i == 1 {
                    self.row_text(0)
                } else if i == 2 {
                    self.row_text(0) + self.row_text(1)
                } else {
                    self.text()
                }),
            decreases 3 - i,
        {
            let mut j: usize = 0;
            while j < 3
                invariant
                    0 <= i < 3,
                    0 <= j <= 3,
                    out@ == (if i == 0 {
                        Seq::<char>::empty()
                    } else if i == 1 {
                        self.row_text(0)
                    } else {
                        self.row_text(0) + self.row_text(1)
                    }) + self.row_prefix(i as int, j as int),
                decreases 3 - j,
            {
                out.append(symbol_text(self.cells[i][j]));
                j = j + 1;
            }
            out.append("\n");
            i = i + 1;
        }
        out
    }

    /// The text of the first `j` squares of row `r`.
    pub open spec fn row_prefix(self, r: int, j: int) -> Seq<char> {
        if j <= 0 {
            Seq::empty()
        } else if j == 1 {
            cell_text(self.at(r, 0))
        } else if j == 2 {
            cell_text(self.at(r, 0)) + cell_text(self.at(r, 1))
        } else {
            cell_text(self.at(r, 0)) + cell_text(self.at(r, 1)) + cell_text(self.at(r, 2))
        }
    }
}

/// The padded symbol of one square.
pub fn symbol_text(c: Cell) -> (r: &'static str)
    ensures
        r@ == cell_text(c),
{
    match c {
        Cell::Empty => "   ",
        Cell::X => " X ",
        Cell::O => " O ",
    }
}

/// The board has a winner exactly when some line holds three equal marks;
/// the winning mark is then a player's, and that of a complete line.
pub proof fn lemma_winner_iff_line(b: Board)
    ensures
        b.winner() is None <==> !b.has_line(),
        b.winner() is Some ==> b.winner()->0 != Cell::Empty && exists|k: int|
            0 <= k < 8 && b.line_complete(k) && b.line_mark(k) == b.winner()->0,
{
    if b.winner() is None {
        assert forall|k: int| 0 <= k < 8 implies !b.line_complete(k) by {
            assert(k == 0 || k == 1 || k == 2 || k == 3 || k == 4 || k == 5 || k == 6 || k == 7);
        }
    }
}

/// An empty board has no winner.
pub proof fn lemma_blank_has_no_winner(b: Board)
    requires
        b.blank(),
    ensures
        b.winner() is None,
{
    assert(b.at(0, 0) == Cell::Empty && b.at(1, 0) == Cell::Empty && b.at(2, 0) == Cell::Empty);
    assert(b.at(0, 1) == Cell::Empty && b.at(0, 2) == Cell::Empty);
}

/// A board with an empty square is not full.
pub proof fn lemma_empty_square_not_full(b: Board, r: int, c: int)
    requires
        in_range(r, c),
        b.at(r, c) == Cell::Empty,
    ensures
        !b.full(),
{
}

} // verus!
