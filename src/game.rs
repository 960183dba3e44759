use vstd::prelude::*;
use crate::board::{Board, Cell, MoveError, in_range};
use crate::input::{parse_coordinate, trimmed, unsigned_value};

verus! {

/// Where a game stands, as derived from its board.
#[derive(Clone, Copy, PartialEq, Eq, Structural, Debug)]
pub enum Outcome {
    InProgress,
    Win(Cell),
    Draw,
}

/// The outcome of `b`: a win for the first complete line in scan order, else
/// a draw when no square is empty, else a game still in progress.
pub open spec fn outcome_of(b: Board) -> Outcome {
    match b.winner() {
        Some(m) => Outcome::Win(m),
        None => if b.full() {
            Outcome::Draw
        } else {
            Outcome::InProgress
        },
    }
}

/// The mark that plays after `p`.
pub open spec fn opponent(p: Cell) -> Cell {
    match p {
        Cell::X => Cell::O,
        Cell::O => Cell::X,
        Cell::Empty => Cell::Empty,
    }
}

/// The mark that plays after `p`.
pub fn other_player(p: Cell) -> (r: Cell)
    ensures
        r == opponent(p),
{
    match p {
        Cell::X => Cell::O,
        Cell::O => Cell::X,
        Cell::Empty => Cell::Empty,
    }
}

/// The outcome of the board, recomputed from its squares.
pub fn outcome(b: &Board) -> (r: Outcome)
    ensures
        r == outcome_of(*b),
{
    match b.check_winner() {
        Some(m) => Outcome::Win(m),
        None => if b.is_full() {
            Outcome::Draw
        } else {
            Outcome::InProgress
        },
    }
}

/// What the turn protocol waits for next.
#[derive(Clone, Copy, PartialEq, Eq, Structural, Debug)]
pub enum Phase {
    /// The row of the active player's move.
    Row,
    /// The column of a move whose row was read.
    Column(usize),
    /// Nothing: the game reached a win or a draw.
    Over,
}

/// What the driver of the game does after a line of input was handled.
#[derive(Clone, Copy, PartialEq, Eq, Structural, Debug)]
pub enum Step {
    /// The row was read: ask for the column.
    AskColumn,
    /// The line held no number: report it and ask for the row again.
    Malformed,
    /// The board refused the move: report why and ask for the row again.
    Refused(MoveError),
    /// The move was played and the game goes on: show the board and ask the
    /// other player for a row.
    NextTurn,
    /// The move completed a line of this mark: announce it and stop.
    Won(Cell),
    /// The move filled the board without a line: announce a draw and stop.
    Drawn,
    /// The game was already over: nothing changed.
    Ended,
}

/// A game in progress: the board, the player whose turn it is, and what the
/// turn protocol waits for.
pub struct Game {
    pub board: Board,
    pub player: Cell,
    pub phase: Phase,
}

impl Game {
    /// A fresh game: an empty board, X to play, waiting for a row.
    pub fn new() -> (g: Game)
        ensures
            g.board.blank(),
            g.player == Cell::X,
            g.phase == Phase::Row,
    {
        Game { board: Board::new(), player: Cell::X, phase: Phase::Row }
    }

    /// The same game waiting for `phase`.
    pub open spec fn with_phase(self, phase: Phase) -> Game {
        Game { board: self.board, player: self.player, phase }
    }

    /// Handling `value` (a coordinate, or `None` for a line that held no
    /// number) turns `self` into `after` and gives `r`.
    pub open spec fn steps_to(self, value: Option<usize>, after: Game, r: Step) -> bool {
        match self.phase {
            Phase::Over => r == Step::Ended && after == self,
            Phase::Row => match value {
                None => r == Step::Malformed && after == self,
                Some(row) => r == Step::AskColumn && after == self.with_phase(Phase::Column(row)),
            },
            Phase::Column(row) => match value {
                None => r == Step::Malformed && after == self.with_phase(Phase::Row),
                Some(col) => if !in_range(row as int, col as int) {
                    r == Step::Refused(MoveError::OutOfRange) && after == self.with_phase(Phase::Row)
                } else if self.board.at(row as int, col as int) != Cell::Empty {
                    r == Step::Refused(MoveError::CellOccupied) && after == self.with_phase(
                        Phase::Row,
                    )
                } else {
                    &&& after.board.placed(self.board, row as int, col as int, self.player)
                    &&& match outcome_of(after.board) {
                        Outcome::Win(m) => r == Step::Won(m) && after.player == self.player
                            && after.phase == Phase::Over,
                        Outcome::Draw => r == Step::Drawn && after.player == self.player
                            && after.phase == Phase::Over,
                        Outcome::InProgress => r == Step::NextTurn && after.player == opponent(
                            self.player,
                        ) && after.phase == Phase::Row,
                    }
                },
            },
        }
    }

    /// Handles one coordinate read from the active player, or `None` for a
    /// line that held no number.
    pub fn on_input(&mut self, value: Option<usize>) -> (r: Step)
        requires
            old(self).player != Cell::Empty,
        ensures
            final(self).player != Cell::Empty,
            old(self).steps_to(value, *final(self), r),
    {
        match self.phase {
            Phase::Over => Step::Ended,
            Phase::Row => match value {
                None => Step::Malformed,
                Some(row) => {
                    self.phase = Phase::Column(row);
                    Step::AskColumn
                },
            },
            Phase::Column(row) => {
                self.phase = Phase::Row;
                match value {
                    None => Step::Malformed,
                    Some(col) => match self.board.make_move(row, col, self.player) {
                        Err(e) => Step::Refused(e),
                        Ok(()) => match outcome(&self.board) {
                            Outcome::Win(m) => {
                                self.phase = Phase::Over;
                                Step::Won(m)
                            },
                            Outcome::Draw => {
                                self.phase = Phase::Over;
                                Step::Drawn
                            },
                            Outcome::InProgress => {
                                self.player = other_player(self.player);
                                Step::NextTurn
                            },
                        },
                    },
                }
            },
        }
    }

    /// Handles one line of input from the active player: the coordinate it
    /// holds once surrounding whitespace is removed, if any.
    pub fn on_line(&mut self, line: &str) -> (r: Step)
        requires
            old(self).player != Cell::Empty,
        ensures
            final(self).player != Cell::Empty,
            old(self).steps_to(unsigned_value(trimmed(line@)), *final(self), r),
    {
        self.on_input(parse_coordinate(line))
    }
}

/// A line that holds no number never changes the board or the active
/// player, whatever the game waits for.
pub proof fn lemma_malformed_keeps_state(g: Game, after: Game, r: Step)
    requires
        g.steps_to(None, after, r),
    ensures
        after.board == g.board,
        after.player == g.player,
        g.phase != Phase::Over ==> r == Step::Malformed,
{
}

/// A refused move leaves the board and the active player as they were.
pub proof fn lemma_refused_keeps_state(g: Game, value: Option<usize>, after: Game, e: MoveError)
    requires
        g.steps_to(value, after, Step::Refused(e)),
    ensures
        after.board == g.board,
        after.player == g.player,
        after.phase == Phase::Row,
{
}

/// Once a game is over, no input changes it and each gets the answer that
/// it has ended.
pub proof fn lemma_over_is_final(g: Game, value: Option<usize>, after: Game, r: Step)
    requires
        g.phase == Phase::Over,
        g.steps_to(value, after, r),
    ensures
        after == g,
        r == Step::Ended,
{
}

/// A game ends exactly when a move completes a line or fills the board, and
/// announces a win exactly for the winner of the resulting board.
pub proof fn lemma_game_ends_on_outcome(g: Game, value: Option<usize>, after: Game, r: Step)
    requires
        g.phase != Phase::Over,
        g.steps_to(value, after, r),
    ensures
        after.phase == Phase::Over <==> (r is Won || r is Drawn),
        r is Won ==> after.board.winner() == Some(r->Won_0),
        r is Drawn ==> after.board.winner() is None && after.board.full(),
{
}

} // verus!
