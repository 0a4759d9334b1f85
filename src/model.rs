//! The mathematical model of a game: the board as nested sequences, and
//! what each operation does to it.
use vstd::prelude::*;

verus! {

/// What a cell of the board holds; also used for whose turn it is and who won.
#[derive(Copy, Clone, Debug, PartialEq, Eq, Structural)]
pub enum Status {
    X,
    O,
    Null,
}

/// A command that the player's input is turned into.
#[derive(Copy, Clone, Debug, PartialEq, Eq, Structural)]
pub enum Command {
    Up,
    Down,
    Left,
    Right,
    Place,
    Restart,
    Quit,
}

/// The player who moves after `p`; `Null` stays `Null`.
pub open spec fn other(p: Status) -> Status {
    match p {
        Status::X => Status::O,
        Status::O => Status::X,
        Status::Null => Status::Null,
    }
}

/// One step back on a ring of `n` positions.
pub open spec fn step_back(x: int, n: int) -> int {
    if x == 0 {
        n - 1
    } else {
        x - 1
    }
}

/// One step forward on a ring of `n` positions.
pub open spec fn step_forward(x: int, n: int) -> int {
    if x == n - 1 {
        0
    } else {
        x + 1
    }
}

pub open spec fn in_bounds(n: int, i: int, j: int) -> bool {
    0 <= i < n && 0 <= j < n
}

/// Five cells on the board that end at `(i, j)`, each `(di, dj)` past the one
/// before it, all holding the same player's mark.
pub open spec fn run_along(b: Seq<Seq<Status>>, n: int, i: int, j: int, di: int, dj: int) -> bool {
    let c = b[i][j];
    &&& in_bounds(n, i, j)
    &&& in_bounds(n, i - 4 * di, j - 4 * dj)
    &&& c != Status::Null
    &&& b[i - di][j - dj] == c
    &&& b[i - 2 * di][j - 2 * dj] == c
    &&& b[i - 3 * di][j - 3 * dj] == c
    &&& b[i - 4 * di][j - 4 * dj] == c
}

/// A run of five ends at `(i, j)`: down a column, along a row, down the
/// diagonal `\`, or up the diagonal `/` (from `(i + 4, j - 4)` to `(i, j)`).
pub open spec fn has_run(b: Seq<Seq<Status>>, n: int, i: int, j: int) -> bool {
    ||| run_along(b, n, i, j, 1, 0)
    ||| run_along(b, n, i, j, 0, 1)
    ||| run_along(b, n, i, j, 1, 1)
    ||| run_along(b, n, i, j, -1, 1)
}

/// The mark of the run of five anchored at `(i, j)`, or `Null` if there is none.
pub open spec fn run_label(b: Seq<Seq<Status>>, n: int, i: int, j: int) -> Status {
    if has_run(b, n, i, j) {
        b[i][j]
    } else {
        Status::Null
    }
}

/// The label of the first anchored run in row `i` from column `j` on, or `Null`.
pub open spec fn scan_row(b: Seq<Seq<Status>>, n: int, i: int, j: int) -> Status
    decreases n - j,
{
    if j < 0 || j >= n {
        Status::Null
    } else if has_run(b, n, i, j) {
        b[i][j]
    } else {
        scan_row(b, n, i, j + 1)
    }
}

/// The label of the first anchored run in rows `i` and below, row by row, or `Null`.
pub open spec fn scan_from(b: Seq<Seq<Status>>, n: int, i: int) -> Status
    decreases n - i,
{
    if i < 0 || i >= n {
        Status::Null
    } else if scan_row(b, n, i, 0) != Status::Null {
        scan_row(b, n, i, 0)
    } else {
        scan_from(b, n, i + 1)
    }
}

/// The label of the first run of five in row-major order of anchor cells, or `Null`.
pub open spec fn first_run(b: Seq<Seq<Status>>, n: int) -> Status {
    scan_from(b, n, 0)
}

/// An `n` by `n` board with every cell empty.
pub open spec fn empty_board(n: int) -> Seq<Seq<Status>> {
    Seq::new(n as nat, |i: int| Seq::new(n as nat, |j: int| Status::Null))
}

/// The abstract state of a game.
pub struct GameView {
    pub size: int,
    pub row: int,
    pub column: int,
    pub board: Seq<Seq<Status>>,
    pub now_player: Status,
    pub winner: Status,
}

/// A new game on an `n` by `n` board: empty board, cursor at the corner, `X` to move.
pub open spec fn fresh(n: int) -> GameView {
    GameView {
        size: n,
        row: 0,
        column: 0,
        board: empty_board(n),
        now_player: Status::X,
        winner: Status::Null,
    }
}

impl GameView {
    /// The board is square of side `size`, the cursor is on it, and someone is
    /// to move exactly while nobody has won.
    pub open spec fn wf(self) -> bool {
        &&& self.size > 0
        &&& self.board.len() == self.size
        &&& forall|i: int| 0 <= i < self.size ==> #[trigger] self.board[i].len() == self.size
        &&& in_bounds(self.size, self.row, self.column)
        &&& (self.winner == Status::Null) == (self.now_player != Status::Null)
    }

    pub open spec fn cell(self, i: int, j: int) -> Status {
        self.board[i][j]
    }

    pub open spec fn up(self) -> GameView {
        GameView { row: step_back(self.row, self.size), ..self }
    }

    pub open spec fn down(self) -> GameView {
        GameView { row: step_forward(self.row, self.size), ..self }
    }

    pub open spec fn left(self) -> GameView {
        GameView { column: step_back(self.column, self.size), ..self }
    }

    pub open spec fn right(self) -> GameView {
        GameView { column: step_forward(self.column, self.size), ..self }
    }

    /// The player to move marks the cell under the cursor and the turn passes,
    /// if the game goes on and that cell is empty; otherwise nothing changes.
    pub open spec fn placed(self) -> GameView {
        if self.now_player != Status::Null && self.cell(self.row, self.column) == Status::Null {
            GameView {
                board: self.board.update(
                    self.row,
                    self.board[self.row].update(self.column, self.now_player),
                ),
                now_player: other(self.now_player),
                ..self
            }
        } else {
            self
        }
    }

    /// If the board holds a run of five, the first one found decides the
    /// winner and nobody moves any more; otherwise nothing changes.
    pub open spec fn evaluated(self) -> GameView {
        let w = first_run(self.board, self.size);
        if w != Status::Null {
            GameView { winner: w, now_player: Status::Null, ..self }
        } else {
            self
        }
    }

    /// The state after a command; `Quit` leaves it as it is.
    pub open spec fn after(self, c: Command) -> GameView {
        match c {
            Command::Up => self.up(),
            Command::Down => self.down(),
            Command::Left => self.left(),
            Command::Right => self.right(),
            Command::Place => self.placed(),
            Command::Restart => fresh(self.size),
            Command::Quit => self,
        }
    }
}

} // verus!
