//! The game state and the operations on it.
use vstd::prelude::*;

use crate::model::{Command, GameView, Status, first_run, fresh, run_label, scan_from, scan_row};

verus! {

/// The side of the board of a game made by `App::new`.
pub const DEFAULT_SIZE: usize = 10;

/// A game in progress or ended: the board, the cursor, whose turn it is and
/// who won.
pub struct App {
    pub size: usize,
    pub row: usize,
    pub column: usize,
    pub matrix: Vec<Vec<Status>>,
    pub now_player: Status,
    pub winner: Status,
}

impl View for App {
    type V = GameView;

    open spec fn view(&self) -> GameView {
        GameView {
            size: self.size as int,
            row: self.row as int,
            column: self.column as int,
            board: self.matrix@.map_values(|r: Vec<Status>| r@),
            now_player: self.now_player,
            winner: self.winner,
        }
    }
}

impl App {
    pub open spec fn wf(&self) -> bool {
        self@.wf()
    }

    /// A new game on a board of `DEFAULT_SIZE` by `DEFAULT_SIZE` cells.
    pub fn new() -> (r: App)
        ensures
            r.wf(),
            r@ == fresh(DEFAULT_SIZE as int),
    {
        App::with_size(DEFAULT_SIZE)
    }

    /// A new game on a board of `size` by `size` cells.
    pub fn with_size(size: usize) -> (r: App)
        requires
            size > 0,
        ensures
            r.wf(),
            r@ == fresh(size as int),
    {
        let mut matrix: Vec<Vec<Status>> = Vec::new();
        let mut i: usize = 0;
        while i < size
            invariant
                i <= size,
                matrix.len() == i,
                forall|k: int| 0 <= k < i ==> #[trigger] matrix@[k]@ == Seq::new(
                    size as nat,
                    |j: int| Status::Null,
                ),
            decreases size - i,
        {
            let mut line: Vec<Status> = Vec::new();
            let mut j: usize = 0;
            while j < size
                invariant
                    j <= size,
                    line@ == Seq::new(j as nat, |k: int| Status::Null),
                decreases size - j,
            {
                line.push(Status::Null);
                j += 1;
                assert(line@ =~= Seq::new(j as nat, |k: int| Status::Null));
            }
            matrix.push(line);
            i += 1;
        }
        let r = App {
            size,
            row: 0,
            column: 0,
            matrix,
            now_player: Status::X,
            winner: Status::Null,
        };
        assert(r@.board =~~= fresh(size as int).board);
        r
    }

    /// What the cell at row `i`, column `j` holds.
    pub fn cell(&self, i: usize, j: usize) -> (r: Status)
        requires
            self.wf(),
            i < self.size,
            j < self.size,
        ensures
            r == self@.cell(i as int, j as int),
    {
        assert(self@.board[i as int] == self.matrix@[i as int]@);
        self.matrix[i][j]
    }
    /// The mark of a run of five whose last cell is `(i, j)`, looking up the
    /// column, left along the row, up-left along `\`, and down-left along `/`;
    /// `Null` if there is none.
    pub fn run_of_five_through(&self, i: usize, j: usize) -> (r: Status)
        requires
            self.wf(),
            i < self.size,
            j < self.size,
        ensures
            r == run_label(self@.board, self@.size, i as int, j as int),
    {
        let n = self.size;
        let c = self.cell(i, j);
        if c == Status::Null {
            return Status::Null;
        }
        if i >= 4 && self.cell(i - 1, j) == c && self.cell(i - 2, j) == c && self.cell(i - 3, j)
            == c && self.cell(i - 4, j) == c {
            return c;
        }
        if j >= 4 && self.cell(i, j - 1) == c && self.cell(i, j - 2) == c && self.cell(i, j - 3)
            == c && self.cell(i, j - 4) == c {
            return c;
        }
        if i >= 4 && j >= 4 && self.cell(i - 1, j - 1) == c && self.cell(i - 2, j - 2) == c
            && self.cell(i - 3, j - 3) == c && self.cell(i - 4, j - 4) == c {
            return c;
        }
        if n - i > 4 && j >= 4 && self.cell(i + 1, j - 1) == c && self.cell(i + 2, j - 2) == c
            && self.cell(i + 3, j - 3) == c && self.cell(i + 4, j - 4) == c {
            return c;
        }
        Status::Null
    }

    /// The mark of the first run of five, anchor cells taken in row-major
    /// order, or `Null` if the board holds none.
    pub fn first_winner(&self) -> (r: Status)
        requires
            self.wf(),
        ensures
            r == first_run(self@.board, self@.size),
    {
        let n = self.size;
        let ghost b = self@.board;
        let mut i: usize = 0;
        while i < n
            invariant
                self.wf(),
                n == self.size,
                b == self@.board,
                i <= n,
                scan_from(b, n as int, 0) == scan_from(b, n as int, i as int),
            decreases n - i,
        {
            let mut j: usize = 0;
            while j < n
                invariant
                    self.wf(),
                    n == self.size,
                    b == self@.board,
                    i < n,
                    j <= n,
                    scan_from(b, n as int, 0) == scan_from(b, n as int, i as int),
                    scan_row(b, n as int, i as int, 0) == scan_row(b, n as int, i as int, j as int),
                decreases n - j,
            {
                let w = self.run_of_five_through(i, j);
                if w != Status::Null {
                    return w;
                }
                j += 1;
            }
            i += 1;
        }
        Status::Null
    }

    /// Records the first run of five, if any, as the winner, after which
    /// nobody is to move.
    pub fn check(&mut self)
        requires
            old(self).wf(),
        ensures
            final(self).wf(),
            final(self)@ == old(self)@.evaluated(),
    {
        let w = self.first_winner();
        if w != Status::Null {
            self.winner = w;
            self.now_player = Status::Null;
        }
    }

    /// Moves the cursor one row up, from the top row to the bottom one.
    pub fn up(&mut self)
        requires
            old(self).wf(),
        ensures
            final(self).wf(),
            final(self)@ == old(self)@.up(),
    {
        if self.row == 0 {
            self.row = self.size - 1;
        } else {
            self.row = self.row - 1;
        }
    }

    /// Moves the cursor one row down, from the bottom row to the top one.
    pub fn down(&mut self)
        requires
            old(self).wf(),
        ensures
            final(self).wf(),
            final(self)@ == old(self)@.down(),
    {
        if self.row == self.size - 1 {
            self.row = 0;
        } else {
            self.row = self.row + 1;
        }
    }

    /// Moves the cursor one column left, from the first column to the last one.
    pub fn left(&mut self)
        requires
            old(self).wf(),
        ensures
            final(self).wf(),
            final(self)@ == old(self)@.left(),
    {
        if self.column == 0 {
            self.column = self.size - 1;
        } else {
            self.column = self.column - 1;
        }
    }

    /// Moves the cursor one column right, from the last column to the first one.
    pub fn right(&mut self)
        requires
            old(self).wf(),
        ensures
            final(self).wf(),
            final(self)@ == old(self)@.right(),
    {
        if self.column == self.size - 1 {
            self.column = 0;
        } else {
            self.column = self.column + 1;
        }
    }

    /// The player to move marks the cell under the cursor and the turn
    /// passes. Nothing happens on an occupied cell or once the game has ended.
    pub fn register(&mut self)
        requires
            old(self).wf(),
        ensures
            final(self).wf(),
            final(self)@ == old(self)@.placed(),
    {
        let p = self.now_player;
        if p == Status::Null || self.cell(self.row, self.column) != Status::Null {
            return;
        }
        let ghost before = self@;
        self.matrix[self.row][self.column] = p;
        self.now_player = match p {
            Status::X => Status::O,
            _ => Status::X,
        };
        assert(self@.board =~= before.board.update(
            before.row,
            before.board[before.row].update(before.column, p),
        ));
    }

    /// Carries out a command; returns whether the game goes on, which is
    /// false only for `Quit`. `Restart` begins a new game of the same size.
    pub fn apply(&mut self, cmd: Command) -> (going_on: bool)
        requires
            old(self).wf(),
        ensures
            final(self).wf(),
            final(self)@ == old(self)@.after(cmd),
            going_on == (cmd != Command::Quit),
    {
        match cmd {
            Command::Up => self.up(),
            Command::Down => self.down(),
            Command::Left => self.left(),
            Command::Right => self.right(),
            Command::Place => self.register(),
            Command::Restart => {
                *self = App::with_size(self.size);
            },
            Command::Quit => {
                return false;
            },
        }
        true
    }
}

} // verus!
