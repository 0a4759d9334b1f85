//! Properties of the game that hold for every state.
use vstd::prelude::*;

use crate::model::{GameView, Status, has_run, other, run_along, scan_from, scan_row};

verus! {

/// Moving the cursor in any direction keeps it on the board and keeps the
/// state well formed.
pub proof fn lemma_moves_stay_on_board(g: GameView)
    requires
        g.wf(),
    ensures
        g.up().wf(),
        g.down().wf(),
        g.left().wf(),
        g.right().wf(),
{
}

/// Moving the cursor up then down, down then up, left then right, or right
/// then left brings it back where it was.
pub proof fn lemma_moves_round_trip(g: GameView)
    requires
        g.wf(),
    ensures
        g.up().down() == g,
        g.down().up() == g,
        g.left().right() == g,
        g.right().left() == g,
{
}

/// Placing on an occupied cell, or after the game has ended, changes nothing;
/// otherwise it writes the mover's mark into exactly the cell under the cursor
/// and hands the turn to the other player.
pub proof fn lemma_place_writes_one_cell(g: GameView)
    requires
        g.wf(),
    ensures
        g.placed().wf(),
        g.cell(g.row, g.column) != Status::Null ==> g.placed() == g,
        g.now_player == Status::Null ==> g.placed() == g,
        g.now_player != Status::Null && g.cell(g.row, g.column) == Status::Null ==> {
            &&& g.placed().cell(g.row, g.column) == g.now_player
            &&& g.placed().now_player == other(g.now_player)
            &&& g.placed().now_player != g.now_player
            &&& g.placed().winner == g.winner
            &&& g.placed().row == g.row && g.placed().column == g.column
            &&& forall|i: int, j: int|
                0 <= i < g.size && 0 <= j < g.size && (i != g.row || j != g.column)
                    ==> #[trigger] g.placed().cell(i, j) == g.cell(i, j)
        },
{
}

/// Evaluating the outcome twice in a row gives the same state as doing it once.
pub proof fn lemma_evaluate_idempotent(g: GameView)
    requires
        g.wf(),
    ensures
        g.evaluated().wf(),
        g.evaluated().evaluated() == g.evaluated(),
{
}

/// Once there is a winner, placing changes nothing, and evaluating the
/// outcome again, before or after any placement, keeps a winner and the
/// same one.
pub proof fn lemma_winner_is_final(g: GameView)
    requires
        g.wf(),
        g.winner != Status::Null,
    ensures
        g.placed() == g,
        g.evaluated().winner != Status::Null,
        g.evaluated().placed() == g.evaluated(),
        g.evaluated().placed().evaluated() == g.evaluated(),
{
}

/// The same five cells read from the other end.
proof fn lemma_run_reversed(b: Seq<Seq<Status>>, n: int, i: int, j: int, di: int, dj: int)
    requires
        run_along(b, n, i, j, di, dj),
    ensures
        run_along(b, n, i - 4 * di, j - 4 * dj, -di, -dj),
{
}

proof fn lemma_scan_row_finds(b: Seq<Seq<Status>>, n: int, i: int, j0: int, j: int)
    requires
        0 <= j0 <= j < n,
        has_run(b, n, i, j),
    ensures
        scan_row(b, n, i, j0) != Status::Null,
    decreases j - j0,
{
    if j0 < j && !has_run(b, n, i, j0) {
        lemma_scan_row_finds(b, n, i, j0 + 1, j);
    }
}

proof fn lemma_scan_from_finds(b: Seq<Seq<Status>>, n: int, i0: int, i: int, j: int)
    requires
        0 <= i0 <= i < n,
        0 <= j < n,
        has_run(b, n, i, j),
    ensures
        scan_from(b, n, i0) != Status::Null,
    decreases i - i0,
{
    if i0 == i {
        lemma_scan_row_finds(b, n, i, 0, j);
    } else if scan_row(b, n, i0, 0) == Status::Null {
        lemma_scan_from_finds(b, n, i0 + 1, i, j);
    }
}

/// Five same marks in a line, along a column, a row or either diagonal, read
/// in any of the eight directions, make the evaluation report a winner.
pub proof fn lemma_every_run_is_found(g: GameView, i: int, j: int, di: int, dj: int)
    requires
        g.wf(),
        -1 <= di <= 1,
        -1 <= dj <= 1,
        di != 0 || dj != 0,
        run_along(g.board, g.size, i, j, di, dj),
    ensures
        g.evaluated().winner != Status::Null,
{
    if has_run(g.board, g.size, i, j) {
        lemma_scan_from_finds(g.board, g.size, 0, i, j);
    } else {
        lemma_run_reversed(g.board, g.size, i, j, di, dj);
        lemma_scan_from_finds(g.board, g.size, 0, i - 4 * di, j - 4 * dj);
    }
}

} // verus!
