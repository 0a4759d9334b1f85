use gobang::game::{App, DEFAULT_SIZE};
use gobang::model::{Command, Status};

fn place_at(app: &mut App, r: usize, c: usize) {
    app.row = r;
    app.column = c;
    app.register();
}

fn count_marks(app: &App) -> usize {
    let mut k = 0;
    for i in 0..app.size {
        for j in 0..app.size {
            if app.cell(i, j) != Status::Null {
                k += 1;
            }
        }
    }
    k
}

#[test]
fn new_game_is_empty() {
    let app = App::new();
    assert_eq!(app.size, DEFAULT_SIZE);
    assert_eq!(app.size, 10);
    assert_eq!((app.row, app.column), (0, 0));
    assert_eq!(app.now_player, Status::X);
    assert_eq!(app.winner, Status::Null);
    assert_eq!(app.matrix.len(), 10);
    assert!(app.matrix.iter().all(|r| r.len() == 10));
    assert_eq!(count_marks(&app), 0);
}

#[test]
fn cursor_wraps_at_every_edge() {
    let mut app = App::new();
    app.up();
    assert_eq!(app.row, 9);
    app.down();
    assert_eq!(app.row, 0);
    app.left();
    assert_eq!(app.column, 9);
    app.right();
    assert_eq!(app.column, 0);
    app.down();
    app.right();
    assert_eq!((app.row, app.column), (1, 1));
}

#[test]
fn cursor_round_trips_from_every_cell() {
    let mut app = App::with_size(5);
    for r in 0..5 {
        for c in 0..5 {
            app.row = r;
            app.column = c;
            app.up();
            assert!(app.row < 5);
            app.down();
            assert_eq!((app.row, app.column), (r, c));
            app.down();
            assert!(app.row < 5);
            app.up();
            assert_eq!((app.row, app.column), (r, c));
            app.left();
            assert!(app.column < 5);
            app.right();
            assert_eq!((app.row, app.column), (r, c));
            app.right();
            assert!(app.column < 5);
            app.left();
            assert_eq!((app.row, app.column), (r, c));
        }
    }
}

#[test]
fn placement_marks_cell_and_passes_turn() {
    let mut app = App::new();
    place_at(&mut app, 3, 4);
    assert_eq!(app.cell(3, 4), Status::X);
    assert_eq!(app.now_player, Status::O);
    assert_eq!(count_marks(&app), 1);
    place_at(&mut app, 3, 5);
    assert_eq!(app.cell(3, 5), Status::O);
    assert_eq!(app.now_player, Status::X);
    assert_eq!(count_marks(&app), 2);
}

#[test]
fn placement_on_occupied_cell_is_ignored() {
    let mut app = App::new();
    place_at(&mut app, 2, 2);
    place_at(&mut app, 2, 2);
    assert_eq!(app.cell(2, 2), Status::X);
    assert_eq!(app.now_player, Status::O);
    assert_eq!(count_marks(&app), 1);
}

#[test]
fn row_of_four_completed_by_fifth_wins() {
    let mut app = App::new();
    for c in 0..4 {
        app.matrix[5][c] = Status::X;
    }
    app.check();
    assert_eq!(app.winner, Status::Null);
    place_at(&mut app, 5, 4);
    assert_eq!(app.cell(5, 4), Status::X);
    app.check();
    assert_eq!(app.winner, Status::X);
    assert_eq!(app.now_player, Status::Null);
}

#[test]
fn alternating_placements_win_on_row_zero() {
    let mut app = App::new();
    let moves = [(0, 0), (1, 0), (0, 1), (1, 1), (0, 2), (1, 2), (0, 3), (1, 3), (0, 4)];
    for (k, &(r, c)) in moves.iter().enumerate() {
        place_at(&mut app, r, c);
        app.check();
        if k + 1 < moves.len() {
            assert_eq!(app.winner, Status::Null);
        }
    }
    assert_eq!(app.cell(1, 3), Status::O);
    assert_eq!(app.winner, Status::X);
    assert_eq!(app.now_player, Status::Null);
}

#[test]
fn diagonal_run_found_at_its_last_cell() {
    let mut app = App::new();
    for k in 2..7 {
        app.matrix[k][k] = Status::O;
    }
    assert_eq!(app.run_of_five_through(6, 6), Status::O);
    assert_eq!(app.run_of_five_through(5, 5), Status::Null);
    assert_eq!(app.run_of_five_through(2, 2), Status::Null);
    assert_eq!(app.first_winner(), Status::O);
    app.check();
    assert_eq!(app.winner, Status::O);
}

#[test]
fn column_run_found_at_its_lowest_cell() {
    let mut app = App::new();
    for r in 3..8 {
        app.matrix[r][9] = Status::X;
    }
    assert_eq!(app.run_of_five_through(7, 9), Status::X);
    assert_eq!(app.run_of_five_through(6, 9), Status::Null);
    assert_eq!(app.first_winner(), Status::X);
}

#[test]
fn anti_diagonal_run_found_at_its_upper_right_cell() {
    let mut app = App::new();
    for t in 0..5 {
        app.matrix[5 + t][4 - t] = Status::O;
    }
    assert_eq!(app.run_of_five_through(5, 4), Status::O);
    assert_eq!(app.run_of_five_through(9, 0), Status::Null);
    assert_eq!(app.first_winner(), Status::O);
}

#[test]
fn four_in_a_row_is_not_a_win() {
    let mut app = App::new();
    for c in 0..4 {
        app.matrix[0][c] = Status::X;
        app.matrix[9][c + 6] = Status::O;
    }
    app.matrix[0][4] = Status::O;
    assert_eq!(app.first_winner(), Status::Null);
    app.check();
    assert_eq!(app.winner, Status::Null);
    assert_eq!(app.now_player, Status::X);
}

#[test]
fn first_run_in_scan_order_decides() {
    let mut app = App::new();
    for c in 0..5 {
        app.matrix[7][c] = Status::X;
        app.matrix[2][c + 5] = Status::O;
    }
    app.check();
    assert_eq!(app.winner, Status::O);
}

#[test]
fn evaluating_twice_changes_nothing_more() {
    let mut app = App::new();
    for r in 0..5 {
        app.matrix[r][0] = Status::X;
    }
    app.check();
    let (w, p) = (app.winner, app.now_player);
    app.check();
    assert_eq!((app.winner, app.now_player), (w, p));
    assert_eq!(w, Status::X);

    let mut quiet = App::new();
    place_at(&mut quiet, 4, 4);
    quiet.check();
    quiet.check();
    assert_eq!(quiet.winner, Status::Null);
    assert_eq!(quiet.now_player, Status::O);
}

#[test]
fn winner_stays_after_further_placements() {
    let mut app = App::new();
    for c in 0..5 {
        app.matrix[0][c] = Status::X;
    }
    for c in 0..4 {
        app.matrix[3][c] = Status::O;
    }
    app.check();
    assert_eq!(app.winner, Status::X);
    place_at(&mut app, 3, 4);
    assert_eq!(app.cell(3, 4), Status::Null);
    app.check();
    assert_eq!(app.winner, Status::X);
    assert_eq!(app.now_player, Status::Null);
}

#[test]
fn commands_drive_the_game() {
    let mut app = App::new();
    assert!(app.apply(Command::Down));
    assert!(app.apply(Command::Right));
    assert!(app.apply(Command::Right));
    assert_eq!((app.row, app.column), (1, 2));
    assert!(app.apply(Command::Place));
    assert_eq!(app.cell(1, 2), Status::X);
    assert!(app.apply(Command::Up));
    assert!(app.apply(Command::Left));
    assert_eq!((app.row, app.column), (0, 1));
    assert!(!app.apply(Command::Quit));
    assert_eq!(app.cell(1, 2), Status::X);
    assert!(app.apply(Command::Restart));
    assert_eq!((app.row, app.column), (0, 0));
    assert_eq!(app.now_player, Status::X);
    assert_eq!(count_marks(&app), 0);
}

#[test]
fn restart_keeps_board_size() {
    let mut app = App::with_size(6);
    place_at(&mut app, 5, 5);
    app.apply(Command::Restart);
    assert_eq!(app.size, 6);
    assert_eq!(app.matrix.len(), 6);
    assert_eq!(count_marks(&app), 0);
}

#[test]
fn board_too_small_for_five_never_has_a_winner() {
    let mut app = App::with_size(4);
    for r in 0..4 {
        for c in 0..4 {
            app.matrix[r][c] = Status::X;
        }
    }
    assert_eq!(app.first_winner(), Status::Null);
}

#[test]
fn single_cell_board_wraps_onto_itself() {
    let mut app = App::with_size(1);
    app.up();
    app.left();
    assert_eq!((app.row, app.column), (0, 0));
    app.register();
    assert_eq!(app.cell(0, 0), Status::X);
}
