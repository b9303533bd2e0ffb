use rubbish_game::board::{move_piece_on_board, new_board, place_piece_on_board, Piece};

#[test]
fn new_board_holds_three_heaps_and_no_player() {
    let board = new_board();
    for y in 0..5usize {
        for x in 0..5usize {
            let want = match (x, y) {
                (4, 1) => Piece::Rubbish(1),
                (0, 2) => Piece::Rubbish(2),
                (2, 3) => Piece::Rubbish(3),
                _ => Piece::Empty,
            };
            assert_eq!(board[y][x], want, "column {} of row {}", x, y);
        }
    }
}

#[test]
fn place_writes_the_cell_and_returns_what_it_held() {
    let mut board = new_board();
    assert_eq!(place_piece_on_board(&mut board, Piece::Player, (0, 0)), Piece::Empty);
    assert_eq!(board[0][0], Piece::Player);
    assert_eq!(place_piece_on_board(&mut board, Piece::Rubbish(9), (4, 1)), Piece::Rubbish(1));
    assert_eq!(board[1][4], Piece::Rubbish(9));
    assert_eq!(place_piece_on_board(&mut board, Piece::Empty, (0, 0)), Piece::Player);
    assert_eq!(board[0][0], Piece::Empty);
}

#[test]
fn place_leaves_every_other_cell_alone() {
    let before = new_board();
    let mut board = before;
    place_piece_on_board(&mut board, Piece::Rubbish(7), (3, 2));
    for y in 0..5usize {
        for x in 0..5usize {
            if (x, y) == (3, 2) {
                assert_eq!(board[y][x], Piece::Rubbish(7));
            } else {
                assert_eq!(board[y][x], before[y][x]);
            }
        }
    }
}

#[test]
fn place_takes_the_first_coordinate_as_the_column() {
    let mut board = new_board();
    place_piece_on_board(&mut board, Piece::Player, (1, 3));
    assert_eq!(board[3][1], Piece::Player);
    assert_eq!(board[1][3], Piece::Empty);
}

#[test]
fn place_wraps_coordinates_past_the_edge() {
    let mut board = new_board();
    assert_eq!(place_piece_on_board(&mut board, Piece::Player, (5, 7)), Piece::Rubbish(2));
    assert_eq!(board[2][0], Piece::Player);
    assert_eq!(place_piece_on_board(&mut board, Piece::Empty, (9, 11)), Piece::Rubbish(1));
    assert_eq!(board[1][4], Piece::Empty);
    assert_eq!(place_piece_on_board(&mut board, Piece::Rubbish(5), (usize::MAX, usize::MAX)), Piece::Empty);
    assert_eq!(board[usize::MAX % 5][usize::MAX % 5], Piece::Rubbish(5));
}

#[test]
fn move_carries_the_occupant_and_returns_what_it_lands_on() {
    let mut board = new_board();
    place_piece_on_board(&mut board, Piece::Player, (3, 1));
    assert_eq!(move_piece_on_board(&mut board, (3, 1), (4, 1)), Piece::Rubbish(1));
    assert_eq!(board[1][3], Piece::Empty);
    assert_eq!(board[1][4], Piece::Player);
    assert_eq!(move_piece_on_board(&mut board, (4, 1), (4, 2)), Piece::Empty);
    assert_eq!(board[1][4], Piece::Empty);
    assert_eq!(board[2][4], Piece::Player);
}

#[test]
fn move_carries_whatever_occupies_the_source() {
    let mut board = new_board();
    assert_eq!(move_piece_on_board(&mut board, (0, 2), (2, 3)), Piece::Rubbish(3));
    assert_eq!(board[2][0], Piece::Empty);
    assert_eq!(board[3][2], Piece::Rubbish(2));
    assert_eq!(move_piece_on_board(&mut board, (1, 1), (2, 3)), Piece::Rubbish(2));
    assert_eq!(board[3][2], Piece::Empty);
}

#[test]
fn move_onto_its_own_cell_changes_nothing_and_returns_empty() {
    let before = new_board();
    let mut board = before;
    assert_eq!(move_piece_on_board(&mut board, (4, 1), (4, 1)), Piece::Empty);
    assert_eq!(board, before);
    assert_eq!(move_piece_on_board(&mut board, (4, 1), (9, 6)), Piece::Empty);
    assert_eq!(board, before);
}

#[test]
fn move_leaves_the_other_cells_alone() {
    let mut before = new_board();
    place_piece_on_board(&mut before, Piece::Player, (0, 0));
    let mut board = before;
    move_piece_on_board(&mut board, (0, 0), (1, 0));
    for y in 0..5usize {
        for x in 0..5usize {
            let want = match (x, y) {
                (0, 0) => Piece::Empty,
                (1, 0) => Piece::Player,
                _ => before[y][x],
            };
            assert_eq!(board[y][x], want);
        }
    }
}
