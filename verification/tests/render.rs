use rubbish_game::board::{new_board, place_piece_on_board, Piece};
use rubbish_game::render::display_board;
use rubbish_game::text::decimal_text;

#[test]
fn decimal_text_writes_single_digits() {
    let want = ["0", "1", "2", "3", "4", "5", "6", "7", "8", "9"];
    for n in 0..10u64 {
        assert_eq!(decimal_text(n), want[n as usize]);
    }
}

#[test]
fn decimal_text_writes_longer_numbers() {
    assert_eq!(decimal_text(10), "10");
    assert_eq!(decimal_text(42), "42");
    assert_eq!(decimal_text(100), "100");
    assert_eq!(decimal_text(1234567890), "1234567890");
    assert_eq!(decimal_text(4294967295), "4294967295");
    assert_eq!(decimal_text(u64::MAX), "18446744073709551615");
}

#[test]
fn decimal_text_agrees_with_the_standard_library() {
    let mut n: u64 = 0;
    while n < 5000 {
        assert_eq!(decimal_text(n), n.to_string());
        n += 1;
    }
    let mut m: u64 = 1;
    for _ in 0..19 {
        m *= 10;
        assert_eq!(decimal_text(m - 1), (m - 1).to_string());
        assert_eq!(decimal_text(m), m.to_string());
        assert_eq!(decimal_text(m + 1), (m + 1).to_string());
    }
}

#[test]
fn glyph_of_each_piece() {
    assert_eq!(Piece::Player.glyph(), "x");
    assert_eq!(Piece::Empty.glyph(), "0");
    assert_eq!(Piece::Rubbish(1).glyph(), "1");
    assert_eq!(Piece::Rubbish(37).glyph(), "37");
    assert_eq!(Piece::Rubbish(0).glyph(), "0");
    assert_eq!(Piece::Rubbish(u32::MAX).glyph(), "4294967295");
}

#[test]
fn display_of_the_board_without_the_player() {
    let board = new_board();
    assert_eq!(
        display_board(&board),
        "0 0 0 0 0\n0 0 0 0 1\n2 0 0 0 0\n0 0 3 0 0\n0 0 0 0 0"
    );
}

#[test]
fn display_of_the_opening_board_shows_the_player_once() {
    let mut board = new_board();
    place_piece_on_board(&mut board, Piece::Player, (0, 0));
    let shown = display_board(&board);
    assert_eq!(shown, "x 0 0 0 0\n0 0 0 0 1\n2 0 0 0 0\n0 0 3 0 0\n0 0 0 0 0");
    assert_eq!(shown.matches('x').count(), 1);
    let rows: Vec<Vec<&str>> = shown.lines().map(|l| l.split(' ').collect()).collect();
    assert_eq!(rows.len(), 5);
    for (y, row) in rows.iter().enumerate() {
        assert_eq!(row.len(), 5);
        for (x, shown_cell) in row.iter().enumerate() {
            let want = match (x, y) {
                (0, 0) => "x",
                (4, 1) => "1",
                (0, 2) => "2",
                (2, 3) => "3",
                _ => "0",
            };
            assert_eq!(*shown_cell, want, "column {} of row {}", x, y);
        }
    }
}

#[test]
fn display_ends_without_a_line_break_and_rows_without_a_space() {
    let shown = display_board(&new_board());
    assert!(!shown.ends_with('\n'));
    for line in shown.lines() {
        assert!(!line.ends_with(' '));
        assert!(!line.starts_with(' '));
    }
    assert_eq!(shown.matches('\n').count(), 4);
}

#[test]
fn display_widens_a_row_for_long_numbers() {
    let mut board = new_board();
    place_piece_on_board(&mut board, Piece::Rubbish(120), (1, 0));
    place_piece_on_board(&mut board, Piece::Rubbish(4294967295), (4, 4));
    place_piece_on_board(&mut board, Piece::Player, (2, 2));
    assert_eq!(
        display_board(&board),
        "0 120 0 0 0\n0 0 0 0 1\n2 0 x 0 0\n0 0 3 0 0\n0 0 0 0 4294967295"
    );
}

#[test]
fn display_of_fewer_rows() {
    let board = new_board();
    assert_eq!(display_board(&board[..0]), "");
    assert_eq!(display_board(&board[1..2]), "0 0 0 0 1");
    assert_eq!(display_board(&board[1..3]), "0 0 0 0 1\n2 0 0 0 0");
}
