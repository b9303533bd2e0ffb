//! The grid of cells and the operations that change it.

use vstd::prelude::*;
use crate::position::{BOARD_X, BOARD_Y};

verus! {

/// What one cell of the board holds.
#[derive(Clone, Copy, Debug, PartialEq, Eq, Structural)]
pub enum Piece {
    /// The player's token.
    Player,
    /// Nothing.
    Empty,
    /// Rubbish worth the given number of points.
    Rubbish(u32),
}

/// The cells of `rows` as a grid: `grid(rows)[y][x]` is the cell in column
/// `x` of row `y`, rows counted from the top and columns from the left.
pub open spec fn grid(rows: Seq<[Piece; 5]>) -> Seq<Seq<Piece>> {
    Seq::new(rows.len(), |y: int| rows[y]@)
}

/// Whether `g` has the shape of the board: five rows of five cells.
pub open spec fn is_board(g: Seq<Seq<Piece>>) -> bool {
    &&& g.len() == BOARD_Y
    &&& forall|y: int| 0 <= y < BOARD_Y ==> (#[trigger] g[y]).len() == BOARD_X
}

/// What the cell in column `x` of row `y` holds before the first move:
/// three heaps of rubbish, and nothing anywhere else.
pub open spec fn opening_cell(x: int, y: int) -> Piece {
    if x == 4 && y == 1 {
        Piece::Rubbish(1)
    } else if x == 0 && y == 2 {
        Piece::Rubbish(2)
    } else if x == 2 && y == 3 {
        Piece::Rubbish(3)
    } else {
        Piece::Empty
    }
}

/// The board before the first move, without the player.
pub open spec fn opening_grid() -> Seq<Seq<Piece>> {
    Seq::new(BOARD_Y as nat, |y: int| Seq::new(BOARD_X as nat, |x: int| opening_cell(x, y)))
}

/// The piece in the cell of `g` that `position` wraps to.
pub open spec fn occupant(g: Seq<Seq<Piece>>, position: (usize, usize)) -> Piece {
    g[(position.1 % BOARD_Y) as int][(position.0 % BOARD_X) as int]
}

/// `g` with `piece` in the cell that `position` wraps to, and every other
/// cell as it was.
pub open spec fn placed(g: Seq<Seq<Piece>>, piece: Piece, position: (usize, usize)) -> Seq<
    Seq<Piece>,
> {
    let x = (position.0 % BOARD_X) as int;
    let y = (position.1 % BOARD_Y) as int;
    g.update(y, g[y].update(x, piece))
}

/// `g` after the occupant of `from` has been picked up, which leaves its
/// cell empty, and put down at `to`.
pub open spec fn moved(g: Seq<Seq<Piece>>, from: (usize, usize), to: (usize, usize)) -> Seq<
    Seq<Piece>,
> {
    placed(placed(g, Piece::Empty, from), occupant(g, from), to)
}

/// The piece that the occupant of `from` lands on when it is moved to `to`:
/// what `to` held, or nothing where both positions wrap to one cell.
pub open spec fn displaced(g: Seq<Seq<Piece>>, from: (usize, usize), to: (usize, usize)) -> Piece {
    occupant(placed(g, Piece::Empty, from), to)
}

/// The board before the first move, without the player.
pub fn new_board() -> (board: [[Piece; 5]; 5])
    ensures
        grid(board@) == opening_grid(),
{
    let board = [
        [Piece::Empty, Piece::Empty, Piece::Empty, Piece::Empty, Piece::Empty],
        [Piece::Empty, Piece::Empty, Piece::Empty, Piece::Empty, Piece::Rubbish(1)],
        [Piece::Rubbish(2), Piece::Empty, Piece::Empty, Piece::Empty, Piece::Empty],
        [Piece::Empty, Piece::Empty, Piece::Rubbish(3), Piece::Empty, Piece::Empty],
        [Piece::Empty, Piece::Empty, Piece::Empty, Piece::Empty, Piece::Empty],
    ];
    proof {
        assert forall|y: int| 0 <= y < 5 implies #[trigger] grid(board@)[y] == opening_grid()[y] by {
            assert(grid(board@)[y] =~= opening_grid()[y]);
        }
        assert(grid(board@) =~= opening_grid());
    }
    board
}

/// Writes `piece` into the cell at `position` and returns what the cell held.
/// A coordinate past the edge wraps around to the other side.
pub fn place_piece_on_board(
    board: &mut [[Piece; 5]; 5],
    piece: Piece,
    position: (usize, usize),
) -> (last: Piece)
    ensures
        last == occupant(grid(old(board)@), position),
        grid(final(board)@) == placed(grid(old(board)@), piece, position),
{
    let (x, y) = position;
    let x: usize = x % BOARD_X;
    let y: usize = y % BOARD_Y;
    let last = board[y][x];
    board[y][x] = piece;
    proof {
        let after = grid(board@);
        let expected = placed(grid(old(board)@), piece, position);
        assert forall|j: int| 0 <= j < 5 implies #[trigger] after[j] == expected[j] by {
            assert(after[j] =~= expected[j]);
        }
        assert(after =~= expected);
    }
    last
}

/// Picks up whatever occupies `from`, leaving that cell empty, puts it down
/// at `to`, and returns the piece it lands on.
pub fn move_piece_on_board(
    board: &mut [[Piece; 5]; 5],
    from: (usize, usize),
    to: (usize, usize),
) -> (taken: Piece)
    ensures
        taken == displaced(grid(old(board)@), from, to),
        grid(final(board)@) == moved(grid(old(board)@), from, to),
{
    let piece = place_piece_on_board(board, Piece::Empty, from);
    place_piece_on_board(board, piece, to)
}

} // verus!
