//! The board as text.

use vstd::prelude::*;
use vstd::string::StringExecFns;
use crate::board::{grid, Piece};
use crate::text::{decimal, decimal_text};

verus! {

/// How one cell is shown: the player as `x`, an empty cell as `0`, rubbish
/// as the decimal numeral of its worth.
pub open spec fn glyph_of(piece: Piece) -> Seq<char> {
    match piece {
        Piece::Player => seq!['x'],
        Piece::Empty => seq!['0'],
        Piece::Rubbish(n) => decimal(n as nat),
    }
}

/// The glyphs of the first `n` cells of `row`, with one space between
/// neighbours.
pub open spec fn row_text(row: Seq<Piece>, n: nat) -> Seq<char>
    decreases n,
{
    if n == 0 {
        Seq::empty()
    } else if n == 1 {
        glyph_of(row[0])
    } else {
        row_text(row, (n - 1) as nat) + seq![' '] + glyph_of(row[n - 1])
    }
}

/// The first `n` rows of `g` as text, with one line break between
/// neighbours and none at the end.
pub open spec fn rows_text(g: Seq<Seq<Piece>>, n: nat) -> Seq<char>
    decreases n,
{
    if n == 0 {
        Seq::empty()
    } else if n == 1 {
        row_text(g[0], g[0].len())
    } else {
        rows_text(g, (n - 1) as nat) + seq!['\n'] + row_text(g[n - 1], g[n - 1].len())
    }
}

/// All of `g` as text: one row per line, no line break after the last.
pub open spec fn grid_text(g: Seq<Seq<Piece>>) -> Seq<char> {
    rows_text(g, g.len())
}

impl Piece {
    /// The text that shows this piece on the board.
    pub fn glyph(&self) -> (r: String)
        ensures
            r@ == glyph_of(*self),
    {
        match self {
            Piece::Player => {
                proof {
                    reveal_strlit("x");
                }
                let r = String::from_str("x");
                assert(r@ =~= seq!['x']);
                r
            },
            Piece::Empty => {
                proof {
                    reveal_strlit("0");
                }
                let r = String::from_str("0");
                assert(r@ =~= seq!['0']);
                r
            },
            Piece::Rubbish(n) => decimal_text(*n as u64),
        }
    }
}

/// Appends the five cells of `row` to `out`, with one space between
/// neighbours.
fn append_row(out: &mut String, row: &[Piece; 5])
    ensures
        final(out)@ == old(out)@ + row_text(row@, 5),
{
    let ghost start = out@;
    let mut x: usize = 0;
    while x < 5
        invariant
            x <= 5,
            out@ == start + row_text(row@, x as nat),
        decreases 5 - x,
    {
        if x != 0 {
            proof {
                reveal_strlit(" ");
            }
            out.append(" ");
        }
        let shown = row[x].glyph();
        out.append(shown.as_str());
        proof {
            assert(out@ =~= start + row_text(row@, (x + 1) as nat));
        }
        x += 1;
    }
}

/// Renders `board` one row per line: the glyphs of a row stand side by side
/// with one space between them, and the last row ends without a line break.
pub fn display_board(board: &[[Piece; 5]]) -> (r: String)
    ensures
        r@ == grid_text(grid(board@)),
{
    let mut out = String::new();
    let mut y: usize = 0;
    while y < board.len()
        invariant
            y <= board@.len(),
            out@ == rows_text(grid(board@), y as nat),
        decreases board@.len() - y,
    {
        if y != 0 {
            proof {
                reveal_strlit("\n");
            }
            out.append("\n");
        }
        append_row(&mut out, &board[y]);
        proof {
            assert(grid(board@)[y as int] == board@[y as int]@);
            assert(out@ =~= rows_text(grid(board@), (y + 1) as nat));
        }
        y += 1;
    }
    out
}

} // verus!
