//! The state of a game and how a command changes it.

use vstd::prelude::*;
use crate::action::{movement_of, PlayerGameAction};
use crate::board::{
    displaced, grid, is_board, move_piece_on_board, moved, new_board, occupant, opening_grid,
    place_piece_on_board, placed, Piece,
};
use crate::position::{calculate_new_position, on_board, translated, BOARD_X, BOARD_Y};

verus! {

/// The points that lie on the board before the first move.
pub const OPENING_WORTH: u32 = 6;

/// The points that a piece is worth to a player who lands on it.
pub open spec fn worth(piece: Piece) -> nat {
    match piece {
        Piece::Rubbish(n) => n as nat,
        _ => 0,
    }
}

/// What the first `n` cells of `row` are worth together.
pub open spec fn row_worth(row: Seq<Piece>, n: nat) -> nat
    decreases n,
{
    if n == 0 {
        0
    } else {
        row_worth(row, (n - 1) as nat) + worth(row[n - 1])
    }
}

/// What the first `n` rows of `g` are worth together.
pub open spec fn rows_worth(g: Seq<Seq<Piece>>, n: nat) -> nat
    decreases n,
{
    if n == 0 {
        0
    } else {
        rows_worth(g, (n - 1) as nat) + row_worth(g[n - 1], g[n - 1].len())
    }
}

/// What all the rubbish on `g` is worth together.
pub open spec fn total_worth(g: Seq<Seq<Piece>>) -> nat {
    rows_worth(g, g.len())
}

/// A game as a value: what is on the board, the score, and where the player
/// stands.
pub struct GameView {
    /// The cells, `grid[y][x]` in column `x` of row `y`.
    pub grid: Seq<Seq<Piece>>,
    /// The points collected so far.
    pub score: nat,
    /// The player's column and row.
    pub position: (usize, usize),
}

impl GameView {
    /// What holds of every game in play: the player's token is on the board
    /// once, where `position` says, and every point of the opening board is
    /// either still on the board or in the score.
    pub open spec fn wf(self) -> bool {
        &&& is_board(self.grid)
        &&& on_board(self.position)
        &&& forall|x: int, y: int|
            0 <= x < BOARD_X && 0 <= y < BOARD_Y ==> (#[trigger] self.grid[y][x] == Piece::Player
                <==> x == self.position.0 && y == self.position.1)
        &&& self.score + total_worth(self.grid) == OPENING_WORTH
    }

    /// The game after `action`. `Exit` changes nothing, and neither does a
    /// step that the edge of the board stops. Any other step moves the
    /// player's token to the next cell and adds to the score what lay there.
    pub open spec fn after(self, action: PlayerGameAction) -> GameView {
        match movement_of(action) {
            None => self,
            Some(by) => {
                let next = translated(self.position, by);
                if next == self.position {
                    self
                } else {
                    GameView {
                        grid: moved(self.grid, self.position, next),
                        score: self.score + worth(displaced(self.grid, self.position, next)),
                        position: next,
                    }
                }
            },
        }
    }
}

/// The game before the first move: the opening board with the player in the
/// top left corner, and no points.
pub open spec fn opening() -> GameView {
    GameView {
        grid: placed(opening_grid(), Piece::Player, (0usize, 0usize)),
        score: 0,
        position: (0usize, 0usize),
    }
}

/// A row with one cell replaced is worth what it was, less the old cell,
/// plus the new one.
proof fn lemma_row_worth_update(row: Seq<Piece>, x: int, piece: Piece, n: nat)
    requires
        0 <= x < row.len(),
        n <= row.len(),
    ensures
        row_worth(row.update(x, piece), n) + (if x < n {
            worth(row[x])
        } else {
            0
        }) == row_worth(row, n) + (if x < n {
            worth(piece)
        } else {
            0
        }),
    decreases n,
{
    if n > 0 {
        lemma_row_worth_update(row, x, piece, (n - 1) as nat);
    }
}

/// A grid with one row replaced is worth what it was, less the old row,
/// plus the new one.
proof fn lemma_rows_worth_update(g: Seq<Seq<Piece>>, y: int, row: Seq<Piece>, n: nat)
    requires
        0 <= y < g.len(),
        n <= g.len(),
    ensures
        rows_worth(g.update(y, row), n) + (if y < n {
            row_worth(g[y], g[y].len())
        } else {
            0
        }) == rows_worth(g, n) + (if y < n {
            row_worth(row, row.len())
        } else {
            0
        }),
    decreases n,
{
    if n > 0 {
        lemma_rows_worth_update(g, y, row, (n - 1) as nat);
    }
}

/// Placing a piece changes what the board is worth by the difference
/// between the piece and what it replaces.
pub proof fn lemma_total_worth_placed(g: Seq<Seq<Piece>>, piece: Piece, position: (usize, usize))
    requires
        is_board(g),
    ensures
        is_board(placed(g, piece, position)),
        total_worth(placed(g, piece, position)) + worth(occupant(g, position)) == total_worth(g)
            + worth(piece),
{
    let x = (position.0 % BOARD_X) as int;
    let y = (position.1 % BOARD_Y) as int;
    lemma_row_worth_update(g[y], x, piece, g[y].len());
    lemma_rows_worth_update(g, y, g[y].update(x, piece), g.len());
}

/// The opening board is worth its three heaps of rubbish.
proof fn lemma_opening_worth()
    ensures
        total_worth(opening_grid()) == OPENING_WORTH,
{
    let g = opening_grid();
    assert forall|y: int| 0 <= y < 5 implies row_worth(#[trigger] g[y], 5) == (if y == 1 {
        1nat
    } else if y == 2 {
        2nat
    } else if y == 3 {
        3nat
    } else {
        0nat
    }) by {
        reveal_with_fuel(row_worth, 6);
    }
    reveal_with_fuel(rows_worth, 6);
}

/// The game before the first move is a game in play.
pub proof fn lemma_opening_wf()
    ensures
        opening().wf(),
{
    lemma_opening_worth();
    lemma_total_worth_placed(opening_grid(), Piece::Player, (0usize, 0usize));
}

/// A command turns a game in play into a game in play.
pub proof fn lemma_after_wf(s: GameView, action: PlayerGameAction)
    requires
        s.wf(),
    ensures
        s.after(action).wf(),
{
    match movement_of(action) {
        None => {},
        Some(by) => {
            let next = translated(s.position, by);
            if next != s.position {
                let lifted = placed(s.grid, Piece::Empty, s.position);
                lemma_total_worth_placed(s.grid, Piece::Empty, s.position);
                lemma_total_worth_placed(lifted, Piece::Player, next);
                assert(occupant(s.grid, s.position) == Piece::Player);
            }
        },
    }
}

/// A player that steps onto rubbish worth `n` points scores exactly `n`,
/// leaves an empty cell behind and stands where the rubbish lay.
pub proof fn lemma_step_onto_rubbish(s: GameView, action: PlayerGameAction, n: u32)
    requires
        s.wf(),
        movement_of(action) is Some,
        occupant(s.grid, translated(s.position, movement_of(action)->0)) == Piece::Rubbish(n),
    ensures
        s.after(action).score == s.score + n,
        s.after(action).position == translated(s.position, movement_of(action)->0),
        occupant(s.after(action).grid, s.position) == Piece::Empty,
        occupant(s.after(action).grid, s.after(action).position) == Piece::Player,
        forall|x: int, y: int|
            0 <= x < BOARD_X && 0 <= y < BOARD_Y && !(x == s.position.0 && y == s.position.1) && !(x
                == s.after(action).position.0 && y == s.after(action).position.1)
                ==> #[trigger] s.after(action).grid[y][x] == s.grid[y][x],
{
    assert(occupant(s.grid, s.position) == Piece::Player);
}

/// Whether a player at `position` stands at the edge that `action` points
/// to, so that the step would leave the board.
pub open spec fn at_edge(position: (usize, usize), action: PlayerGameAction) -> bool {
    match action {
        PlayerGameAction::Exit => false,
        PlayerGameAction::Up => position.1 == 0,
        PlayerGameAction::Down => position.1 == BOARD_Y - 1,
        PlayerGameAction::Left => position.0 == 0,
        PlayerGameAction::Right => position.0 == BOARD_X - 1,
    }
}

/// A step against the edge of the board changes neither the board nor the
/// score nor the player's position, and no other step leaves the player
/// where it is.
pub proof fn lemma_step_against_edge(s: GameView, action: PlayerGameAction)
    requires
        s.wf(),
    ensures
        at_edge(s.position, action) ==> s.after(action) == s,
        action != PlayerGameAction::Exit && !at_edge(s.position, action) ==> s.after(
            action,
        ).position != s.position,
{
}

/// The score never goes down, and never exceeds what lay on the opening
/// board.
pub proof fn lemma_score_grows(s: GameView, action: PlayerGameAction)
    requires
        s.wf(),
    ensures
        s.score <= s.after(action).score <= OPENING_WORTH,
{
    lemma_after_wf(s, action);
}

/// A game in play.
#[derive(Debug)]
pub struct Game {
    board: [[Piece; 5]; 5],
    score: u32,
    player_position: (usize, usize),
}

impl View for Game {
    type V = GameView;

    closed spec fn view(&self) -> GameView {
        GameView {
            grid: grid(self.board@),
            score: self.score as nat,
            position: self.player_position,
        }
    }
}

impl Game {
    #[verifier::type_invariant]
    pub(crate) open spec fn inv(self) -> bool {
        self@.wf()
    }

    /// Sets up the board, puts the player in the top left corner and starts
    /// the score at nothing.
    pub fn new() -> (game: Game)
        ensures
            game@ == opening(),
            game@.wf(),
    {
        let mut board = new_board();
        let player_position: (usize, usize) = (0, 0);
        place_piece_on_board(&mut board, Piece::Player, player_position);
        proof {
            lemma_opening_wf();
        }
        Game { board, score: 0, player_position }
    }

    /// The points collected so far.
    pub fn score(&self) -> (score: u32)
        ensures
            score == self@.score,
            self@.wf(),
    {
        proof {
            use_type_invariant(self);
        }
        self.score
    }

    /// The player's column and row.
    pub fn player_position(&self) -> (position: (usize, usize))
        ensures
            position == self@.position,
            self@.wf(),
    {
        proof {
            use_type_invariant(self);
        }
        self.player_position
    }

    /// The cells of the board, row by row from the top.
    pub fn board(&self) -> (board: [[Piece; 5]; 5])
        ensures
            grid(board@) == self@.grid,
            self@.wf(),
    {
        proof {
            use_type_invariant(self);
        }
        self.board
    }

    /// Plays one command and says whether the game goes on, which it does
    /// after everything but `Exit`.
    pub fn play(&mut self, action: PlayerGameAction) -> (running: bool)
        ensures
            final(self)@ == old(self)@.after(action),
            final(self)@.wf(),
            running == (action != PlayerGameAction::Exit),
    {
        proof {
            use_type_invariant(&*self);
            lemma_after_wf(self@, action);
        }
        match action.movement() {
            None => false,
            Some(by) => {
                let next_position = calculate_new_position(self.player_position, by);
                if next_position.0 != self.player_position.0 || next_position.1
                    != self.player_position.1 {
                    let mut board = self.board;
                    let mut score = self.score;
                    match move_piece_on_board(&mut board, self.player_position, next_position) {
                        Piece::Rubbish(n) => score += n,
                        _ => {},
                    }
                    *self = Game { board, score, player_position: next_position };
                }
                true
            },
        }
    }
}

} // verus!
