//! What the game writes to the player, and how it answers a line of input.

use vstd::prelude::*;
use vstd::string::StringExecFns;
use crate::action::{meaning, next_player_game_action, trimmed, PlayerGameAction, PlayerInput};
use crate::game::{opening, Game, GameView};
use crate::render::{display_board, grid_text, row_text, rows_text};
use crate::text::{decimal, decimal_text};

verus! {

/// Asks for the next command.
pub const PROMPT: &'static str = "\nEnter the your next game action (? for help): \n";

/// Lists the commands.
pub const HELP: &'static str =
    "You may enter one of the following actions:\n\tup - Move up\n\tdown - Move down\n\tleft - Move left\n\tright - Move right\n\texit - Exit the game\n\t? - Show this help message\n\n";

/// Answers a line that is no command.
pub const UNRECOGNIZED: &'static str = "Unrecognized input. Enter '?' for help.\n";

/// Says goodbye.
pub const FAREWELL: &'static str = "Exiting game...\n";

/// What the game writes at the start of a turn: an empty line, the score,
/// the player's position, an empty line, the board, and the end of the
/// board's last line.
pub open spec fn turn_text(s: GameView) -> Seq<char> {
    "\nScore: "@ + decimal(s.score) + "\nPosition: ("@ + decimal(s.position.0 as nat) + ", "@
        + decimal(s.position.1 as nat) + ")\n\n"@ + grid_text(s.grid) + "\n"@
}

/// The game that a line of input leaves behind: only a command changes
/// anything.
pub open spec fn outcome(s: GameView, input: PlayerInput) -> GameView {
    match input {
        PlayerInput::Action(action) => s.after(action),
        _ => s,
    }
}

/// Whether the game goes on after `input`: after everything but `exit`.
pub open spec fn goes_on(input: PlayerInput) -> bool {
    input != PlayerInput::Action(PlayerGameAction::Exit)
}

/// What the game writes in answer to `input`, where `s` is the game that
/// the input left behind. Every answer starts with an empty line. After
/// `exit` the farewell follows and nothing else. After another command the
/// next turn starts; a request for help gets the list of commands, anything
/// else a notice; and each of those three ends with the prompt.
pub open spec fn reply_text(s: GameView, input: PlayerInput) -> Seq<char> {
    match input {
        PlayerInput::Action(PlayerGameAction::Exit) => "\n"@ + FAREWELL@,
        PlayerInput::Action(_) => "\n"@ + turn_text(s) + PROMPT@,
        PlayerInput::Help => "\n"@ + HELP@ + PROMPT@,
        PlayerInput::Unrecognized => "\n"@ + UNRECOGNIZED@ + PROMPT@,
    }
}

/// The game's answer to a line of input.
#[derive(Debug)]
pub struct Reply {
    /// What to write to the player.
    pub text: String,
    /// Whether to read another line.
    pub running: bool,
}

/// A request for help, in whatever state the game is, changes nothing, is
/// answered with the list of commands and the prompt, and lets the game
/// go on.
pub proof fn lemma_help_asks_again(s: GameView)
    ensures
        outcome(s, PlayerInput::Help) == s,
        goes_on(PlayerInput::Help),
        reply_text(s, PlayerInput::Help) == "\n"@ + HELP@ + PROMPT@,
{
}

/// A line that is no command, in whatever state the game is, changes
/// nothing, is answered with a notice and the prompt, and lets the game
/// go on.
pub proof fn lemma_unrecognized_asks_again(s: GameView)
    ensures
        outcome(s, PlayerInput::Unrecognized) == s,
        goes_on(PlayerInput::Unrecognized),
        reply_text(s, PlayerInput::Unrecognized) == "\n"@ + UNRECOGNIZED@ + PROMPT@,
{
}

/// `exit`, in whatever state the game is, changes nothing, ends the game,
/// and is answered with an empty line and the farewell: no board, no prompt.
pub proof fn lemma_exit_ends_the_game(s: GameView)
    ensures
        outcome(s, PlayerInput::Action(PlayerGameAction::Exit)) == s,
        !goes_on(PlayerInput::Action(PlayerGameAction::Exit)),
        reply_text(s, PlayerInput::Action(PlayerGameAction::Exit)) == "\n"@ + FAREWELL@,
{
}

/// The first turn shows the player once, in the top left corner, the three
/// heaps of rubbish, and `0` in every other cell.
pub proof fn lemma_opening_text()
    ensures
        grid_text(opening().grid) == "x 0 0 0 0\n0 0 0 0 1\n2 0 0 0 0\n0 0 3 0 0\n0 0 0 0 0"@,
{
    reveal_strlit("x 0 0 0 0\n0 0 0 0 1\n2 0 0 0 0\n0 0 3 0 0\n0 0 0 0 0");
    let g = opening().grid;
    reveal_with_fuel(row_text, 6);
    assert(row_text(g[0], 5) =~= seq!['x', ' ', '0', ' ', '0', ' ', '0', ' ', '0']);
    assert(row_text(g[1], 5) =~= seq!['0', ' ', '0', ' ', '0', ' ', '0', ' ', '1']);
    assert(row_text(g[2], 5) =~= seq!['2', ' ', '0', ' ', '0', ' ', '0', ' ', '0']);
    assert(row_text(g[3], 5) =~= seq!['0', ' ', '0', ' ', '3', ' ', '0', ' ', '0']);
    assert(row_text(g[4], 5) =~= seq!['0', ' ', '0', ' ', '0', ' ', '0', ' ', '0']);
    reveal_with_fuel(rows_text, 6);
    assert(grid_text(g) =~= "x 0 0 0 0\n0 0 0 0 1\n2 0 0 0 0\n0 0 3 0 0\n0 0 0 0 0"@);
}

/// The list of commands.
pub fn input_help() -> (r: &'static str)
    ensures
        r@ == HELP@,
{
    HELP
}

impl Game {
    /// What the game writes at the start of a turn.
    pub fn turn_text(&self) -> (r: String)
        ensures
            r@ == turn_text(self@),
    {
        let (x, y) = self.player_position();
        let board = self.board();
        let mut r = String::from_str("\nScore: ");
        r.append(decimal_text(self.score() as u64).as_str());
        r.append("\nPosition: (");
        r.append(decimal_text(x as u64).as_str());
        r.append(", ");
        r.append(decimal_text(y as u64).as_str());
        r.append(")\n\n");
        r.append(display_board(&board).as_str());
        r.append("\n");
        r
    }

    /// Reads `line` as a command, plays it if it is one, and answers.
    pub fn respond(&mut self, line: &str) -> (reply: Reply)
        ensures
            final(self)@ == outcome(old(self)@, meaning(trimmed(line@))),
            final(self)@.wf(),
            reply.running == goes_on(meaning(trimmed(line@))),
            reply.text@ == reply_text(final(self)@, meaning(trimmed(line@))),
    {
        proof {
            use_type_invariant(&*self);
        }
        let mut text = String::from_str("\n");
        match next_player_game_action(line) {
            PlayerInput::Action(action) => {
                let running = self.play(action);
                if running {
                    text.append(self.turn_text().as_str());
                    text.append(PROMPT);
                } else {
                    text.append(FAREWELL);
                }
                Reply { text, running }
            },
            PlayerInput::Help => {
                text.append(input_help());
                text.append(PROMPT);
                Reply { text, running: true }
            },
            PlayerInput::Unrecognized => {
                text.append(UNRECOGNIZED);
                text.append(PROMPT);
                Reply { text, running: true }
            },
        }
    }
}

} // verus!
