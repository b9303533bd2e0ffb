//! Commands, and how a line of input is read as one.

use vstd::prelude::*;

verus! {

/// What the player can ask for in one turn.
#[derive(Clone, Copy, Debug, PartialEq, Eq, Structural)]
pub enum PlayerGameAction {
    /// Leave the game.
    Exit,
    /// One row towards the top.
    Up,
    /// One row towards the bottom.
    Down,
    /// One column towards the left.
    Left,
    /// One column towards the right.
    Right,
}

/// What a line of input turned out to be.
#[derive(Clone, Copy, Debug, PartialEq, Eq, Structural)]
pub enum PlayerInput {
    /// One of the five commands.
    Action(PlayerGameAction),
    /// A request for the list of commands.
    Help,
    /// Anything else.
    Unrecognized,
}

/// The step that `action` asks for, as a change of column and of row; rows
/// count from the top. `Exit` asks for none.
pub open spec fn movement_of(action: PlayerGameAction) -> Option<(i8, i8)> {
    match action {
        PlayerGameAction::Exit => None,
        PlayerGameAction::Up => Some((0i8, -1i8)),
        PlayerGameAction::Down => Some((0i8, 1i8)),
        PlayerGameAction::Left => Some((-1i8, 0i8)),
        PlayerGameAction::Right => Some((1i8, 0i8)),
    }
}

impl PlayerGameAction {
    /// The step that this action asks for, if it asks for one.
    pub fn movement(self) -> (r: Option<(i8, i8)>)
        ensures
            r == movement_of(self),
    {
        match self {
            PlayerGameAction::Exit => None,
            PlayerGameAction::Up => Some((0, -1)),
            PlayerGameAction::Down => Some((0, 1)),
            PlayerGameAction::Left => Some((-1, 0)),
            PlayerGameAction::Right => Some((1, 0)),
        }
    }
}

/// Whether `c` is white space: a character with the Unicode property
/// `White_Space`.
pub open spec fn is_space(c: char) -> bool {
    let u = c as u32;
    ||| 0x09 <= u <= 0x0d
    ||| u == 0x20
    ||| u == 0x85
    ||| u == 0xa0
    ||| u == 0x1680
    ||| 0x2000 <= u <= 0x200a
    ||| u == 0x2028
    ||| u == 0x2029
    ||| u == 0x202f
    ||| u == 0x205f
    ||| u == 0x3000
}

/// `s` without the white space it starts with.
pub open spec fn trim_start(s: Seq<char>) -> Seq<char>
    decreases s.len(),
{
    if s.len() > 0 && is_space(s[0]) {
        trim_start(s.drop_first())
    } else {
        s
    }
}

/// `s` without the white space it ends with.
pub open spec fn trim_end(s: Seq<char>) -> Seq<char>
    decreases s.len(),
{
    if s.len() > 0 && is_space(s.last()) {
        trim_end(s.drop_last())
    } else {
        s
    }
}

/// `s` without the white space around it.
pub open spec fn trimmed(s: Seq<char>) -> Seq<char> {
    trim_end(trim_start(s))
}

/// What `word` means as a command. The match is exact: `Up` or `up ` mean
/// nothing.
pub open spec fn meaning(word: Seq<char>) -> PlayerInput {
    if word == seq!['e', 'x', 'i', 't'] {
        PlayerInput::Action(PlayerGameAction::Exit)
    } else if word == seq!['u', 'p'] {
        PlayerInput::Action(PlayerGameAction::Up)
    } else if word == seq!['d', 'o', 'w', 'n'] {
        PlayerInput::Action(PlayerGameAction::Down)
    } else if word == seq!['l', 'e', 'f', 't'] {
        PlayerInput::Action(PlayerGameAction::Left)
    } else if word == seq!['r', 'i', 'g', 'h', 't'] {
        PlayerInput::Action(PlayerGameAction::Right)
    } else if word == seq!['?'] {
        PlayerInput::Help
    } else {
        PlayerInput::Unrecognized
    }
}

/// Tests `c` for white space.
fn is_white_space(c: char) -> (r: bool)
    ensures
        r == is_space(c),
{
    let u: u32 = c as u32;
    (0x09 <= u && u <= 0x0d) || u == 0x20 || u == 0x85 || u == 0xa0 || u == 0x1680 || (0x2000 <= u
        && u <= 0x200a) || u == 0x2028 || u == 0x2029 || u == 0x202f || u == 0x205f || u == 0x3000
}

/// The characters of `line`, in order.
fn characters(line: &str) -> (r: Vec<char>)
    ensures
        r@ == line@,
{
    let mut r: Vec<char> = Vec::new();
    for c in it: line.chars()
        invariant
            it.seq() == line@,
            r@ == it.seq().take(it.index() as int),
    {
        r.push(c);
    }
    r
}

/// Whether the characters of `text` from `from` up to `to` are those of
/// `word`.
fn spells(text: &Vec<char>, from: usize, to: usize, word: &[char]) -> (r: bool)
    requires
        from <= to <= text@.len(),
    ensures
        r == (text@.subrange(from as int, to as int) == word@),
{
    if to - from != word.len() {
        return false;
    }
    let mut k: usize = 0;
    while k < word.len()
        invariant
            from <= to <= text@.len(),
            to - from == word@.len(),
            k <= word@.len(),
            forall|m: int| 0 <= m < k ==> text@[from + m] == word@[m],
        decreases word@.len() - k,
    {
        if text[from + k] != word[k] {
            assert(text@.subrange(from as int, to as int)[k as int] != word@[k as int]);
            return false;
        }
        k += 1;
    }
    assert(text@.subrange(from as int, to as int) =~= word@);
    true
}

/// Reads `line` as a command: the white space around it is dropped, and
/// what is left has to be one of `exit`, `up`, `down`, `left`, `right` and
/// `?`, letter for letter.
pub fn next_player_game_action(line: &str) -> (r: PlayerInput)
    ensures
        r == meaning(trimmed(line@)),
{
    let text = characters(line);
    let mut from: usize = 0;
    assert(text@.subrange(0, text@.len() as int) =~= text@);
    while from < text.len() && is_white_space(text[from])
        invariant
            from <= text@.len(),
            trim_start(text@) == trim_start(text@.subrange(from as int, text@.len() as int)),
        decreases text@.len() - from,
    {
        proof {
            assert(text@.subrange(from as int, text@.len() as int).drop_first()
                =~= text@.subrange(from + 1, text@.len() as int));
        }
        from += 1;
    }
    let mut to: usize = text.len();
    while from < to && is_white_space(text[to - 1])
        invariant
            from <= to <= text@.len(),
            trim_end(text@.subrange(from as int, text@.len() as int)) == trim_end(
                text@.subrange(from as int, to as int),
            ),
        decreases to - from,
    {
        proof {
            assert(text@.subrange(from as int, to as int).drop_last() =~= text@.subrange(
                from as int,
                to - 1,
            ));
        }
        to -= 1;
    }
    assert(text@.subrange(from as int, to as int) == trimmed(line@));
    let exit: [char; 4] = ['e', 'x', 'i', 't'];
    let up: [char; 2] = ['u', 'p'];
    let down: [char; 4] = ['d', 'o', 'w', 'n'];
    let left: [char; 4] = ['l', 'e', 'f', 't'];
    let right: [char; 5] = ['r', 'i', 'g', 'h', 't'];
    let help: [char; 1] = ['?'];
    proof {
        assert(exit@ =~= seq!['e', 'x', 'i', 't']);
        assert(up@ =~= seq!['u', 'p']);
        assert(down@ =~= seq!['d', 'o', 'w', 'n']);
        assert(left@ =~= seq!['l', 'e', 'f', 't']);
        assert(right@ =~= seq!['r', 'i', 'g', 'h', 't']);
        assert(help@ =~= seq!['?']);
    }
    if spells(&text, from, to, &exit) {
        PlayerInput::Action(PlayerGameAction::Exit)
    } else if spells(&text, from, to, &up) {
        PlayerInput::Action(PlayerGameAction::Up)
    } else if spells(&text, from, to, &down) {
        PlayerInput::Action(PlayerGameAction::Down)
    } else if spells(&text, from, to, &left) {
        PlayerInput::Action(PlayerGameAction::Left)
    } else if spells(&text, from, to, &right) {
        PlayerInput::Action(PlayerGameAction::Right)
    } else if spells(&text, from, to, &help) {
        PlayerInput::Help
    } else {
        PlayerInput::Unrecognized
    }
}

} // verus!
