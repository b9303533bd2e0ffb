//! Clamped coordinate arithmetic on the board.

use vstd::prelude::*;

verus! {

/// Number of columns of the board.
pub const BOARD_X: usize = 5;

/// Number of rows of the board.
pub const BOARD_Y: usize = 5;

/// The value of the range from `low` to `high` that is nearest to `value`.
/// Where `low > high` the range is empty, and the bound that `value` lies
/// beyond is returned, `low` first.
pub open spec fn clamped(value: int, low: int, high: int) -> int {
    if value < low {
        low
    } else if value > high {
        high
    } else {
        value
    }
}

/// Whether `p` names a cell of the board.
pub open spec fn on_board(p: (usize, usize)) -> bool {
    p.0 < BOARD_X && p.1 < BOARD_Y
}

/// Whether `by` moves at most one cell along each axis.
pub open spec fn unit_step(by: (i8, i8)) -> bool {
    -1 <= by.0 <= 1 && -1 <= by.1 <= 1
}

/// Where a token at `current` stands after it is pushed by `by`: each
/// coordinate moves on its own and stops at the edge of the board.
pub open spec fn translated(current: (usize, usize), by: (i8, i8)) -> (usize, usize) {
    (
        clamped(current.0 + by.0, 0, BOARD_X - 1) as usize,
        clamped(current.1 + by.1, 0, BOARD_Y - 1) as usize,
    )
}

/// Where a token at `current` stands after it is pushed by `by` for `times`
/// turns in a row.
pub open spec fn pushed(current: (usize, usize), by: (i8, i8), times: nat) -> (usize, usize)
    decreases times,
{
    if times == 0 {
        current
    } else {
        translated(pushed(current, by, (times - 1) as nat), by)
    }
}

/// Restricts `value` to the closed range from `low` to `high`.
pub fn inbetween_range(value: i8, low: i8, high: i8) -> (r: i8)
    ensures
        r == clamped(value as int, low as int, high as int),
{
    if value < low {
        low
    } else if value > high {
        high
    } else {
        value
    }
}

/// Moves `current` by `by` and keeps the result on the board.
pub fn calculate_new_position(current: (usize, usize), by: (i8, i8)) -> (r: (usize, usize))
    requires
        on_board(current),
        unit_step(by),
    ensures
        r == translated(current, by),
        on_board(r),
{
    let (x, y) = current;
    let (by_x, by_y) = by;
    let x: i8 = inbetween_range(x as i8 + by_x, 0, BOARD_X as i8 - 1);
    let y: i8 = inbetween_range(y as i8 + by_y, 0, BOARD_Y as i8 - 1);
    (x as usize, y as usize)
}

/// A push never leaves the board, wherever it starts and however long it is.
pub proof fn lemma_translated_on_board(current: (usize, usize), by: (i8, i8))
    ensures
        on_board(translated(current, by)),
{
}

/// A push by nothing leaves a position of the board where it is.
pub proof fn lemma_translated_by_nothing(current: (usize, usize))
    requires
        on_board(current),
    ensures
        translated(current, (0i8, 0i8)) == current,
{
}

/// A step `times` as long as `step` points the way `step` points, and one
/// more step makes it one step longer.
proof fn lemma_long_step(times: nat, step: int)
    ensures
        (times + 1) * step == times * step + step,
        step >= 0 ==> times * step >= 0,
        step <= 0 ==> times * step <= 0,
{
    assert((times + 1) * step == times * step + step) by (nonlinear_arith);
    assert(step >= 0 ==> times * step >= 0) by (nonlinear_arith);
    assert(step <= 0 ==> times * step <= 0) by (nonlinear_arith);
}

/// Pushing a token `times` times by one step is pushing it once by a step
/// `times` as long: the edge stops it, and nothing brings it back.
pub proof fn lemma_pushed_closed_form(current: (usize, usize), by: (i8, i8), times: nat)
    requires
        on_board(current),
        unit_step(by),
    ensures
        pushed(current, by, times).0 == clamped(current.0 + times * by.0, 0, BOARD_X - 1),
        pushed(current, by, times).1 == clamped(current.1 + times * by.1, 0, BOARD_Y - 1),
    decreases times,
{
    if times > 0 {
        let before = (times - 1) as nat;
        lemma_pushed_closed_form(current, by, before);
        lemma_long_step(before, by.0 as int);
        lemma_long_step(before, by.1 as int);
    } else {
        assert(times * by.0 == 0 && times * by.1 == 0) by (nonlinear_arith)
            requires
                times == 0,
        ;
    }
}

/// The edge that a token at `current` is pushed towards by `by`: along each
/// axis the first or the last cell, or the token's own where `by` does not
/// move it along that axis.
pub open spec fn edge_towards(current: (usize, usize), by: (i8, i8)) -> (usize, usize) {
    (
        if by.0 < 0 {
            0
        } else if by.0 > 0 {
            (BOARD_X - 1) as usize
        } else {
            current.0
        },
        if by.1 < 0 {
            0
        } else if by.1 > 0 {
            (BOARD_Y - 1) as usize
        } else {
            current.1
        },
    )
}

/// A token pushed in one direction turn after turn reaches the edge in that
/// direction after at most four turns, and every further push leaves it
/// there.
pub proof fn lemma_pushed_reaches_edge(current: (usize, usize), by: (i8, i8), times: nat)
    requires
        on_board(current),
        unit_step(by),
        times >= 4,
    ensures
        pushed(current, by, times) == edge_towards(current, by),
        translated(edge_towards(current, by), by) == edge_towards(current, by),
{
    lemma_pushed_closed_form(current, by, times);
    assert(by.0 > 0 ==> times * by.0 >= 4) by (nonlinear_arith)
        requires
            times >= 4,
            -1 <= by.0 <= 1,
    ;
    assert(by.0 < 0 ==> times * by.0 <= -4) by (nonlinear_arith)
        requires
            times >= 4,
            -1 <= by.0 <= 1,
    ;
    assert(by.0 == 0 ==> times * by.0 == 0) by (nonlinear_arith);
    assert(by.1 > 0 ==> times * by.1 >= 4) by (nonlinear_arith)
        requires
            times >= 4,
            -1 <= by.1 <= 1,
    ;
    assert(by.1 < 0 ==> times * by.1 <= -4) by (nonlinear_arith)
        requires
            times >= 4,
            -1 <= by.1 <= 1,
    ;
    assert(by.1 == 0 ==> times * by.1 == 0) by (nonlinear_arith);
}

} // verus!
