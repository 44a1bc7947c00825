//! The sky brightness ramp and its crossfade walk.
//!
//! Sky glyphs walk the ramp `' ' -> '.' -> ':' -> ';' -> '+' -> '*'` one
//! step per frame toward their target, which reads as diffuse glow instead
//! of a hard pop.

use vstd::prelude::*;

verus! {

/// Sky brightness ramp, dim to bright.
pub const RAMP: [char; 7] = [' ', '.', '.', ':', ';', '+', '*'];

/// Ramp index of a glyph; glyphs off the ramp act as transparent.
pub open spec fn spec_ramp_idx(c: char) -> Option<usize> {
    if c == ' ' {
        Some(0)
    } else if c == '.' {
        Some(1)
    } else if c == ':' {
        Some(3)
    } else if c == ';' {
        Some(4)
    } else if c == '+' {
        Some(5)
    } else if c == '*' {
        Some(6)
    } else {
        None
    }
}

/// Ramp index of a char. Unknown chars act as transparent (no fade).
pub fn ramp_idx(c: char) -> (r: Option<usize>)
    ensures
        r == spec_ramp_idx(c),
{
    if c == ' ' {
        Some(0)
    } else if c == '.' {
        Some(1)
    } else if c == ':' {
        Some(3)
    } else if c == ';' {
        Some(4)
    } else if c == '+' {
        Some(5)
    } else if c == '*' {
        Some(6)
    } else {
        None
    }
}

/// Ramp index of the next brighter glyph above index `a`: the ramp holds
/// `'.'` twice, and the walk steps over the repeat.
pub open spec fn spec_step_up(a: usize) -> usize {
    if a == 1 {
        3
    } else {
        (a + 1) as usize
    }
}

/// Ramp index of the next dimmer glyph below index `a`.
pub open spec fn spec_step_down(a: usize) -> usize {
    if a == 3 {
        1
    } else {
        (a - 1) as usize
    }
}

/// One crossfade step from `cur` toward `target`: on the ramp, to the
/// neighbouring glyph toward the target; entering the sky from a globe
/// glyph, a diffuse start.
pub open spec fn spec_fade(cur: char, target: char) -> char {
    if cur == target {
        cur
    } else {
        match (spec_ramp_idx(cur), spec_ramp_idx(target)) {
            (Some(a), Some(b)) => RAMP@[(if b > a {
                spec_step_up(a)
            } else if b < a {
                spec_step_down(a)
            } else {
                a
            }) as int],
            _ => if target == ' ' {
                ' '
            } else if target == '*' {
                '+'
            } else {
                '.'
            },
        }
    }
}

/// Crossfade walk: one ramp step from `cur` toward `target`. Chars appear
/// and disappear as `' ' -> '.' -> ':' -> ';' -> '+' -> '*'`.
pub fn fade(cur: char, target: char) -> (r: char)
    ensures
        r == spec_fade(cur, target),
{
    if cur == target {
        return cur;
    }
    match (ramp_idx(cur), ramp_idx(target)) {
        (Some(a), Some(b)) => {
            let i = if b > a {
                if a == 1 {
                    3
                } else {
                    a + 1
                }
            } else if b < a {
                if a == 3 {
                    1
                } else {
                    a - 1
                }
            } else {
                a
            };
            RAMP[i]
        },
        _ => {
            if target == ' ' {
                ' '
            } else if target == '*' {
                '+'
            } else {
                '.'
            }
        },
    }
}

/// `n` crossfade steps toward `target`.
pub open spec fn fade_steps(cur: char, target: char, n: nat) -> char
    decreases n,
{
    if n == 0 {
        cur
    } else {
        fade_steps(spec_fade(cur, target), target, (n - 1) as nat)
    }
}

/// A glyph already at its target stays.
pub proof fn lemma_fade_at_target(c: char)
    ensures
        spec_fade(c, c) == c,
{
}

/// Position of a glyph on the visible ramp `' ' . : ; + *`.
pub open spec fn glyph_rank(c: char) -> int {
    if c == ' ' {
        0
    } else if c == '.' {
        1
    } else if c == ':' {
        2
    } else if c == ';' {
        3
    } else if c == '+' {
        4
    } else {
        5
    }
}

/// On the ramp a step never pops: a glyph off its target moves exactly one
/// place along the visible ramp, toward the target.
pub proof fn lemma_fade_one_step(cur: char, target: char)
    requires
        spec_ramp_idx(cur) is Some,
        spec_ramp_idx(target) is Some,
    ensures
        ({
            let a = glyph_rank(cur);
            let b = glyph_rank(target);
            let r = spec_fade(cur, target);
            &&& spec_ramp_idx(r) is Some
            &&& b > a ==> glyph_rank(r) == a + 1
            &&& b < a ==> glyph_rank(r) == a - 1
            &&& b == a ==> r == cur
        }),
{
}

/// Entering the sky from a globe glyph never pops: the first frame shows a
/// ramp glyph no brighter than the target, blank only for a blank target,
/// and at most the dim `'.'` unless the target is the brightest `'*'`,
/// which starts one step below it.
pub proof fn lemma_fade_enters_diffuse(cur: char, target: char)
    requires
        spec_ramp_idx(cur) is None,
        spec_ramp_idx(target) is Some,
    ensures
        ({
            let r = spec_fade(cur, target);
            &&& spec_ramp_idx(r) is Some
            &&& glyph_rank(r) <= glyph_rank(target)
            &&& (r == ' ' <==> target == ' ')
            &&& target != '*' ==> glyph_rank(r) <= 1
            &&& target == '*' ==> glyph_rank(r) == glyph_rank(target) - 1
        }),
{
}

/// The crossfade always arrives: from any ramp glyph toward any ramp
/// glyph, the walk reaches the target within five steps and stays there.
pub proof fn lemma_fade_reaches_target(cur: char, target: char, n: nat)
    requires
        spec_ramp_idx(cur) is Some,
        spec_ramp_idx(target) is Some,
        n >= 5,
    ensures
        fade_steps(cur, target, n) == target,
    decreases n,
{
    if n == 5 {
        reveal_with_fuel(fade_steps, 6);
    } else {
        lemma_fade_reaches_target(cur, target, (n - 1) as nat);
        lemma_fade_at_target(target);
        lemma_fade_steps_last(cur, target, (n - 1) as nat);
    }
}

/// One more step is one more fade after the walk.
proof fn lemma_fade_steps_last(cur: char, target: char, n: nat)
    ensures
        fade_steps(cur, target, n + 1) == spec_fade(fade_steps(cur, target, n), target),
    decreases n,
{
    let next = spec_fade(cur, target);
    assert(fade_steps(cur, target, n + 1) == fade_steps(next, target, n));
    if n > 0 {
        lemma_fade_steps_last(next, target, (n - 1) as nat);
        assert(fade_steps(cur, target, n) == fade_steps(next, target, (n - 1) as nat));
    } else {
        assert(fade_steps(next, target, 0) == next);
    }
}

} // verus!
