//! The four unit steps on the board, and turning between them.

use vstd::prelude::*;

use super::Pos;
use crate::rng::rand_u32;

verus! {

#[verifier::allow_in_spec]
pub fn up() -> Pos
    returns
        (Pos { x: 0i16, y: -1i16 }),
{
    Pos { x: 0, y: -1 }
}

#[verifier::allow_in_spec]
pub fn down() -> Pos
    returns
        (Pos { x: 0i16, y: 1i16 }),
{
    Pos { x: 0, y: 1 }
}

#[verifier::allow_in_spec]
pub fn right() -> Pos
    returns
        (Pos { x: 1i16, y: 0i16 }),
{
    Pos { x: 1, y: 0 }
}

#[verifier::allow_in_spec]
pub fn left() -> Pos
    returns
        (Pos { x: -1i16, y: 0i16 }),
{
    Pos { x: -1, y: 0 }
}

/// The null step.
#[verifier::allow_in_spec]
pub fn none() -> Pos
    returns
        (Pos { x: 0i16, y: 0i16 }),
{
    Pos { x: 0, y: 0 }
}

/// The four unit steps, in the order up, down, left, right.
pub open spec fn all_spec() -> Seq<Pos> {
    seq![up(), down(), left(), right()]
}

/// Whether `p` is one of the four unit steps.
pub open spec fn is_dir(p: Pos) -> bool {
    p == up() || p == down() || p == left() || p == right()
}

/// The `i`-th of the four unit steps (up, down, left, right).
pub fn all(i: usize) -> (p: Pos)
    requires
        i < 4,
    ensures
        p == all_spec()[i as int],
{
    if i == 0 {
        up()
    } else if i == 1 {
        down()
    } else if i == 2 {
        left()
    } else {
        right()
    }
}

/// A random unit step: the step that `roll` picks out of the four.
pub fn pick(roll: u32) -> (p: Pos)
    ensures
        p == all_spec()[(roll % 4) as int],
        is_dir(p),
{
    all((roll % 4) as usize)
}

/// A random unit step.
pub fn rand() -> (p: Pos)
    ensures
        is_dir(p),
{
    pick(rand_u32())
}

/// The step a quarter turn clockwise from `pos`.
pub open spec fn rotate_right_spec(pos: Pos) -> Pos {
    if pos == up() {
        right()
    } else if pos == right() {
        down()
    } else if pos == down() {
        left()
    } else {
        up()
    }
}

/// The step a quarter turn anticlockwise from `pos`.
pub open spec fn rotate_left_spec(pos: Pos) -> Pos {
    if pos == up() {
        left()
    } else if pos == right() {
        up()
    } else if pos == down() {
        right()
    } else {
        down()
    }
}

/// The opposite step.
pub open spec fn invert_spec(pos: Pos) -> Pos {
    Pos { x: (-pos.x) as i16, y: (-pos.y) as i16 }
}

pub fn rotate_right(pos: Pos) -> (r: Pos)
    requires
        is_dir(pos),
    ensures
        r == rotate_right_spec(pos),
        is_dir(r),
{
    if pos == up() {
        right()
    } else if pos == right() {
        down()
    } else if pos == down() {
        left()
    } else {
        up()
    }
}

pub fn rotate_left(pos: Pos) -> (r: Pos)
    requires
        is_dir(pos),
    ensures
        r == rotate_left_spec(pos),
        is_dir(r),
{
    if pos == up() {
        left()
    } else if pos == right() {
        up()
    } else if pos == down() {
        right()
    } else {
        down()
    }
}

/// The step in the opposite direction.
pub fn invert(pos: Pos) -> (r: Pos)
    requires
        pos.x > i16::MIN,
        pos.y > i16::MIN,
    ensures
        r == invert_spec(pos),
        is_dir(pos) ==> is_dir(r),
{
    Pos { x: -pos.x, y: -pos.y }
}

/// Turning left undoes turning right, and the other way round.
pub proof fn lemma_rotate_inverse(d: Pos)
    requires
        is_dir(d),
    ensures
        rotate_left_spec(rotate_right_spec(d)) == d,
        rotate_right_spec(rotate_left_spec(d)) == d,
{
}

/// Four quarter turns in the same sense bring a step back to itself.
pub proof fn lemma_rotate_four_times(d: Pos)
    requires
        is_dir(d),
    ensures
        rotate_right_spec(rotate_right_spec(rotate_right_spec(rotate_right_spec(d)))) == d,
        rotate_left_spec(rotate_left_spec(rotate_left_spec(rotate_left_spec(d)))) == d,
{
}

/// Two quarter turns either way give the opposite step.
pub proof fn lemma_half_turn_is_invert(d: Pos)
    requires
        is_dir(d),
    ensures
        rotate_right_spec(rotate_right_spec(d)) == invert_spec(d),
        rotate_left_spec(rotate_left_spec(d)) == invert_spec(d),
{
}

/// Inverting twice gives the step back.
pub proof fn lemma_invert_involution(d: Pos)
    requires
        d.x > i16::MIN,
        d.y > i16::MIN,
    ensures
        invert_spec(invert_spec(d)) == d,
{
}

/// A turned step is a unit step, and so is the opposite of one.
pub proof fn lemma_turns_keep_dirs(d: Pos)
    requires
        is_dir(d),
    ensures
        is_dir(rotate_right_spec(d)),
        is_dir(rotate_left_spec(d)),
        is_dir(invert_spec(d)),
{
}

} // verus!
