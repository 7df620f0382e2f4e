//! Board coordinates and unit steps.

use vstd::prelude::*;

use crate::rng::gen_range_u32;

pub mod dirs;

verus! {

/// A cell coordinate on the board (or a step between two cells).
#[derive(Debug, Clone, Copy, PartialEq, Eq, Structural)]
pub struct Pos {
    pub x: i16,
    pub y: i16,
}

/// Whether `a + b` stays inside the `i16` range on both axes.
pub open spec fn add_fits(a: Pos, b: Pos) -> bool {
    &&& i16::MIN <= a.x + b.x <= i16::MAX
    &&& i16::MIN <= a.y + b.y <= i16::MAX
}

/// Whether `a - b` stays inside the `i16` range on both axes.
pub open spec fn sub_fits(a: Pos, b: Pos) -> bool {
    &&& i16::MIN <= a.x - b.x <= i16::MAX
    &&& i16::MIN <= a.y - b.y <= i16::MAX
}

/// Component-wise sum.
pub open spec fn pos_add(a: Pos, b: Pos) -> Pos {
    Pos { x: (a.x + b.x) as i16, y: (a.y + b.y) as i16 }
}

/// Component-wise difference.
pub open spec fn pos_sub(a: Pos, b: Pos) -> Pos {
    Pos { x: (a.x - b.x) as i16, y: (a.y - b.y) as i16 }
}

/// Whether `p` lies in the rectangle `[0, size.x) x [0, size.y)`.
pub open spec fn in_rect(p: Pos, size: Pos) -> bool {
    0 <= p.x < size.x && 0 <= p.y < size.y
}

impl Pos {
    pub fn new(x: i16, y: i16) -> (p: Self)
        ensures
            p == (Pos { x, y }),
    {
        Self { x, y }
    }

    /// A random position inside `[0, size.x) x [0, size.y)`.
    pub fn rand(size: Pos) -> (p: Pos)
        requires
            size.x > 0,
            size.y > 0,
        ensures
            in_rect(p, size),
    {
        let x = gen_range_u32(0, size.x as u32);
        let y = gen_range_u32(0, size.y as u32);
        Pos { x: x as i16, y: y as i16 }
    }
}

impl From<(i16, i16)> for Pos {
    fn from(value: (i16, i16)) -> (p: Self) {
        Self { x: value.0, y: value.1 }
    }
}

impl vstd::std_specs::convert::FromSpecImpl<(i16, i16)> for Pos {
    open spec fn obeys_from_spec() -> bool {
        true
    }

    open spec fn from_spec(v: (i16, i16)) -> Pos {
        Pos { x: v.0, y: v.1 }
    }
}

impl std::ops::Add<Pos> for Pos {
    type Output = Pos;

    fn add(self, rhs: Pos) -> (p: Pos) {
        Pos { x: self.x + rhs.x, y: self.y + rhs.y }
    }
}

impl vstd::std_specs::ops::AddSpecImpl<Pos> for Pos {
    open spec fn obeys_add_spec() -> bool {
        true
    }

    open spec fn add_req(self, rhs: Pos) -> bool {
        add_fits(self, rhs)
    }

    open spec fn add_spec(self, rhs: Pos) -> Pos {
        pos_add(self, rhs)
    }
}

impl std::ops::Sub<Pos> for Pos {
    type Output = Pos;

    fn sub(self, rhs: Pos) -> (p: Pos) {
        Pos { x: self.x - rhs.x, y: self.y - rhs.y }
    }
}

impl vstd::std_specs::ops::SubSpecImpl<Pos> for Pos {
    open spec fn obeys_sub_spec() -> bool {
        true
    }

    open spec fn sub_req(self, rhs: Pos) -> bool {
        sub_fits(self, rhs)
    }

    open spec fn sub_spec(self, rhs: Pos) -> Pos {
        pos_sub(self, rhs)
    }
}

/// Subtracting what was added gives the starting position back.
pub proof fn lemma_add_then_sub(a: Pos, b: Pos)
    requires
        add_fits(a, b),
    ensures
        sub_fits(pos_add(a, b), b),
        pos_sub(pos_add(a, b), b) == a,
{
}

/// The difference of two positions, added back, gives the position it was
/// taken from.
pub proof fn lemma_sub_then_add(a: Pos, b: Pos)
    requires
        sub_fits(a, b),
    ensures
        add_fits(b, pos_sub(a, b)),
        pos_add(b, pos_sub(a, b)) == a,
{
}

} // verus!
