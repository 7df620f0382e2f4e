//! A simpler board whose cells carry food, nest and two scent levels.

use vstd::prelude::*;

use crate::pos::Pos;

verus! {

#[derive(Debug, Clone, Copy)]
pub struct Cell {
    food: bool,
    nest: bool,
    food_scent: u8,
    nest_scent: u8,
}

/// The plain contents of a grid cell.
pub struct CellView {
    pub food: bool,
    pub nest: bool,
    pub food_scent: u8,
    pub nest_scent: u8,
}

pub open spec fn max_u8(a: u8, b: u8) -> u8 {
    if a >= b {
        a
    } else {
        b
    }
}

pub open spec fn sat_sub1(a: u8) -> u8 {
    if a == 0 {
        0
    } else {
        (a - 1) as u8
    }
}

impl View for Cell {
    type V = CellView;

    closed spec fn view(&self) -> CellView {
        CellView {
            food: self.food,
            nest: self.nest,
            food_scent: self.food_scent,
            nest_scent: self.nest_scent,
        }
    }
}

impl Default for Cell {
    fn default() -> (c: Self)
        ensures
            c@ == (CellView { food: false, nest: false, food_scent: 0, nest_scent: 0 }),
    {
        Cell { food: false, nest: false, food_scent: 0, nest_scent: 0 }
    }
}

impl Cell {
    pub fn is_food(&self) -> (r: bool)
        ensures
            r == self@.food,
    {
        self.food
    }

    pub fn is_nest(&self) -> (r: bool)
        ensures
            r == self@.nest,
    {
        self.nest
    }

    /// Takes the food off the cell, if there is any.
    pub fn take_food(&mut self) -> (r: Option<()>)
        ensures
            r is Some == old(self)@.food,
            final(self)@ == (CellView { food: false, ..old(self)@ }),
    {
        if self.food {
            self.food = false;
            Some(())
        } else {
            None
        }
    }

    pub fn get_food_scent(&self) -> (r: u8)
        ensures
            r == self@.food_scent,
    {
        self.food_scent
    }

    pub fn get_nest_scent(&self) -> (r: u8)
        ensures
            r == self@.nest_scent,
    {
        self.nest_scent
    }

    /// Raises the food scent to `scent`; a stronger scent already there stays.
    pub fn set_food_scent(&mut self, scent: u8)
        ensures
            final(self)@ == (CellView {
                food_scent: max_u8(old(self)@.food_scent, scent),
                ..old(self)@
            }),
    {
        self.food_scent = if self.food_scent >= scent {
            self.food_scent
        } else {
            scent
        };
    }

    /// Raises the nest scent to `scent`; a stronger scent already there stays.
    pub fn set_nest_scent(&mut self, scent: u8)
        ensures
            final(self)@ == (CellView {
                nest_scent: max_u8(old(self)@.nest_scent, scent),
                ..old(self)@
            }),
    {
        self.nest_scent = if self.nest_scent >= scent {
            self.nest_scent
        } else {
            scent
        };
    }

    /// One tick: the food scent fades by one.
    pub fn update(&mut self)
        ensures
            final(self)@ == (CellView { food_scent: sat_sub1(old(self)@.food_scent), ..old(self)@ }),
    {
        self.food_scent = self.food_scent.saturating_sub(1);
    }

    pub fn set_nest(&mut self, arg: bool)
        ensures
            final(self)@ == (CellView { nest: arg, ..old(self)@ }),
    {
        self.nest = arg;
    }

    pub fn set_food(&mut self, arg: bool)
        ensures
            final(self)@ == (CellView { food: arg, ..old(self)@ }),
    {
        self.food = arg;
    }
}

/// Setting a scent never weakens it, and setting the same scent again
/// changes nothing.
pub proof fn lemma_set_scent_monotone(old_scent: u8, scent: u8)
    ensures
        max_u8(old_scent, scent) >= old_scent,
        max_u8(old_scent, scent) >= scent,
        max_u8(max_u8(old_scent, scent), scent) == max_u8(old_scent, scent),
{
}

/// A scent of strength `s` is gone after `s` ticks, and not before.
pub proof fn lemma_scent_fades(s: u8, ticks: nat)
    ensures
        fade(s, ticks) == if ticks >= s { 0 } else { (s - ticks) as u8 },
    decreases ticks,
{
    if ticks > 0 {
        lemma_scent_fades(sat_sub1(s), (ticks - 1) as nat);
    }
}

/// A scent after `ticks` ticks of fading.
pub open spec fn fade(s: u8, ticks: nat) -> u8
    decreases ticks,
{
    if ticks == 0 {
        s
    } else {
        fade(sat_sub1(s), (ticks - 1) as nat)
    }
}

pub const SQUARES: i16 = 80;

/// Number of cells on the grid.
pub const NUM_CELLS: usize = 6400;

pub struct Grid {
    occupied: Vec<Cell>,
    size: Pos,
}

/// Whether `p` lies on the grid.
pub open spec fn on_grid(p: Pos) -> bool {
    0 <= p.x < SQUARES && 0 <= p.y < SQUARES
}

/// Where cell `p` is stored.
pub open spec fn grid_index(p: Pos) -> int {
    p.y * 80 + p.x
}

impl View for Grid {
    type V = Seq<CellView>;

    closed spec fn view(&self) -> Seq<CellView> {
        self.occupied@.map_values(|c: Cell| c@)
    }
}

impl Grid {
    pub closed spec fn wf(&self) -> bool {
        &&& self.occupied@.len() == NUM_CELLS
        &&& self.size == Pos { x: SQUARES, y: SQUARES }
    }

    /// A grid of default cells.
    pub fn new() -> (g: Self)
        ensures
            g.wf(),
            g@.len() == NUM_CELLS,
            forall|i: int|
                0 <= i < NUM_CELLS ==> #[trigger] g@[i] == (CellView {
                    food: false,
                    nest: false,
                    food_scent: 0,
                    nest_scent: 0,
                }),
    {
        let mut occupied: Vec<Cell> = Vec::new();
        let mut i: usize = 0;
        while i < NUM_CELLS
            invariant
                i <= NUM_CELLS,
                occupied@.len() == i,
                forall|j: int|
                    0 <= j < i ==> (#[trigger] occupied@[j])@ == (CellView {
                        food: false,
                        nest: false,
                        food_scent: 0,
                        nest_scent: 0,
                    }),
            decreases NUM_CELLS - i,
        {
            occupied.push(Cell::default());
            i += 1;
        }
        Grid { occupied, size: Pos::new(SQUARES, SQUARES) }
    }

    /// One tick: every food scent fades by one.
    pub fn update(&mut self)
        requires
            old(self).wf(),
        ensures
            final(self).wf(),
            final(self)@.len() == old(self)@.len(),
            forall|i: int|
                0 <= i < old(self)@.len() ==> #[trigger] final(self)@[i] == (CellView {
                    food_scent: sat_sub1(old(self)@[i].food_scent),
                    ..old(self)@[i]
                }),
    {
        let mut i: usize = 0;
        while i < self.occupied.len()
            invariant
                self.wf(),
                i <= self.occupied@.len(),
                forall|j: int|
                    0 <= j < i ==> (#[trigger] self.occupied@[j])@ == (CellView {
                        food_scent: sat_sub1(old(self).occupied@[j]@.food_scent),
                        ..old(self).occupied@[j]@
                    }),
                forall|j: int|
                    i <= j < self.occupied@.len() ==> #[trigger] self.occupied@[j]
                        == old(self).occupied@[j],
            decreases self.occupied@.len() - i,
        {
            let mut c = self.occupied[i];
            c.update();
            self.occupied.set(i, c);
            i += 1;
        }
    }

    pub fn is_valid(&self, pos: Pos) -> (r: bool)
        requires
            self.wf(),
        ensures
            r == on_grid(pos),
    {
        pos.x >= 0 && pos.x < self.size.x && pos.y >= 0 && pos.y < self.size.y
    }

    pub fn get_cell(&self, pos: Pos) -> (r: Option<&Cell>)
        requires
            self.wf(),
        ensures
            on_grid(pos) ==> r is Some && (*r->0)@ == self@[grid_index(pos)],
            !on_grid(pos) ==> r is None,
    {
        if self.is_valid(pos) {
            let idx = (pos.y as usize) * 80 + pos.x as usize;
            Some(&self.occupied[idx])
        } else {
            None
        }
    }

    pub fn get_cell_mut(&mut self, pos: Pos) -> (r: Option<&mut Cell>)
        requires
            old(self).wf(),
        ensures
            on_grid(pos) ==> r is Some && (*r->0)@ == old(self)@[grid_index(pos)] && final(self)@
                == old(self)@.update(grid_index(pos), (*final(r->0))@),
            !on_grid(pos) ==> r is None && final(self)@ == old(self)@,
            final(self).wf(),
    {
        if self.is_valid(pos) {
            let idx = (pos.y as usize) * 80 + pos.x as usize;
            Some(&mut self.occupied[idx])
        } else {
            None
        }
    }
}

} // verus!
