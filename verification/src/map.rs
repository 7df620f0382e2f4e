//! The board: what lies on each cell and which faction stands on it.

use vstd::prelude::*;

use crate::insect::Id;
use crate::pos::dirs::{self, is_dir};
use crate::pos::{add_fits, in_rect, pos_add, Pos};
use crate::rng::gen_range_u32;

verus! {

pub type Faction = u8;

pub const FACTION_NONE: u8 = 0;

pub const FACTION_PILLBUG: u8 = 254;

pub const FACTION_SPIDER: u8 = 253;

/// Who stands on a cell: a faction and the id of the insect that took it.
pub type Occupant = (Faction, Id);

/// Side length of the square board.
pub const SQUARES: i16 = 128;

/// Side length of the square board.
pub const MAP_SIZE: i16 = 128;

/// Number of cells on the board.
pub const NUM_CELLS: usize = 16384;

#[derive(Debug, Clone, Copy, PartialEq, Eq, Structural)]
pub enum CellType {
    Empty,
    Food,
    Nest(Faction),
    Rock,
    Wall,
}

impl Default for CellType {
    fn default() -> (t: Self)
        ensures
            t == CellType::Empty,
    {
        CellType::Empty
    }
}

#[derive(Debug, Clone, Copy)]
pub struct Cell {
    pub m_type: CellType,
    /// The insect registered on this cell, if any. After a fight it keeps
    /// the id of the insect that stood here, under the attacker's faction.
    pub occupied: Option<Occupant>,
    /// How many insects of the registered faction hold the cell: the
    /// registration lasts until the last of them leaves.
    pub holders: u32,
}

/// One more holder (the count stops at its largest value).
pub open spec fn one_more(h: u32) -> u32 {
    if h == u32::MAX {
        h
    } else {
        (h + 1) as u32
    }
}

/// `set_type` on a cell: only an empty cell takes a new type.
pub open spec fn set_type_spec(c: Cell, flag: CellType) -> Cell {
    if c.m_type == CellType::Empty {
        Cell { m_type: flag, ..c }
    } else {
        c
    }
}

/// `take_type` on a cell: a cell of type `flag` becomes empty and hands out
/// one unit.
pub open spec fn take_type_spec(c: Cell, flag: CellType) -> (Cell, Option<()>) {
    if c.m_type == flag {
        (Cell { m_type: CellType::Empty, ..c }, Some(()))
    } else {
        (c, None)
    }
}

/// The id registered on a cell (0 when nobody is).
pub open spec fn occupant_id(c: Cell) -> Id {
    match c.occupied {
        Some(o) => o.1,
        None => 0,
    }
}

/// The faction standing on a cell, `FACTION_NONE` when nobody does.
pub open spec fn occupied_faction_spec(c: Cell) -> Faction {
    match c.occupied {
        Some(o) => o.0,
        None => FACTION_NONE,
    }
}

/// `try_occupy` on a cell: a free cell is taken by `who`, its only holder;
/// a cell held by `who`'s faction is shared (the registration stays and is
/// handed back, with one holder more); a cell held by another faction is
/// marked with `who`'s faction and the attempt fails.
pub open spec fn try_occupy_spec(c: Cell, who: Occupant) -> (Cell, Option<Occupant>) {
    match c.occupied {
        Some(o) => if o.0 == who.0 {
            (Cell { holders: one_more(c.holders), ..c }, Some(o))
        } else {
            (Cell { occupied: Some((who.0, o.1)), ..c }, None)
        },
        None => (Cell { occupied: Some(who), holders: 1, ..c }, Some(who)),
    }
}

/// A holder leaves the cell: the registration goes with the last holder.
pub open spec fn release_spec(c: Cell) -> Cell {
    if c.holders <= 1 {
        Cell { occupied: None, holders: 0, ..c }
    } else {
        Cell { holders: (c.holders - 1) as u32, ..c }
    }
}

impl Default for Cell {
    fn default() -> (c: Self)
        ensures
            c.m_type == CellType::Empty,
            c.occupied is None,
            c.holders == 0,
    {
        Cell { m_type: CellType::Empty, occupied: None, holders: 0 }
    }
}

impl Cell {
    pub fn is_type(&self, flag: CellType) -> (r: bool)
        ensures
            r == (self.m_type == flag),
    {
        self.m_type == flag
    }

    pub fn set_type(&mut self, flag: CellType)
        ensures
            *final(self) == set_type_spec(*old(self), flag),
    {
        if self.m_type == CellType::Empty {
            self.m_type = flag
        }
    }

    pub fn take_type(&mut self, flag: CellType) -> (r: Option<()>)
        ensures
            (*final(self), r) == take_type_spec(*old(self), flag),
    {
        if self.is_type(flag) {
            self.m_type = CellType::Empty;
            Some(())
        } else {
            None
        }
    }

    pub fn occupied_faction(&self) -> (f: Faction)
        ensures
            f == occupied_faction_spec(*self),
    {
        match self.occupied {
            Some(o) => o.0,
            None => FACTION_NONE,
        }
    }

    pub fn try_occupy(&mut self, who: Occupant) -> (r: Option<Occupant>)
        ensures
            (*final(self), r) == try_occupy_spec(*old(self), who),
    {
        match self.occupied {
            Some(o) => {
                if o.0 == who.0 {
                    self.holders = self.holders.saturating_add(1);
                    Some(o)
                } else {
                    // Enemy is here! mark that
                    self.occupied = Some((who.0, o.1));
                    None
                }
            },
            None => {
                self.occupied = Some(who);
                self.holders = 1;
                Some(who)
            },
        }
    }
}

/// Taking a type that was just set on an empty cell gives one unit back
/// and leaves the cell empty again.
pub proof fn lemma_set_then_take(c: Cell, flag: CellType)
    requires
        c.m_type == CellType::Empty,
        flag != CellType::Empty,
    ensures
        take_type_spec(set_type_spec(c, flag), flag) == (c, Some(())),
{
}

/// A cell that already holds something keeps it whatever type is set.
pub proof fn lemma_set_type_keeps_filled(c: Cell, flag: CellType)
    requires
        c.m_type != CellType::Empty,
    ensures
        set_type_spec(c, flag) == c,
{
}

/// A type can be taken from a cell only once.
pub proof fn lemma_take_twice(c: Cell, flag: CellType)
    requires
        flag != CellType::Empty,
    ensures
        take_type_spec(take_type_spec(c, flag).0, flag).1 is None,
{
}

/// A faction that takes a cell stands on it, and a second insect of that
/// faction shares it under the same registration. When one of the two
/// leaves, the other still holds the cell; when both have left, it is free.
pub proof fn lemma_occupy_then_share(c: Cell, a: Occupant, b: Occupant)
    requires
        c.occupied is None,
        a.0 == b.0,
    ensures
        try_occupy_spec(c, a).1 == Some(a),
        occupied_faction_spec(try_occupy_spec(c, a).0) == a.0,
        try_occupy_spec(try_occupy_spec(c, a).0, b) == (
            Cell { holders: 2, ..try_occupy_spec(c, a).0 },
            Some(a),
        ),
        release_spec(try_occupy_spec(try_occupy_spec(c, a).0, b).0) == try_occupy_spec(c, a).0,
        release_spec(release_spec(try_occupy_spec(try_occupy_spec(c, a).0, b).0)) == (Cell {
            occupied: None,
            holders: 0,
            ..c
        }),
{
}

/// An enemy that tries to take an occupied cell fails, and leaves its own
/// faction as the mark on the cell, over the id of the insect that stood
/// there.
pub proof fn lemma_enemy_marks(c: Cell, enemy: Occupant)
    requires
        c.occupied is Some,
        occupied_faction_spec(c) != enemy.0,
    ensures
        try_occupy_spec(c, enemy).1 is None,
        occupied_faction_spec(try_occupy_spec(c, enemy).0) == enemy.0,
        occupant_id(try_occupy_spec(c, enemy).0) == occupant_id(c),
        try_occupy_spec(c, enemy).0.m_type == c.m_type,
{
}

/// What an insect sees of a cell.
pub struct Sight {
    pub cell_type: CellType,
    pub faction: Faction,
}

impl Sight {
    pub fn new(cell_type: CellType, faction: Faction) -> (s: Self)
        ensures
            s.cell_type == cell_type,
            s.faction == faction,
    {
        Self { cell_type, faction }
    }
}

pub enum OccupyError {
    /// Off the board, or a rock.
    Solid,
    /// Another faction stands there; the id is the one registered on the cell.
    Fight(Id),
}

pub struct Board {
    /// The cells, row by row.
    pub cells: Vec<Cell>,
    pub size: Pos,
}

/// Whether `p` lies on the board.
pub open spec fn on_board(p: Pos) -> bool {
    0 <= p.x < SQUARES && 0 <= p.y < SQUARES
}

/// Where cell `p` is stored.
pub open spec fn index(p: Pos) -> int {
    p.y * 128 + p.x
}

/// The board's cells after `occupy(pos, who)`, and its result.
pub open spec fn occupy_spec(m: Seq<Cell>, pos: Pos, who: Occupant) -> (
    Seq<Cell>,
    Result<(), OccupyError>,
) {
    if !on_board(pos) {
        (m, Err(OccupyError::Solid))
    } else if m[index(pos)].m_type == CellType::Rock {
        (m, Err(OccupyError::Solid))
    } else {
        let c = m[index(pos)];
        let (c2, r) = try_occupy_spec(c, who);
        match r {
            Some(_) => (m.update(index(pos), c2), Ok(())),
            None => (m.update(index(pos), c2), Err(OccupyError::Fight(occupant_id(c)))),
        }
    }
}

/// The board's cells after `free(pos, who)`: when the cell is registered
/// under `who`'s id, one holder leaves it, and the registration goes with
/// the last one.
pub open spec fn free_spec(m: Seq<Cell>, pos: Pos, who: Occupant) -> Seq<Cell> {
    if on_board(pos) && m[index(pos)].occupied is Some && occupant_id(m[index(pos)]) == who.1 {
        m.update(index(pos), release_spec(m[index(pos)]))
    } else {
        m
    }
}

/// The board's cells after `reclaim(pos, faction)`: a registration on the
/// cell is put back under `faction`, keeping its id and holders.
pub open spec fn reclaim_spec(m: Seq<Cell>, pos: Pos, faction: Faction) -> Seq<Cell> {
    if on_board(pos) && m[index(pos)].occupied is Some {
        m.update(
            index(pos),
            Cell { occupied: Some((faction, occupant_id(m[index(pos)]))), ..m[index(pos)] },
        )
    } else {
        m
    }
}

/// What `sight(pos)` reports.
pub open spec fn sight_spec(m: Seq<Cell>, pos: Pos) -> (CellType, Faction) {
    if on_board(pos) {
        (m[index(pos)].m_type, occupied_faction_spec(m[index(pos)]))
    } else {
        (CellType::Wall, FACTION_NONE)
    }
}

/// The board's cells after setting `t` along a walk that starts at `pos`
/// and follows `steps`, staying put where a step would leave the board:
/// one cell is marked per step, the last step moves nowhere that is marked.
pub open spec fn walk_spec(m: Seq<Cell>, t: CellType, pos: Pos, steps: Seq<Pos>) -> Seq<Cell>
    decreases steps.len(),
{
    if steps.len() == 0 {
        m
    } else {
        let m1 = m.update(index(pos), set_type_spec(m[index(pos)], t));
        let np = pos_add(pos, steps[0]);
        walk_spec(m1, t, if on_board(np) { np } else { pos }, steps.drop_first())
    }
}

/// Every cell holds nothing but empty ground, rock or food, and nobody
/// stands or holds anywhere.
pub open spec fn fresh_cells(m: Seq<Cell>) -> bool {
    forall|i: int|
        0 <= i < m.len() ==> {
            &&& (#[trigger] m[i]).occupied is None
            &&& m[i].holders == 0
            &&& (m[i].m_type == CellType::Empty || m[i].m_type == CellType::Rock || m[i].m_type
                == CellType::Food)
        }
}

impl View for Board {
    type V = Seq<Cell>;

    open spec fn view(&self) -> Seq<Cell> {
        self.cells@
    }
}

/// A walk that a bunch is dropped along: it starts on the board and takes
/// 10 to 69 unit steps.
pub open spec fn is_walk(start: Pos, steps: Seq<Pos>) -> bool {
    &&& on_board(start)
    &&& 10 <= steps.len() < 70
    &&& forall|k: int| 0 <= k < steps.len() ==> is_dir(#[trigger] steps[k])
}

/// The cells `m` after bunches of `t` are dropped along the walks `ws`, in
/// order.
pub open spec fn walks(m: Seq<Cell>, t: CellType, ws: Seq<(Pos, Seq<Pos>)>) -> Seq<Cell>
    decreases ws.len(),
{
    if ws.len() == 0 {
        m
    } else {
        walk_spec(walks(m, t, ws.drop_last()), t, ws.last().0, ws.last().1)
    }
}

/// Every one of `ws` is a walk that a bunch is dropped along.
pub open spec fn all_walks(ws: Seq<(Pos, Seq<Pos>)>) -> bool {
    forall|k: int| 0 <= k < ws.len() ==> is_walk(#[trigger] ws[k].0, ws[k].1)
}

/// The cells of a board on which nothing has happened yet: empty ground,
/// and nobody stands anywhere.
pub open spec fn empty_cells() -> Seq<Cell> {
    Seq::new(NUM_CELLS as nat, |i: int| Cell { m_type: CellType::Empty, occupied: None, holders: 0 })
}

/// The cells of a new board: ten bunches of rock and then ten bunches of
/// food dropped on empty ground.
pub open spec fn is_new_board(m: Seq<Cell>) -> bool {
    exists|rocks: Seq<(Pos, Seq<Pos>)>, foods: Seq<(Pos, Seq<Pos>)>|
        rocks.len() == 10 && foods.len() == 10 && all_walks(rocks) && all_walks(foods) && m
            == #[trigger] walks(walks(empty_cells(), CellType::Rock, rocks), CellType::Food, foods)
}

/// What a tick with the roll `roll` does to the board's cells `m`: a roll
/// of 0 drops a bunch of food along a walk, any other leaves them as they
/// are.
pub open spec fn food_tick_with(m: Seq<Cell>, m2: Seq<Cell>, roll: u32) -> bool {
    &&& roll == 0 ==> exists|start: Pos, steps: Seq<Pos>|
        is_walk(start, steps) && m2 == #[trigger] walk_spec(m, CellType::Food, start, steps)
    &&& roll != 0 ==> m2 == m
}

/// What a tick does to the board's cells `m`: nothing, or a bunch of food
/// dropped along a walk.
#[verifier::opaque]
pub open spec fn food_tick(m: Seq<Cell>, m2: Seq<Cell>) -> bool {
    m2 == m || exists|start: Pos, steps: Seq<Pos>|
        is_walk(start, steps) && m2 == walk_spec(m, CellType::Food, start, steps)
}

impl Board {
    /// The board has its fixed size and one cell per position.
    pub open spec fn wf(&self) -> bool {
        &&& self.cells@.len() == NUM_CELLS
        &&& self.size == Pos { x: SQUARES, y: SQUARES }
    }

    /// The cell at position `p`.
    pub open spec fn cell(&self, p: Pos) -> Cell {
        self.cells@[index(p)]
    }

    /// A board of empty, unoccupied cells.
    pub fn empty() -> (map: Self)
        ensures
            map.wf(),
            forall|i: int|
                0 <= i < NUM_CELLS ==> (#[trigger] map@[i]).m_type == CellType::Empty
                    && map@[i].occupied is None && map@[i].holders == 0,
    {
        let mut cells: Vec<Cell> = Vec::new();
        let mut i: usize = 0;
        while i < NUM_CELLS
            invariant
                i <= NUM_CELLS,
                cells@.len() == i,
                forall|j: int|
                    0 <= j < i ==> (#[trigger] cells@[j]).m_type == CellType::Empty
                        && cells@[j].occupied is None && cells@[j].holders == 0,
            decreases NUM_CELLS - i,
        {
            cells.push(Cell::default());
            i += 1;
        }
        Board { cells, size: Pos::new(SQUARES, SQUARES) }
    }

    /// A board with ten random rock piles and then ten random food piles.
    pub fn new() -> (map: Self)
        ensures
            map.wf(),
            fresh_cells(map@),
            is_new_board(map@),
    {
        let mut map = Self::empty();
        assert(map@ =~= empty_cells());
        let ghost mut rocks: Seq<(Pos, Seq<Pos>)> = Seq::empty();
        let mut i: usize = 0;
        while i < 10
            invariant
                map.wf(),
                fresh_cells(map@),
                i <= 10,
                rocks.len() == i,
                all_walks(rocks),
                map@ == walks(empty_cells(), CellType::Rock, rocks),
            decreases 10 - i,
        {
            let ghost before = map@;
            map.drop_rand_bunch(CellType::Rock);
            proof {
                let (start, steps) = choose|start: Pos, steps: Seq<Pos>|
                    is_walk(start, steps) && map@ == walk_spec(before, CellType::Rock, start, steps);
                lemma_walk_keeps_fresh(before, CellType::Rock, start, steps);
                let r0 = rocks;
                rocks = rocks.push((start, steps));
                assert(rocks.drop_last() =~= r0);
            }
            i += 1;
        }
        let ghost rock_board = map@;
        let ghost mut foods: Seq<(Pos, Seq<Pos>)> = Seq::empty();
        let mut i: usize = 0;
        while i < 10
            invariant
                map.wf(),
                fresh_cells(map@),
                i <= 10,
                foods.len() == i,
                all_walks(foods),
                rocks.len() == 10,
                all_walks(rocks),
                rock_board == walks(empty_cells(), CellType::Rock, rocks),
                map@ == walks(rock_board, CellType::Food, foods),
            decreases 10 - i,
        {
            let ghost before = map@;
            map.drop_rand_bunch(CellType::Food);
            proof {
                let (start, steps) = choose|start: Pos, steps: Seq<Pos>|
                    is_walk(start, steps) && map@ == walk_spec(before, CellType::Food, start, steps);
                lemma_walk_keeps_fresh(before, CellType::Food, start, steps);
                let f0 = foods;
                foods = foods.push((start, steps));
                assert(foods.drop_last() =~= f0);
            }
            i += 1;
        }
        assert(map@ == walks(walks(empty_cells(), CellType::Rock, rocks), CellType::Food, foods));
        map
    }

    pub fn rand_pos(&self) -> (p: Pos)
        requires
            self.wf(),
        ensures
            on_board(p),
    {
        Pos::rand(self.size)
    }

    /// Sets `t` along a random walk of 10 to 69 steps from a random cell.
    pub fn drop_rand_bunch(&mut self, t: CellType)
        requires
            old(self).wf(),
        ensures
            final(self).wf(),
            exists|start: Pos, steps: Seq<Pos>|
                is_walk(start, steps) && final(self)@ == #[trigger] walk_spec(old(self)@, t, start, steps),
    {
        let start = self.rand_pos();
        let n = gen_range_u32(10, 70);
        let mut steps: Vec<Pos> = Vec::new();
        let mut i: u32 = 0;
        while i < n
            invariant
                i <= n,
                steps@.len() == i,
                forall|k: int| 0 <= k < steps@.len() ==> is_dir(#[trigger] steps@[k]),
            decreases n - i,
        {
            steps.push(dirs::rand());
            i += 1;
        }
        self.drop_bunch_along(t, start, &steps);
    }

    /// Sets `t` (where the cell is empty) on each cell of the walk from
    /// `start` along `steps`; a step that would leave the board is skipped.
    pub fn drop_bunch_along(&mut self, t: CellType, start: Pos, steps: &Vec<Pos>)
        requires
            old(self).wf(),
            on_board(start),
            forall|k: int| 0 <= k < steps@.len() ==> is_dir(#[trigger] steps@[k]),
        ensures
            final(self).wf(),
            final(self)@ == walk_spec(old(self)@, t, start, steps@),
    {
        let ghost goal = walk_spec(self@, t, start, steps@);
        assert(steps@.skip(0) =~= steps@);
        let mut pos = start;
        let mut i: usize = 0;
        while i < steps.len()
            invariant
                self.wf(),
                on_board(pos),
                i <= steps@.len(),
                forall|k: int| 0 <= k < steps@.len() ==> is_dir(#[trigger] steps@[k]),
                walk_spec(self@, t, pos, steps@.skip(i as int)) == goal,
            decreases steps@.len() - i,
        {
            let ghost before = self@;
            let ghost rest = steps@.skip(i as int);
            assert(rest[0] == steps@[i as int]);
            assert(rest.drop_first() =~= steps@.skip(i + 1));
            let idx = (pos.y as usize) * 128 + pos.x as usize;
            self.cells[idx].set_type(t);
            let step = steps[i];
            assert(is_dir(step));
            let new_pos = pos + step;
            if self.is_valid(new_pos) {
                pos = new_pos;
            }
            i += 1;
        }
        assert(steps@.skip(steps@.len() as int) =~= Seq::<Pos>::empty());
    }

    /// A tick with the roll `roll`: a bunch of food is dropped along a random
    /// walk when the roll is 0; any other roll leaves the board as it is.
    pub fn update_with(&mut self, roll: u32)
        requires
            old(self).wf(),
        ensures
            final(self).wf(),
            food_tick_with(old(self)@, final(self)@, roll),
    {
        if roll == 0 {
            self.drop_rand_bunch(CellType::Food);
        }
    }

    /// Drops a bunch of food, one time in fifty: the roll is drawn from
    /// `0..50`.
    pub fn update(&mut self)
        requires
            old(self).wf(),
        ensures
            final(self).wf(),
            exists|roll: u32| roll < 50 && #[trigger] food_tick_with(old(self)@, final(self)@, roll),
            food_tick(old(self)@, final(self)@),
    {
        reveal(food_tick);
        let roll = gen_range_u32(0, 50);
        self.update_with(roll);
    }

    pub fn is_valid(&self, pos: Pos) -> (r: bool)
        requires
            self.wf(),
        ensures
            r == on_board(pos),
    {
        pos.x >= 0 && pos.x < self.size.x && pos.y >= 0 && pos.y < self.size.y
    }

    pub fn get_cell_mut(&mut self, pos: Pos) -> (r: Option<&mut Cell>)
        requires
            old(self).wf(),
        ensures
            final(self).size == old(self).size,
            on_board(pos) ==> r is Some && *r->0 == old(self).cell(pos) && final(self)@ == old(
                self,
            )@.update(index(pos), *final(r->0)),
            !on_board(pos) ==> r is None && final(self)@ == old(self)@,
    {
        if self.is_valid(pos) {
            let idx = (pos.y as usize) * 128 + pos.x as usize;
            Some(&mut self.cells[idx])
        } else {
            None
        }
    }

    pub fn get_cell(&self, pos: Pos) -> (r: Option<&Cell>)
        requires
            self.wf(),
        ensures
            on_board(pos) ==> r is Some && *r->0 == self.cell(pos),
            !on_board(pos) ==> r is None,
    {
        if self.is_valid(pos) {
            let idx = (pos.y as usize) * 128 + pos.x as usize;
            Some(&self.cells[idx])
        } else {
            None
        }
    }

    /// Moves `who` onto `next_pos` as far as the board is concerned.
    pub fn occupy(&mut self, next_pos: Pos, who: Occupant) -> (r: Result<(), OccupyError>)
        requires
            old(self).wf(),
        ensures
            final(self).wf(),
            (final(self)@, r) == occupy_spec(old(self)@, next_pos, who),
    {
        if !self.is_valid(next_pos) {
            return Err(OccupyError::Solid);
        }
        let idx = (next_pos.y as usize) * 128 + next_pos.x as usize;
        if self.cells[idx].m_type == CellType::Rock {
            return Err(OccupyError::Solid);
        }
        let holder = self.cells[idx].occupied;
        let mut cell = self.cells[idx];
        let r = cell.try_occupy(who);
        self.cells.set(idx, cell);
        match r {
            Some(_) => Ok(()),
            None => {
                assert(holder is Some);
                Err(OccupyError::Fight(holder.unwrap().1))
            },
        }
    }

    /// One holder registered under `who`'s id leaves `pos`; the cell is
    /// vacated when it was the last. Says whether the cell was registered
    /// under that id.
    pub fn free(&mut self, pos: Pos, who: Occupant) -> (r: bool)
        requires
            old(self).wf(),
        ensures
            final(self).wf(),
            final(self)@ == free_spec(old(self)@, pos, who),
            r == (on_board(pos) && old(self)@[index(pos)].occupied is Some && occupant_id(
                old(self)@[index(pos)],
            ) == who.1),
    {
        if !self.is_valid(pos) {
            return false;
        }
        let idx = (pos.y as usize) * 128 + pos.x as usize;
        match self.cells[idx].occupied {
            Some(o) => {
                if o.1 == who.1 {
                    let old_cell = self.cells[idx];
                    let cell = if old_cell.holders <= 1 {
                        Cell { occupied: None, holders: 0, ..old_cell }
                    } else {
                        Cell { holders: old_cell.holders - 1, ..old_cell }
                    };
                    self.cells.set(idx, cell);
                    true
                } else {
                    false
                }
            },
            None => false,
        }
    }

    /// Puts a registration on `pos` back under `faction` (as an insect does
    /// that finds an enemy's mark on its cell), keeping its id and holders.
    pub fn reclaim(&mut self, pos: Pos, faction: Faction)
        requires
            old(self).wf(),
        ensures
            final(self).wf(),
            final(self)@ == reclaim_spec(old(self)@, pos, faction),
    {
        if !self.is_valid(pos) {
            return;
        }
        let idx = (pos.y as usize) * 128 + pos.x as usize;
        match self.cells[idx].occupied {
            Some(o) => {
                let cell = Cell { occupied: Some((faction, o.1)), ..self.cells[idx] };
                self.cells.set(idx, cell);
            },
            None => {},
        }
    }

    pub fn sight(&self, pos: Pos) -> (s: Sight)
        requires
            self.wf(),
        ensures
            (s.cell_type, s.faction) == sight_spec(self@, pos),
    {
        match self.get_cell(pos) {
            Some(cell) => Sight::new(cell.m_type, cell.occupied_faction()),
            None => Sight::new(CellType::Wall, FACTION_NONE),
        }
    }
}

/// Every position on the board has a cell of its own.
pub proof fn lemma_cells_distinct(map: Board, p: Pos, q: Pos)
    requires
        map.wf(),
        on_board(p),
        on_board(q),
    ensures
        0 <= index(p) < map@.len(),
        index(p) == index(q) ==> p == q,
{
}

/// Setting rock, food or nothing along a walk keeps a fresh board fresh.
pub proof fn lemma_walk_keeps_fresh(m: Seq<Cell>, t: CellType, pos: Pos, steps: Seq<Pos>)
    requires
        m.len() == NUM_CELLS,
        fresh_cells(m),
        on_board(pos),
        t == CellType::Empty || t == CellType::Rock || t == CellType::Food,
    ensures
        fresh_cells(walk_spec(m, t, pos, steps)),
        walk_spec(m, t, pos, steps).len() == NUM_CELLS,
    decreases steps.len(),
{
    if steps.len() > 0 {
        let m1 = m.update(index(pos), set_type_spec(m[index(pos)], t));
        let np = pos_add(pos, steps[0]);
        lemma_walk_keeps_fresh(m1, t, if on_board(np) { np } else { pos }, steps.drop_first());
    }
}

/// An insect that takes a free, passable cell (one nobody holds) and then
/// leaves it puts the board back as it was.
pub proof fn lemma_occupy_then_free(m: Seq<Cell>, pos: Pos, who: Occupant)
    requires
        m.len() == NUM_CELLS,
        on_board(pos),
        m[index(pos)].occupied is None,
        m[index(pos)].holders == 0,
        m[index(pos)].m_type != CellType::Rock,
    ensures
        occupy_spec(m, pos, who).1 is Ok,
        free_spec(occupy_spec(m, pos, who).0, pos, who) == m,
{
    let m1 = occupy_spec(m, pos, who).0;
    assert(free_spec(m1, pos, who) =~= m);
}

/// Off the board there is a wall that nobody stands on, and nothing can be
/// occupied there.
pub proof fn lemma_off_board(m: Seq<Cell>, pos: Pos, who: Occupant)
    requires
        !on_board(pos),
    ensures
        sight_spec(m, pos) == (CellType::Wall, FACTION_NONE),
        occupy_spec(m, pos, who) == (m, Err::<(), OccupyError>(OccupyError::Solid)),
{
}

} // verus!
