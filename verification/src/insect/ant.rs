//! Ant colonies: workers that fetch food home along scent trails.

use vstd::prelude::*;

use crate::grid::{max_u8, sat_sub1};
use crate::insect::{
    base_update_spec, Event, is_neighbour, lemma_seen_neighbours, move_random_spec, perception_matches,
    seen, BaseInsect, Perception,
};
use crate::map::Sight;
use crate::map::{index, on_board, set_type_spec, take_type_spec, Board, Cell, CellType, Faction, NUM_CELLS};
use crate::pos::dirs::{invert, invert_spec, is_dir};
use crate::pos::Pos;
use crate::rng::rand_u32;

verus! {

pub type Food = usize;

#[derive(Debug, Clone, Copy, PartialEq, Eq, Structural)]
pub enum Scents {
    Food,
    Nest,
    Len,
}

/// Where a scent is kept in a scent cell.
pub open spec fn scent_slot(s: Scents) -> int {
    match s {
        Scents::Food => 0,
        Scents::Nest => 1,
        Scents::Len => 2,
    }
}

#[derive(Debug, Clone, Copy)]
pub struct ScentCell {
    scents: [u8; 2],
}

impl View for ScentCell {
    type V = Seq<u8>;

    closed spec fn view(&self) -> Seq<u8> {
        self.scents@
    }
}

impl Default for ScentCell {
    fn default() -> (c: Self)
        ensures
            c@ == seq![0u8, 0u8],
    {
        let c = ScentCell { scents: [0, 0] };
        assert(c@ =~= seq![0u8, 0u8]);
        c
    }
}

/// A scent cell after `drop_scent(scent, val)`: the scent is raised to `val`.
pub open spec fn dropped(c: Seq<u8>, scent: Scents, val: u8) -> Seq<u8> {
    c.update(scent_slot(scent), max_u8(c[scent_slot(scent)], val))
}

/// A scent cell after one tick: the food scent fades by one.
pub open spec fn faded(c: Seq<u8>) -> Seq<u8> {
    c.update(0, sat_sub1(c[0]))
}

impl ScentCell {
    /// A scent cell holds one level per scent.
    pub proof fn lemma_len(&self)
        ensures
            self@.len() == 2,
    {
    }

    pub fn get_scent(&self, scent: Scents) -> (r: u8)
        requires
            scent != Scents::Len,
        ensures
            r == self@[scent_slot(scent)],
    {
        match scent {
            Scents::Food => self.scents[0],
            _ => self.scents[1],
        }
    }

    /// Raises `scent` to `val` (a stronger scent already there stays) and
    /// returns the scent now there, less one.
    pub fn drop_scent(&mut self, scent: Scents, val: u8) -> (r: u8)
        requires
            scent != Scents::Len,
        ensures
            final(self)@ == dropped(old(self)@, scent, val),
            r == sat_sub1(max_u8(old(self)@[scent_slot(scent)], val)),
    {
        let i: usize = match scent {
            Scents::Food => 0,
            _ => 1,
        };
        let cur = self.scents[i];
        let new_val = if cur >= val {
            cur
        } else {
            val
        };
        self.scents[i] = new_val;
        assert(self@ =~= dropped(old(self)@, scent, val));
        new_val.saturating_sub(1)
    }

    /// One tick: the food scent fades by one; the nest scent stays.
    pub fn update(&mut self)
        ensures
            final(self)@ == faded(old(self)@),
    {
        self.scents[0] = self.scents[0].saturating_sub(1);
        assert(self@ =~= faded(old(self)@));
    }
}

/// Dropping a scent never weakens it, dropping the same scent again changes
/// nothing, the other scent is left alone, and what `drop_scent` returns is
/// the level now there less one.
pub proof fn lemma_drop_scent(c: Seq<u8>, scent: Scents, other: Scents, val: u8)
    requires
        c.len() == 2,
        scent != Scents::Len,
        other != Scents::Len,
        other != scent,
    ensures
        dropped(c, scent, val)[scent_slot(scent)] >= c[scent_slot(scent)],
        dropped(c, scent, val)[scent_slot(scent)] >= val,
        dropped(dropped(c, scent, val), scent, val) == dropped(c, scent, val),
        dropped(c, scent, val)[scent_slot(other)] == c[scent_slot(other)],
{
    assert(dropped(dropped(c, scent, val), scent, val) =~= dropped(c, scent, val));
}

/// A tick fades the food scent by one (down to nothing) and leaves the nest
/// scent as it was.
pub proof fn lemma_fade(c: Seq<u8>)
    requires
        c.len() == 2,
    ensures
        faded(c)[scent_slot(Scents::Food)] == sat_sub1(c[scent_slot(Scents::Food)]),
        faded(c)[scent_slot(Scents::Nest)] == c[scent_slot(Scents::Nest)],
{
}

/// Scent cells laid over the whole board.
#[derive(Debug)]
pub struct ScentGrid {
    pub grid: Vec<ScentCell>,
}

impl View for ScentGrid {
    type V = Seq<Seq<u8>>;

    open spec fn view(&self) -> Seq<Seq<u8>> {
        self.grid@.map_values(|c: ScentCell| c@)
    }
}

/// How strong `scent` is at `pos`: nothing off the board.
pub open spec fn smell_spec(g: Seq<Seq<u8>>, pos: Pos, scent: Scents) -> u8 {
    if on_board(pos) {
        g[index(pos)][scent_slot(scent)]
    } else {
        0
    }
}

impl ScentGrid {
    pub open spec fn wf(&self) -> bool {
        &&& self.grid@.len() == NUM_CELLS
        &&& forall|i: int| 0 <= i < NUM_CELLS ==> #[trigger] self@[i].len() == 2
    }

    /// A scent grid with no scent anywhere.
    pub fn new() -> (g: Self)
        ensures
            g.wf(),
            forall|i: int| 0 <= i < NUM_CELLS ==> #[trigger] g@[i] == seq![0u8, 0u8],
    {
        let mut grid: Vec<ScentCell> = Vec::new();
        let mut i: usize = 0;
        while i < NUM_CELLS
            invariant
                i <= NUM_CELLS,
                grid@.len() == i,
                forall|j: int| 0 <= j < i ==> (#[trigger] grid@[j])@ == seq![0u8, 0u8],
            decreases NUM_CELLS - i,
        {
            grid.push(ScentCell::default());
            i += 1;
        }
        ScentGrid { grid }
    }

    pub fn get(&self, pos: Pos) -> (r: Option<&ScentCell>)
        requires
            self.wf(),
        ensures
            on_board(pos) ==> r is Some && (*r->0)@ == self@[index(pos)],
            !on_board(pos) ==> r is None,
    {
        if pos.x >= 0 && pos.x < 128 && pos.y >= 0 && pos.y < 128 {
            let idx = (pos.y as usize) * 128 + pos.x as usize;
            Some(&self.grid[idx])
        } else {
            None
        }
    }

    /// Drops `val` of `scent` at `pos` (see `ScentCell::drop_scent`).
    pub fn drop_at(&mut self, pos: Pos, scent: Scents, val: u8) -> (r: u8)
        requires
            old(self).wf(),
            on_board(pos),
            scent != Scents::Len,
        ensures
            final(self).wf(),
            final(self)@ == old(self)@.update(index(pos), dropped(old(self)@[index(pos)], scent, val)),
            r == sat_sub1(max_u8(old(self)@[index(pos)][scent_slot(scent)], val)),
    {
        let idx = (pos.y as usize) * 128 + pos.x as usize;
        let mut c = self.grid[idx];
        let r = c.drop_scent(scent, val);
        self.grid.set(idx, c);
        assert(self@ =~= old(self)@.update(index(pos), dropped(old(self)@[index(pos)], scent, val)));
        r
    }

    /// One tick: every food scent fades by one.
    pub fn update(&mut self)
        requires
            old(self).wf(),
        ensures
            final(self).wf(),
            forall|i: int| 0 <= i < NUM_CELLS ==> #[trigger] final(self)@[i] == faded(old(self)@[i]),
    {
        let mut i: usize = 0;
        while i < self.grid.len()
            invariant
                self.grid@.len() == NUM_CELLS,
                i <= NUM_CELLS,
                old(self).grid@.len() == NUM_CELLS,
                forall|j: int| 0 <= j < i ==> (#[trigger] self.grid@[j])@ == faded(old(self).grid@[j]@),
                forall|j: int| i <= j < NUM_CELLS ==> #[trigger] self.grid@[j] == old(self).grid@[j],
            decreases NUM_CELLS - i,
        {
            let mut c = self.grid[i];
            c.update();
            self.grid.set(i, c);
            i += 1;
        }
        assert forall|j: int| 0 <= j < NUM_CELLS implies #[trigger] self@[j].len() == 2 by {
            self.grid@[j].lemma_len();
        }
    }
}

pub const STARTING_FOOD: Food = 32;

pub const STARTING_ANTS: usize = 32;

#[derive(Debug, Clone, Copy)]
pub struct Ant {
    pub insect: BaseInsect,
    pub food: Option<()>,
    /// How strongly the ant still smells of its nest.
    pub nest_scent: u8,
    pub food_scent: u8,
}

pub open spec fn sat_add_u8(a: u8, b: u8) -> u8 {
    if a + b > u8::MAX {
        u8::MAX
    } else {
        (a + b) as u8
    }
}

/// The food scent an ant lays on its way home: about two and a tenth times
/// its distance from the nest, as told by how much nest scent it has lost,
/// plus ten.
pub open spec fn trail_strength(nest_scent: u8) -> u8 {
    let d = (u8::MAX - nest_scent) as u8;
    sat_add_u8(sat_add_u8(sat_add_u8(d, d), (d / 10) as u8), 10)
}

/// `update_scents`: a carrying ant sets its food scent from its distance
/// home; it leaves its food scent and its nest scent on its cell, and picks
/// up the nest scent there (less one).
pub open spec fn ant_scents_spec(a: Ant, g: Seq<Seq<u8>>) -> (Ant, Seq<Seq<u8>>) {
    let i = index(a.insect.pos);
    let fs = if a.food is Some {
        trail_strength(a.nest_scent)
    } else {
        a.food_scent
    };
    let c1 = dropped(g[i], Scents::Food, fs);
    let c2 = dropped(c1, Scents::Nest, a.nest_scent);
    (
        Ant { food_scent: fs, nest_scent: sat_sub1(max_u8(c1[1], a.nest_scent)), ..a },
        g.update(i, c2),
    )
}

/// The trail a carrying ant lays, in plain numbers: with `d = 255 -
/// nest_scent` its distance from home, the strength is `2d + d/10 + 10`,
/// capped at 255.
pub open spec fn trail_formula(nest_scent: u8) -> int {
    let d = 255 - nest_scent;
    let v = 2 * d + d / 10 + 10;
    if v >= 255 {
        255
    } else {
        v
    }
}

/// The trail strength is `2d + d/10 + 10` for a distance `d` from home,
/// and 255 once that reaches 255; so it never weakens as the ant gets
/// farther from home.
pub proof fn lemma_trail_strength(nest_scent: u8, farther: u8)
    ensures
        trail_strength(nest_scent) == trail_formula(nest_scent),
        farther <= nest_scent ==> trail_strength(farther) >= trail_strength(nest_scent),
{
    let d = 255 - nest_scent;
    let d2 = 255 - farther;
    assert(d / 10 <= 25);
    assert(farther <= nest_scent ==> d2 / 10 >= d / 10) by {
        if farther <= nest_scent {
            vstd::arithmetic::div_mod::lemma_div_is_ordered(d as int, d2 as int, 10);
        }
    }
}

/// A carrying ant sets its food scent to the trail strength for its
/// distance from home and leaves at least that much food scent on its
/// cell; an ant without food keeps its food scent.
pub proof fn lemma_carrying_ant_lays_its_trail(a: Ant, g: Seq<Seq<u8>>)
    requires
        on_board(a.insect.pos),
        g.len() == NUM_CELLS,
        g[index(a.insect.pos)].len() == 2,
    ensures
        a.food is Some ==> ant_scents_spec(a, g).0.food_scent == trail_formula(a.nest_scent),
        a.food is Some ==> ant_scents_spec(a, g).1[index(a.insect.pos)][scent_slot(Scents::Food)]
            >= trail_formula(a.nest_scent),
        a.food is None ==> ant_scents_spec(a, g).0.food_scent == a.food_scent,
{
    lemma_trail_strength(a.nest_scent, a.nest_scent);
}

/// What an ant looks for: its nest while it carries food, food otherwise.
pub open spec fn seeking_spec(a: Ant, faction: Faction) -> (Scents, CellType) {
    if a.food is Some {
        (Scents::Nest, CellType::Nest(faction))
    } else {
        (Scents::Food, CellType::Food)
    }
}

/// `update_behaviour`: at its own nest a carrying ant drops its food into
/// the colony's store, turns round and smells strongly of home again; away
/// from it an empty-handed ant on food takes it, eating it if it is very
/// hungry and otherwise turning round to carry it home.
pub open spec fn ant_behaviour_spec(a: Ant, m: Seq<Cell>, food: Food, faction: Faction) -> (
    Ant,
    Seq<Cell>,
    Food,
    (Scents, CellType),
) {
    let i = index(a.insect.pos);
    let c = m[i];
    let (a1, m1, f1) = if c.m_type == CellType::Nest(faction) {
        if a.food is Some {
            (
                Ant {
                    food: None,
                    nest_scent: (u8::MAX - 1) as u8,
                    food_scent: 0,
                    insect: BaseInsect { dir: invert_spec(a.insect.dir), ..a.insect },
                },
                m,
                (food + 1) as usize,
            )
        } else {
            (a, m, food)
        }
    } else if a.food is None {
        let (c2, r) = take_type_spec(c, CellType::Food);
        if r is Some {
            if a.insect.hunger < 63 {
                (Ant { insect: BaseInsect { hunger: 255, ..a.insect }, ..a }, m.update(i, c2), food)
            } else {
                (
                    Ant {
                        food: Some(()),
                        insect: BaseInsect { dir: invert_spec(a.insect.dir), ..a.insect },
                        ..a
                    },
                    m.update(i, c2),
                    food,
                )
            }
        } else {
            (a, m, food)
        }
    } else {
        (a, m, food)
    };
    (a1, m1, f1, seeking_spec(a1, faction))
}

/// The colony's store grows only by a delivery: it grows (by one) exactly
/// when the ant carries food and stands on its own faction's nest, and then
/// the ant gives up its food and goes looking for more. Anywhere else (an
/// enemy's nest included) the store stays as it was, and a carrying ant
/// keeps its food and looks for its own nest.
pub proof fn lemma_store_grows_only_at_own_nest(a: Ant, m: Seq<Cell>, food: Food, faction: Faction)
    requires
        food < usize::MAX,
    ensures
        ({
            let (a1, m1, f1, seeking) = ant_behaviour_spec(a, m, food, faction);
            let delivers = a.food is Some && m[index(a.insect.pos)].m_type == CellType::Nest(faction);
            &&& delivers ==> f1 == food + 1 && a1.food is None && seeking == (
                Scents::Food,
                CellType::Food,
            )
            &&& !delivers ==> f1 == food
            &&& !delivers && a.food is Some ==> a1.food is Some && seeking == (
                Scents::Nest,
                CellType::Nest(faction),
            )
        }),
{
}

/// The first position from the `k`-th entry on whose cell has type `t`.
pub open spec fn first_of_type(p: Seq<(Pos, (CellType, Faction))>, k: int, t: CellType) -> Option<
    Pos,
>
    decreases p.len() - k,
{
    if k >= p.len() {
        None
    } else if p[k].1.0 == t {
        Some(p[k].0)
    } else {
        first_of_type(p, k + 1, t)
    }
}

/// How strongly each perceived position smells of `scent`.
pub open spec fn smells(p: Seq<(Pos, (CellType, Faction))>, g: Seq<Seq<u8>>, scent: Scents) -> Seq<
    u8,
> {
    Seq::new(p.len(), |k: int| smell_spec(g, p[k].0, scent))
}

pub open spec fn sum_u8(s: Seq<u8>) -> int
    decreases s.len(),
{
    if s.len() == 0 {
        0
    } else {
        sum_u8(s.drop_last()) + s.last()
    }
}

/// Going through the smells from the `k`-th on, the last position with the
/// strongest smell (ties go to the later one); `pos` and `max` are the best
/// so far.
pub open spec fn strongest(p: Seq<(Pos, (CellType, Faction))>, sm: Seq<u8>, k: int, pos: Pos, max: u8) -> Pos
    decreases p.len() - k,
{
    if k >= p.len() {
        pos
    } else if max <= sm[k] {
        strongest(p, sm, k + 1, p[k].0, sm[k])
    } else {
        strongest(p, sm, k + 1, pos, max)
    }
}

/// Whether the ant gets as far as following scents: it sees nothing it is
/// looking for, and the roll `chance` does not send it off at random.
pub open spec fn follows_scents(p: Seq<(Pos, (CellType, Faction))>, seeking: (Scents, CellType), chance: u32) -> bool {
    first_of_type(p, 0, seeking.1) is None && chance >= u32::MAX / 4
}

/// What `update_movement` leaves in the perception `old` it was handed
/// (as `new`): when the ant follows the scents, each entry's faction field
/// holds the smell at its position; otherwise the perception is untouched.
pub open spec fn movement_perception(
    old: Perception,
    new: Perception,
    g: Seq<Seq<u8>>,
    seeking: (Scents, CellType),
    chance: u32,
) -> bool {
    if follows_scents(perception_seq(old), seeking, chance) {
        forall|k: int|
            0 <= k < 5 ==> (#[trigger] new[k]).0 == old[k].0 && new[k].1.cell_type
                == old[k].1.cell_type && new[k].1.faction == smell_spec(g, old[k].0, seeking.0)
    } else {
        new == old
    }
}

/// `update_movement`: go to what the ant looks for if it sees it; otherwise
/// wander a quarter of the time; otherwise go where the scent it follows is
/// strongest, or wander if there is none.
pub open spec fn ant_movement_spec(
    b: BaseInsect,
    p: Seq<(Pos, (CellType, Faction))>,
    g: Seq<Seq<u8>>,
    seeking: (Scents, CellType),
    chance: u32,
    step: u32,
) -> Option<Pos> {
    match first_of_type(p, 0, seeking.1) {
        Some(q) => Some(q),
        None => if chance < u32::MAX / 4 {
            Some(move_random_spec(b, step))
        } else {
            let sm = smells(p, g, seeking.0);
            if sum_u8(sm) == 0 {
                Some(move_random_spec(b, step))
            } else {
                Some(strongest(p, sm, 0, b.pos, 0))
            }
        },
    }
}

/// The perception as a plain sequence.
pub open spec fn perception_seq(p: Perception) -> Seq<(Pos, (CellType, Faction))> {
    Seq::new(5, |k: int| (p[k].0, (p[k].1.cell_type, p[k].1.faction)))
}

/// A whole ant turn: eat from the store when starving, deal with the cell it
/// stands on, lay and pick up scent, choose where to go, and go.
#[verifier::opaque]
pub open spec fn ant_turn_spec(
    a: Ant,
    m: Seq<Cell>,
    g: Seq<Seq<u8>>,
    food: Food,
    faction: Faction,
    chance: u32,
    step: u32,
) -> (Ant, Seq<Cell>, Seq<Seq<u8>>, Food, bool) {
    let fed = a.insect.hunger < 31 && food > 0;
    let a0 = if fed {
        Ant { insect: BaseInsect { hunger: 255, ..a.insect }, ..a }
    } else {
        a
    };
    let food0 = if fed {
        (food - 1) as usize
    } else {
        food
    };
    let (a1, m1, f1, seeking) = ant_behaviour_spec(a0, m, food0, faction);
    let (a2, g2) = ant_scents_spec(a1, g);
    let next = ant_movement_spec(a2.insect, seen(a2.insect, m1), g2, seeking, chance, step);
    let (b3, m3, alive) = base_update_spec(a2.insect, m1, next);
    (Ant { insect: b3, ..a2 }, m3, g2, f1, alive)
}

/// An ant's turn adds at most one food to the store.
pub proof fn lemma_ant_turn_food(
    a: Ant,
    m: Seq<Cell>,
    g: Seq<Seq<u8>>,
    food: Food,
    faction: Faction,
    chance: u32,
    step: u32,
)
    requires
        food < usize::MAX,
    ensures
        ant_turn_spec(a, m, g, food, faction, chance, step).3 <= food + 1,
{
    reveal(ant_turn_spec);
}

proof fn lemma_first_of_type_seen(p: Seq<(Pos, (CellType, Faction))>, k: int, t: CellType)
    requires
        0 <= k <= p.len(),
    ensures
        first_of_type(p, k, t) matches Some(q) ==> exists|j: int| k <= j < p.len() && p[j].0 == q,
    decreases p.len() - k,
{
    if k < p.len() && p[k].1.0 != t {
        lemma_first_of_type_seen(p, k + 1, t);
    }
}

proof fn lemma_strongest_seen(p: Seq<(Pos, (CellType, Faction))>, sm: Seq<u8>, k: int, pos: Pos, max: u8)
    requires
        0 <= k <= p.len(),
        sm.len() == p.len(),
    ensures
        strongest(p, sm, k, pos, max) == pos || exists|j: int|
            k <= j < p.len() && p[j].0 == strongest(p, sm, k, pos, max),
    decreases p.len() - k,
{
    if k < p.len() {
        if max <= sm[k] {
            lemma_strongest_seen(p, sm, k + 1, p[k].0, sm[k]);
        } else {
            lemma_strongest_seen(p, sm, k + 1, pos, max);
        }
    }
}

/// Wherever an ant decides to go, it is one step away.
pub proof fn lemma_movement_neighbour(
    b: BaseInsect,
    m: Seq<Cell>,
    g: Seq<Seq<u8>>,
    seeking: (Scents, CellType),
    chance: u32,
    step: u32,
)
    requires
        b.wf(),
    ensures
        ant_movement_spec(b, seen(b, m), g, seeking, chance, step) matches Some(q) ==> is_neighbour(b, q),
{
    let p = seen(b, m);
    lemma_seen_neighbours(b, m);
    lemma_first_of_type_seen(p, 0, seeking.1);
    let sm = smells(p, g, seeking.0);
    lemma_strongest_seen(p, sm, 0, b.pos, 0);
    crate::insect::lemma_move_random_neighbour(b, step);
    match first_of_type(p, 0, seeking.1) {
        Some(q) => {
            let j = choose|j: int| 0 <= j < p.len() && p[j].0 == q;
            assert(is_neighbour(b, seen(b, m)[j].0));
        },
        None => {
            if chance >= u32::MAX / 4 && sum_u8(sm) != 0 {
                lemma_strongest_moves(p, sm, 0, b.pos, 0);
                let q = strongest(p, sm, 0, b.pos, 0);
                let j = choose|j: int| 0 <= j < p.len() && p[j].0 == q;
                assert(is_neighbour(b, seen(b, m)[j].0));
            }
        },
    }
}

/// With some smell present, the strongest pick is one of the perceived
/// positions.
proof fn lemma_strongest_moves(p: Seq<(Pos, (CellType, Faction))>, sm: Seq<u8>, k: int, pos: Pos, max: u8)
    requires
        0 <= k <= p.len(),
        sm.len() == p.len(),
        max == 0,
        k == 0,
        p.len() > 0,
    ensures
        exists|j: int| 0 <= j < p.len() && p[j].0 == strongest(p, sm, k, pos, max),
{
    lemma_strongest_seen(p, sm, 1, p[0].0, sm[0]);
}

impl Ant {
    pub open spec fn wf(&self) -> bool {
        self.insect.wf()
    }

    pub fn new(pos: Pos, faction: Faction) -> (a: Self)
        requires
            on_board(pos),
        ensures
            is_new_ant(a, pos, faction),
    {
        Self { insect: BaseInsect::new(pos, faction), food: None, food_scent: 0, nest_scent: u8::MAX }
    }

    /// Smell pheromones only.
    pub fn smell(scents: &ScentGrid, pos: Pos, scent: Scents) -> (r: u8)
        requires
            scents.wf(),
            scent != Scents::Len,
        ensures
            r == smell_spec(scents@, pos, scent),
    {
        match scents.get(pos) {
            Some(cell) => cell.get_scent(scent),
            None => 0,
        }
    }

    pub fn update_scents(&mut self, scents: &mut ScentGrid)
        requires
            old(self).wf(),
            old(scents).wf(),
        ensures
            final(scents).wf(),
            (*final(self), final(scents)@) == ant_scents_spec(*old(self), old(scents)@),
    {
        if self.food.is_some() {
            let dist_approx = u8::MAX - self.nest_scent;
            self.food_scent = dist_approx.saturating_add(dist_approx).saturating_add(
                dist_approx / 10,
            ).saturating_add(10);
        }
        let pos = self.insect.pos;
        let _ = scents.drop_at(pos, Scents::Food, self.food_scent);
        // mark nest scent
        self.nest_scent = scents.drop_at(pos, Scents::Nest, self.nest_scent);
        proof {
            let (a2, g2) = ant_scents_spec(*old(self), old(scents)@);
            assert(scents@ =~= g2);
        }
    }

    pub fn update_behaviour(&mut self, map: &mut Board, food: &mut Food, faction: Faction) -> (r: (
        Scents,
        CellType,
    ))
        requires
            old(self).wf(),
            old(map).wf(),
            *old(food) < usize::MAX,
        ensures
            final(self).wf(),
            final(map).wf(),
            (*final(self), final(map)@, *final(food), r) == ant_behaviour_spec(
                *old(self),
                old(map)@,
                *old(food),
                faction,
            ),
    {
        let pos = self.insect.pos;
        let at_nest = match map.get_cell(pos) {
            Some(cell) => cell.is_type(CellType::Nest(faction)),
            None => false,
        };
        if at_nest {
            if self.food.is_some() {
                *food += 1;
                self.food = None;
                self.nest_scent = u8::MAX - 1;
                self.food_scent = 0;
                self.insect.dir = invert(self.insect.dir);
            }
        } else if self.food.is_none() {
            let taken = match map.get_cell_mut(pos) {
                Some(cell) => cell.take_type(CellType::Food),
                None => None,
            };
            if let Some(f) = taken {
                if self.insect.hunger < 63 {
                    // eat it for ourselves
                    self.insect.hunger = 255;
                } else {
                    // take it back to the nest I guess
                    self.food = Some(f);
                    self.insect.dir = invert(self.insect.dir);
                }
            }
        }
        if self.food.is_some() {
            (Scents::Nest, CellType::Nest(faction))
        } else {
            (Scents::Food, CellType::Food)
        }
    }

    /// The first perceived position whose cell is what the ant looks for.
    pub fn seek_visible(&self, perception: &Perception, seeking: (Scents, CellType)) -> (r: Option<
        Pos,
    >)
        ensures
            r == first_of_type(perception_seq(*perception), 0, seeking.1),
    {
        let ghost p = perception_seq(*perception);
        let mut i: usize = 0;
        while i < 5
            invariant
                i <= 5,
                p == perception_seq(*perception),
                first_of_type(p, i as int, seeking.1) == first_of_type(p, 0, seeking.1),
            decreases 5 - i,
        {
            if perception[i].1.cell_type == seeking.1 {
                // found it, no reason not to go there
                return Some(perception[i].0);
            }
            i += 1;
        }
        None
    }

    /// Writes over each perceived faction how strongly its position smells
    /// of the scent the ant follows, and picks the strongest; `None` when
    /// there is no smell at all.
    pub fn follow_scents(&self, perception: &mut Perception, scents: &ScentGrid, seeking: (
        Scents,
        CellType,
    )) -> (r: Option<Pos>)
        requires
            scents.wf(),
            seeking.0 != Scents::Len,
        ensures
            ({
                let p = perception_seq(*old(perception));
                let sm = smells(p, scents@, seeking.0);
                &&& forall|k: int|
                    0 <= k < 5 ==> (#[trigger] final(perception)[k]).0 == old(perception)[k].0
                        && final(perception)[k].1.cell_type == old(perception)[k].1.cell_type
                        && final(perception)[k].1.faction == sm[k]
                &&& sum_u8(sm) == 0 ==> r is None
                &&& sum_u8(sm) != 0 ==> r == Some(strongest(p, sm, 0, self.insect.pos, 0))
            }),
    {
        let ghost p = perception_seq(*perception);
        let ghost sm = smells(p, scents@, seeking.0);
        // smell the cells it perceives
        let mut total: u16 = 0;
        let mut i: usize = 0;
        while i < 5
            invariant
                i <= 5,
                scents.wf(),
                seeking.0 != Scents::Len,
                p == perception_seq(*old(perception)),
                sm == smells(p, scents@, seeking.0),
                total == sum_u8(sm.take(i as int)),
                total <= 255 * i,
                forall|k: int|
                    0 <= k < i ==> (#[trigger] perception[k]).0 == old(perception)[k].0
                        && perception[k].1.cell_type == old(perception)[k].1.cell_type
                        && perception[k].1.faction == sm[k],
                forall|k: int| i <= k < 5 ==> #[trigger] perception[k] == old(perception)[k],
            decreases 5 - i,
        {
            let pos = perception[i].0;
            let t = perception[i].1.cell_type;
            let scent = Self::smell(scents, pos, seeking.0);
            perception[i] = (pos, Sight::new(t, scent));
            assert(sm.take(i + 1).drop_last() =~= sm.take(i as int));
            total += scent as u16;
            i += 1;
        }
        assert(sm.take(5) =~= sm);
        // no scents, just go randomly
        if total == 0 {
            return None;
        }
        // pick a dir based on random chance, but weighted towards the highest scent dir
        let ghost fin = perception_seq(*perception);
        let mut pos: Pos = self.insect.pos;
        let mut max: u8 = 0;
        let mut i: usize = 0;
        while i < 5
            invariant
                i <= 5,
                p == perception_seq(*old(perception)),
                forall|k: int|
                    0 <= k < 5 ==> (#[trigger] perception[k]).0 == old(perception)[k].0
                        && perception[k].1.faction == sm[k],
                strongest(p, sm, i as int, pos, max) == strongest(p, sm, 0, self.insect.pos, 0),
            decreases 5 - i,
        {
            if max <= perception[i].1.faction {
                pos = perception[i].0;
                max = perception[i].1.faction;
            }
            i += 1;
        }
        Some(pos)
    }

    /// `update_movement` for the rolls `chance` (whether to wander off) and
    /// `step` (which way to wander).
    pub fn update_movement_with(
        &self,
        perception: &mut Perception,
        scents: &ScentGrid,
        seeking: (Scents, CellType),
        chance: u32,
        step: u32,
    ) -> (r: Option<Pos>)
        requires
            self.wf(),
            scents.wf(),
            seeking.0 != Scents::Len,
        ensures
            r == ant_movement_spec(
                self.insect,
                perception_seq(*old(perception)),
                scents@,
                seeking,
                chance,
                step,
            ),
            movement_perception(*old(perception), *final(perception), scents@, seeking, chance),
    {
        if let Some(p) = self.seek_visible(perception, seeking) {
            return Some(p);
        }
        if chance < u32::MAX / 4 {
            return Some(self.insect.move_random_with(step));
        }
        match self.follow_scents(perception, scents, seeking) {
            Some(p) => Some(p),
            None => Some(self.insect.move_random_with(step)),
        }
    }

    /// Where the ant goes next: to what it looks for if it sees it; otherwise
    /// at random a quarter of the time; otherwise where the scent it follows
    /// is strongest, or at random if there is none.
    pub fn update_movement(
        &self,
        perception: &mut Perception,
        scents: &ScentGrid,
        seeking: (Scents, CellType),
    ) -> (r: Option<Pos>)
        requires
            self.wf(),
            scents.wf(),
            seeking.0 != Scents::Len,
        ensures
            exists|chance: u32, step: u32|
                r == #[trigger] ant_movement_spec(
                    self.insect,
                    perception_seq(*old(perception)),
                    scents@,
                    seeking,
                    chance,
                    step,
                ) && movement_perception(
                    *old(perception),
                    *final(perception),
                    scents@,
                    seeking,
                    chance,
                ),
    {
        if let Some(p) = self.seek_visible(perception, seeking) {
            assert(Some(p) == ant_movement_spec(self.insect, perception_seq(*old(perception)), scents@, seeking, 0, 0));
            return Some(p);
        }
        // chance to just go randomly
        let val = rand_u32();
        if val < u32::MAX / 4 {
            let step = rand_u32();
            let r = self.insect.move_random_with(step);
            assert(Some(r) == ant_movement_spec(self.insect, perception_seq(*old(perception)), scents@, seeking, val, step));
            return Some(r);
        }
        // didn't see anything interesting, time to go by scents
        match self.follow_scents(perception, scents, seeking) {
            Some(p) => {
                assert(Some(p) == ant_movement_spec(self.insect, perception_seq(*old(perception)), scents@, seeking, val, 0));
                Some(p)
            },
            None => {
                // no scents, just go randomly
                let step = rand_u32();
                let r = self.insect.move_random_with(step);
                assert(Some(r) == ant_movement_spec(self.insect, perception_seq(*old(perception)), scents@, seeking, val, step));
                Some(r)
            },
        }
    }

    /// One turn of the ant; returns whether it lives on.
    pub fn update(&mut self, map: &mut Board, scents: &mut ScentGrid, food: &mut Food, faction: Faction) -> (alive: bool)
        requires
            old(self).wf(),
            old(map).wf(),
            old(scents).wf(),
            *old(food) < usize::MAX,
        ensures
            final(self).wf(),
            final(map).wf(),
            final(scents).wf(),
            final(self).insect.faction == old(self).insect.faction,
            exists|chance: u32, step: u32|
                (*final(self), final(map)@, final(scents)@, *final(food), alive)
                    == #[trigger] ant_turn_spec(
                    *old(self),
                    old(map)@,
                    old(scents)@,
                    *old(food),
                    faction,
                    chance,
                    step,
                ),
    {
        // a starving ant eats from the colony's store
        if self.insect.hunger < 31 && *food > 0 {
            *food = *food - 1;
            self.insect.hunger = 255;
        }
        let seeking = self.update_behaviour(map, food, faction);
        self.update_scents(scents);
        let ghost a2 = *self;
        let ghost m1 = map@;
        let mut perception = self.insect.perception(map);
        assert(perception_seq(perception) =~= seen(a2.insect, m1));
        let next = self.update_movement(&mut perception, scents, seeking);
        let ghost (chance, step) = choose|chance: u32, step: u32|
            next == #[trigger] ant_movement_spec(
                a2.insect,
                seen(a2.insect, m1),
                scents@,
                seeking,
                chance,
                step,
            );
        proof {
            lemma_movement_neighbour(a2.insect, m1, scents@, seeking, chance, step);
        }
        let alive = self.insect.update(next, map);
        reveal(ant_turn_spec);
        assert((*self, map@, scents@, *food, alive) == ant_turn_spec(
            *old(self),
            old(map)@,
            old(scents)@,
            *old(food),
            faction,
            chance,
            step,
        ));
        alive
    }

    pub fn has_food(&self) -> (r: bool)
        ensures
            r == self.food is Some,
    {
        self.food.is_some()
    }
}

/// The ants' turns in order, each ant with its own pair of rolls: the ants
/// that live on (in order), the board, the scents and the colony's food.
pub open spec fn colony_turns(
    ants: Seq<Ant>,
    m: Seq<Cell>,
    g: Seq<Seq<u8>>,
    food: Food,
    faction: Faction,
    rolls: Seq<(u32, u32)>,
) -> (Seq<Ant>, Seq<Cell>, Seq<Seq<u8>>, Food)
    decreases ants.len(),
{
    if ants.len() == 0 {
        (Seq::empty(), m, g, food)
    } else {
        let (kept, m1, g1, f1) = colony_turns(
            ants.drop_last(),
            m,
            g,
            food,
            faction,
            rolls.drop_last(),
        );
        let (a, m2, g2, f2, alive) = ant_turn_spec(
            ants.last(),
            m1,
            g1,
            f1,
            faction,
            rolls.last().0,
            rolls.last().1,
        );
        (
            if alive {
                kept.push(a)
            } else {
                kept
            },
            m2,
            g2,
            f2,
        )
    }
}

/// Whether a colony tick, with the workers' rolls `rolls`, took the workers
/// `ants`, board `m`, scents `g` and store `food` to `ants2`, `m2`, `g2` and
/// `food2`: the scents faded, the workers took their turns in order, and if
/// more food was left than workers, one food hatched a new worker at the
/// nest.
pub open spec fn colony_step_matches(
    ants: Seq<Ant>,
    m: Seq<Cell>,
    g: Seq<Seq<u8>>,
    food: Food,
    faction: Faction,
    nest: Pos,
    rolls: Seq<(u32, u32)>,
    ants2: Seq<Ant>,
    m2: Seq<Cell>,
    g2: Seq<Seq<u8>>,
    food2: Food,
) -> bool {
    let (kept, m1, g1, f1) = colony_turns(ants, m, faded_all(g), food, faction, rolls);
    &&& rolls.len() == ants.len()
    &&& m2 == m1
    &&& g2 == g1
    &&& if f1 > kept.len() {
        &&& food2 == f1 - 1
        &&& ants2.len() == kept.len() + 1
        &&& ants2.drop_last() == kept
        &&& is_new_ant(ants2.last(), nest, faction)
    } else {
        &&& food2 == f1
        &&& ants2 == kept
    }
}

/// Every scent cell after one tick.
pub open spec fn faded_all(g: Seq<Seq<u8>>) -> Seq<Seq<u8>> {
    Seq::new(g.len(), |i: int| faded(g[i]))
}

/// What `Ant::new` makes: an ant at `pos` of `faction`.
pub open spec fn is_new_ant(a: Ant, pos: Pos, faction: Faction) -> bool {
    &&& a.wf()
    &&& a.insect.pos == pos
    &&& a.insect.faction == faction
    &&& a.insect.id == 0
    &&& !a.insect.holds
    &&& 127 <= a.insect.hunger < 255
    &&& a.food is None
    &&& a.food_scent == 0
    &&& a.nest_scent == u8::MAX
}

/// Each worker's turn in order, as the colony takes them, with the board,
/// scents and store each turn leaves for the next: the worker as its turn
/// left it and whether the turn returned alive, and the state after all.
pub open spec fn turn_outcomes(
    ants: Seq<Ant>,
    m: Seq<Cell>,
    g: Seq<Seq<u8>>,
    food: Food,
    faction: Faction,
    rolls: Seq<(u32, u32)>,
) -> (Seq<(Ant, bool)>, Seq<Cell>, Seq<Seq<u8>>, Food)
    decreases ants.len(),
{
    if ants.len() == 0 {
        (Seq::empty(), m, g, food)
    } else {
        let (outs, m1, g1, f1) = turn_outcomes(
            ants.drop_last(),
            m,
            g,
            food,
            faction,
            rolls.drop_last(),
        );
        let (a, m2, g2, f2, alive) = ant_turn_spec(
            ants.last(),
            m1,
            g1,
            f1,
            faction,
            rolls.last().0,
            rolls.last().1,
        );
        (outs.push((a, alive)), m2, g2, f2)
    }
}

/// The workers of a list of turn outcomes whose turn returned alive, in
/// order.
pub open spec fn living(outs: Seq<(Ant, bool)>) -> Seq<Ant> {
    outs.filter_map(|o: (Ant, bool)| if o.1 { Some(o.0) } else { None::<Ant> })
}

/// The workers a colony keeps after their turns are exactly those whose
/// turn returned alive, in order; a worker whose turn returned false is
/// gone. The board, scents and store are what the last turn left.
pub proof fn lemma_colony_keeps_exactly_the_living(
    ants: Seq<Ant>,
    m: Seq<Cell>,
    g: Seq<Seq<u8>>,
    food: Food,
    faction: Faction,
    rolls: Seq<(u32, u32)>,
)
    ensures
        ({
            let (kept, m1, g1, f1) = colony_turns(ants, m, g, food, faction, rolls);
            let (outs, m2, g2, f2) = turn_outcomes(ants, m, g, food, faction, rolls);
            &&& outs.len() == ants.len()
            &&& kept == living(outs)
            &&& (m1, g1, f1) == (m2, g2, f2)
        }),
    decreases ants.len(),
{
    if ants.len() > 0 {
        lemma_colony_keeps_exactly_the_living(
            ants.drop_last(),
            m,
            g,
            food,
            faction,
            rolls.drop_last(),
        );
        let (outs, m1, g1, f1) = turn_outcomes(ants, m, g, food, faction, rolls);
        let prev = turn_outcomes(ants.drop_last(), m, g, food, faction, rolls.drop_last()).0;
        assert(outs.drop_last() =~= prev);
        let (kept, _, _, _) = colony_turns(ants, m, g, food, faction, rolls);
        let (kept0, _, _, _) = colony_turns(ants.drop_last(), m, g, food, faction, rolls.drop_last());
        if outs.last().1 {
            assert(kept =~= kept0 + seq![outs.last().0]);
        }
    }
}

/// After a colony tick the workers are exactly those whose turn returned
/// alive, in order, followed by the new worker at the nest when one hatched.
pub proof fn lemma_colony_tick_drops_the_dead(
    ants: Seq<Ant>,
    m: Seq<Cell>,
    g: Seq<Seq<u8>>,
    food: Food,
    faction: Faction,
    nest: Pos,
    rolls: Seq<(u32, u32)>,
    ants2: Seq<Ant>,
    m2: Seq<Cell>,
    g2: Seq<Seq<u8>>,
    food2: Food,
)
    requires
        colony_step_matches(ants, m, g, food, faction, nest, rolls, ants2, m2, g2, food2),
    ensures
        ({
            let alive = living(turn_outcomes(ants, m, faded_all(g), food, faction, rolls).0);
            ||| ants2 == alive
            ||| ants2.len() == alive.len() + 1 && ants2.drop_last() == alive && is_new_ant(
                ants2.last(),
                nest,
                faction,
            )
        }),
{
    lemma_colony_keeps_exactly_the_living(ants, m, faded_all(g), food, faction, rolls);
}

/// One tick of colony `c` on board `m` (see `AntColony::update`) leaves it
/// as `c2` on `m2`: the same faction and nest, with its workers, scents,
/// store and board as `colony_step_matches` says for some rolls.
#[verifier::opaque]
pub open spec fn colony_tick(c: AntColony, m: Seq<Cell>, c2: AntColony, m2: Seq<Cell>) -> bool {
    &&& c2.faction == c.faction
    &&& c2.nest_pos == c.nest_pos
    &&& exists|rolls: Seq<(u32, u32)>|
        #[trigger] colony_step_matches(
            c.workers@,
            m,
            c.scents@,
            c.food,
            c.faction,
            c.nest_pos,
            rolls,
            c2.workers@,
            m2,
            c2.scents@,
            c2.food,
        )
}

#[derive(Debug)]
pub struct AntColony {
    pub faction: Faction,
    pub food: Food,
    pub workers: Vec<Ant>,
    pub nest_pos: Pos,
    pub scents: ScentGrid,
}

impl AntColony {
    /// The nest is on the board, the scents cover the board and every worker
    /// is on the board facing a direction.
    pub open spec fn wf(&self) -> bool {
        &&& on_board(self.nest_pos)
        &&& self.scents.wf()
        &&& forall|i: int| 0 <= i < self.workers@.len() ==> (#[trigger] self.workers@[i]).wf()
    }

    /// A colony at `pos`: the cell becomes its nest (if it was empty), with
    /// 32 food in store and 32 identical workers at the nest.
    pub fn new(pos: Pos, map: &mut Board, faction: Faction) -> (c: Self)
        requires
            old(map).wf(),
            on_board(pos),
        ensures
            c.wf(),
            final(map).wf(),
            final(map)@ == old(map)@.update(
                index(pos),
                set_type_spec(old(map)@[index(pos)], CellType::Nest(faction)),
            ),
            c.faction == faction,
            c.food == STARTING_FOOD,
            c.nest_pos == pos,
            c.workers@.len() == STARTING_ANTS,
            forall|i: int|
                0 <= i < STARTING_ANTS ==> #[trigger] c.workers@[i] == c.workers@[0] && is_new_ant(
                    c.workers@[i],
                    pos,
                    faction,
                ),
            forall|i: int| 0 <= i < NUM_CELLS ==> #[trigger] c.scents@[i] == seq![0u8, 0u8],
    {
        match map.get_cell_mut(pos) {
            Some(cell) => cell.set_type(CellType::Nest(faction)),
            None => {},
        }
        let ant = Ant::new(pos, faction);
        let mut workers: Vec<Ant> = Vec::new();
        let mut i: usize = 0;
        while i < STARTING_ANTS
            invariant
                i <= STARTING_ANTS,
                workers@.len() == i,
                forall|j: int| 0 <= j < i ==> #[trigger] workers@[j] == ant,
            decreases STARTING_ANTS - i,
        {
            workers.push(ant);
            i += 1;
        }
        Self { faction, food: STARTING_FOOD, workers, scents: ScentGrid::new(), nest_pos: pos }
    }

    /// One tick: scents fade, every worker takes its turn (the dead are
    /// dropped), and a new worker hatches at the nest when there is more food
    /// than workers, for one food.
    pub fn update(&mut self, grid: &mut Board)
        requires
            old(self).wf(),
            old(grid).wf(),
            old(self).food + old(self).workers@.len() < usize::MAX,
        ensures
            final(self).wf(),
            final(grid).wf(),
            colony_tick(*old(self), old(grid)@, *final(self), final(grid)@),
    {
        reveal(colony_tick);
        self.scents.update();
        let ghost g0 = self.scents@;
        assert(g0 =~= faded_all(old(self).scents@));
        let ghost ants = self.workers@;
        let ghost m0 = grid@;
        let ghost f0 = self.food;
        let ghost mut rolls: Seq<(u32, u32)> = Seq::empty();
        let mut kept: Vec<Ant> = Vec::new();
        let mut i: usize = 0;
        let n = self.workers.len();
        while i < n
            invariant
                n == ants.len(),
                ants == self.workers@,
                i <= n,
                rolls.len() == i,
                self.scents.wf(),
                grid.wf(),
                f0 == old(self).food,
                f0 + n < usize::MAX,
                on_board(self.nest_pos),
                self.nest_pos == old(self).nest_pos,
                self.faction == old(self).faction,
                self.food <= f0 + i,
                forall|j: int| 0 <= j < n ==> (#[trigger] ants[j]).wf(),
                forall|j: int| 0 <= j < kept@.len() ==> (#[trigger] kept@[j]).wf(),
                (kept@, grid@, self.scents@, self.food) == colony_turns(
                    ants.take(i as int),
                    m0,
                    g0,
                    f0,
                    self.faction,
                    rolls,
                ),
            decreases n - i,
        {
            let mut ant = self.workers[i];
            let ghost before = (kept@, grid@, self.scents@, self.food);
            assert(ant == ants[i as int]);
            let faction = self.faction;
            let alive = ant.update(grid, &mut self.scents, &mut self.food, faction);
            let ghost (chance, step) = choose|chance: u32, step: u32|
                (ant, grid@, self.scents@, self.food, alive) == #[trigger] ant_turn_spec(
                    ants[i as int],
                    before.1,
                    before.2,
                    before.3,
                    self.faction,
                    chance,
                    step,
                );
            if alive {
                kept.push(ant);
            }
            proof {
                lemma_ant_turn_food(ants[i as int], before.1, before.2, before.3, faction, chance, step);
                let old_rolls = rolls;
                rolls = rolls.push((chance, step));
                assert(ants.take(i + 1).drop_last() =~= ants.take(i as int));
                assert(ants.take(i + 1).last() == ants[i as int]);
                assert(rolls.drop_last() =~= old_rolls);
                assert(rolls.last() == (chance, step));
            }
            i += 1;
        }
        assert(ants.take(n as int) =~= ants);
        self.workers = kept;
        if self.food > self.workers.len() {
            // create new ants!
            self.workers.push(Ant::new(self.nest_pos, self.faction));
            self.food -= 1;
            assert(self.workers@.drop_last() =~= kept@);
        }
        assert(colony_step_matches(
            old(self).workers@,
            old(grid)@,
            old(self).scents@,
            old(self).food,
            old(self).faction,
            old(self).nest_pos,
            rolls,
            self.workers@,
            grid@,
            self.scents@,
            self.food,
        ));
    }
}

} // verus!
