//! The first ant colony: workers that carry food home, fight by taking
//! cells, and pick their way by the strongest smell with a dash of chance.

use vstd::prelude::*;

pub use crate::insect::ant::{ScentCell, ScentGrid, Scents};

use crate::grid::{max_u8, sat_sub1};
use crate::insect::ant::{dropped, faded_all, sat_add_u8, scent_slot, smell_spec};
use crate::insect::{move_random_spec, perceived_pos, BaseInsect};
use crate::map::{
    free_spec, index, occupy_spec, on_board, reclaim_spec, set_type_spec, take_type_spec, Board, Cell, CellType,
    Faction, OccupyError, NUM_CELLS,
};
use crate::pos::dirs::{self, invert, invert_spec, is_dir, rotate_left, rotate_right};
use crate::pos::{pos_add, pos_sub, Pos};
use crate::rng::{gen_range_u32, rand_u32};

verus! {

pub type Food = usize;

pub const STARTING_FOOD: Food = 32;

pub const ANTS_NUMBER: usize = 32;

#[derive(Debug, Clone, Copy)]
pub struct Ant {
    pub pos: Pos,
    pub food: Option<()>,
    /// How strongly the ant still smells of its nest.
    pub nest_scent: u8,
    pub food_scent: u8,
    pub dir: Pos,
    pub hunger: u8,
    /// Whether the ant holds the cell it stands on (it has stepped onto it
    /// and not left it since).
    pub holds: bool,
}

/// The ant's position and heading, as an insect body.
pub open spec fn body(a: Ant) -> BaseInsect {
    BaseInsect {
        pos: a.pos,
        dir: a.dir,
        hunger: a.hunger as u16,
        health: 0,
        faction: 0,
        id: 0,
        holds: a.holds,
    }
}

/// The food scent a carrying ant lays: about two and a quarter times its
/// distance from the nest, as told by how much nest scent it has lost.
pub open spec fn old_trail_strength(nest_scent: u8) -> u8 {
    let d = (u8::MAX - nest_scent) as u8;
    sat_add_u8(sat_add_u8(d, d), (d / 4) as u8)
}

/// The first colony's store grows only by a delivery: by one, exactly when
/// the ant carries food and stands on its own faction's nest, where it gives
/// up its food and goes looking for more. Anywhere else (an enemy's nest
/// included) the store stays as it was, and a carrying ant keeps its food
/// and looks for its own nest.
pub proof fn lemma_old_store_grows_only_at_own_nest(a: Ant, m: Seq<Cell>, food: Food, faction: Faction)
    requires
        food < usize::MAX,
    ensures
        ({
            let (a1, m1, f1, seeking) = old_behaviour_spec(a, m, food, faction);
            let delivers = a.food is Some && m[index(a.pos)].m_type == CellType::Nest(faction);
            &&& delivers ==> f1 == food + 1 && a1.food is None && seeking == (
                Scents::Food,
                CellType::Food,
            )
            &&& !delivers ==> f1 == food
            &&& !delivers && a.food is Some ==> a1.food is Some && seeking == (
                Scents::Nest,
                CellType::Nest(faction),
            )
        }),
{
}

/// The first ant's trail strength, in plain numbers: `2d + d/4` for a
/// distance `d = 255 - nest_scent` from home, capped at 255; it never
/// weakens as the ant gets farther from home.
pub proof fn lemma_old_trail_strength(nest_scent: u8, farther: u8)
    ensures
        old_trail_strength(nest_scent) == ({
            let d = 255 - nest_scent;
            if 2 * d + d / 4 >= 255 {
                255
            } else {
                2 * d + d / 4
            }
        }),
        farther <= nest_scent ==> old_trail_strength(farther) >= old_trail_strength(nest_scent),
{
    let d = 255 - nest_scent;
    let d2 = 255 - farther;
    assert(farther <= nest_scent ==> d2 / 4 >= d / 4) by {
        if farther <= nest_scent {
            vstd::arithmetic::div_mod::lemma_div_is_ordered(d as int, d2 as int, 4);
        }
    }
}

/// `update_scents`: a carrying ant sets its food scent from its distance
/// home; it leaves food and nest scent on its cell and picks up the nest
/// scent there (less one).
pub open spec fn old_scents_spec(a: Ant, g: Seq<Seq<u8>>) -> (Ant, Seq<Seq<u8>>) {
    let i = index(a.pos);
    let fs = if a.food is Some {
        old_trail_strength(a.nest_scent)
    } else {
        a.food_scent
    };
    let c1 = dropped(g[i], Scents::Food, fs);
    let c2 = dropped(c1, Scents::Nest, a.nest_scent);
    (Ant { food_scent: fs, nest_scent: sat_sub1(max_u8(c1[1], a.nest_scent)), ..a }, g.update(i, c2))
}

/// `update_behaviour`: at its own nest a carrying ant stores its food and
/// turns round; anywhere else it picks up food it stands on and turns round.
pub open spec fn old_behaviour_spec(a: Ant, m: Seq<Cell>, food: Food, faction: Faction) -> (
    Ant,
    Seq<Cell>,
    Food,
    (Scents, CellType),
) {
    let i = index(a.pos);
    let c = m[i];
    let (a1, m1, f1) = if c.m_type == CellType::Nest(faction) {
        if a.food is Some {
            (
                Ant {
                    food: None,
                    nest_scent: (u8::MAX - 1) as u8,
                    food_scent: 0,
                    dir: invert_spec(a.dir),
                    ..a
                },
                m,
                (food + 1) as usize,
            )
        } else {
            (a, m, food)
        }
    } else {
        let (c2, r) = take_type_spec(c, CellType::Food);
        if r is Some {
            (Ant { food: Some(()), dir: invert_spec(a.dir), ..a }, m.update(i, c2), food)
        } else {
            (a, m, food)
        }
    };
    (
        a1,
        m1,
        f1,
        if a1.food is Some {
            (Scents::Nest, CellType::Nest(faction))
        } else {
            (Scents::Food, CellType::Food)
        },
    )
}

/// How attractive `pos` is: fully, if it holds what the ant looks for;
/// otherwise as strong as the scent it follows there.
pub open spec fn sense_spec(m: Seq<Cell>, g: Seq<Seq<u8>>, pos: Pos, scent: Scents, flag: CellType) -> u8 {
    if on_board(pos) && m[index(pos)].m_type == flag {
        u8::MAX
    } else {
        smell_spec(g, pos, scent)
    }
}

/// The five perceived positions and how attractive each is.
pub open spec fn senses(a: Ant, m: Seq<Cell>, g: Seq<Seq<u8>>, scent: Scents, flag: CellType) -> Seq<
    (Pos, u8),
> {
    Seq::new(5, |k: int| (perceived_pos(body(a), k), sense_spec(m, g, perceived_pos(body(a), k), scent, flag)))
}

/// Going through the perceptions from the `k`-th on: a more attractive one
/// takes the lead; an equally attractive one does when its coin (from
/// `coins`) is even.
pub open spec fn weighted_fold(p: Seq<(Pos, u8)>, coins: Seq<u32>, k: int, max: u8, max_pos: Pos) -> (
    u8,
    Pos,
)
    decreases p.len() - k,
{
    if k >= p.len() {
        (max, max_pos)
    } else if max < p[k].1 || (max == p[k].1 && coins[k] % 2 == 0) {
        weighted_fold(p, coins, k + 1, p[k].1, p[k].0)
    } else {
        weighted_fold(p, coins, k + 1, max, max_pos)
    }
}

/// `perception_weighted_random` for the coins `coins`, the roll `chance`
/// (whether to wander off) and the roll `step` (which way): the most
/// attractive position, unless the ant wanders (a quarter of the time, and
/// always when nothing attracts it).
pub open spec fn weighted_pick_spec(a: Ant, p: Seq<(Pos, u8)>, coins: Seq<u32>, chance: u32, step: u32) -> Pos {
    let (max, max_pos) = weighted_fold(p, coins, 0, 0, a.pos);
    if chance < u32::MAX / 4 || max == 0 {
        move_random_spec(body(a), step)
    } else {
        max_pos
    }
}

/// `try_move` of the first ant: the ant, the board, and whether it lives on.
pub open spec fn old_try_move_spec(a: Ant, m: Seq<Cell>, next: Pos, faction: Faction) -> (
    Ant,
    Seq<Cell>,
    bool,
) {
    let (m1, r) = occupy_spec(m, next, (faction, 0));
    match r {
        Ok(_) => (
            Ant { dir: pos_sub(next, a.pos), pos: next, holds: true, ..a },
            old_leave(a, m1, faction),
            true,
        ),
        Err(OccupyError::Solid) => (Ant { dir: invert_spec(a.dir), ..a }, m1, true),
        Err(OccupyError::Fight(_)) => (a, m1, false),
    }
}

/// Whether an enemy has marked the cell the ant holds.
pub open spec fn old_killed(a: Ant, m: Seq<Cell>, faction: Faction) -> bool {
    a.holds && match m[index(a.pos)].occupied {
        Some(o) => o.1 == 0 && o.0 != faction,
        None => false,
    }
}

/// The board after the ant (of `faction`) lets go of its cell, if it holds
/// it: the registration goes with the last holder.
pub open spec fn old_leave(a: Ant, m: Seq<Cell>, faction: Faction) -> Seq<Cell> {
    if a.holds {
        free_spec(m, a.pos, (faction, 0))
    } else {
        m
    }
}

/// A whole turn of the first ant, with its coins and rolls.
#[verifier::opaque]
pub open spec fn old_ant_turn_spec(
    a: Ant,
    m: Seq<Cell>,
    g: Seq<Seq<u8>>,
    food: Food,
    faction: Faction,
    coins: Seq<u32>,
    chance: u32,
    step: u32,
) -> (Ant, Seq<Cell>, Seq<Seq<u8>>, Food, bool) {
    if old_killed(a, m, faction) {
        (a, reclaim_spec(m, a.pos, faction), g, food, false)
    } else {
        let h = sat_sub1(a.hunger);
        let fed = h == 0 && food > 0;
        let a0 = Ant {
            hunger: if fed {
                u8::MAX
            } else {
                h
            },
            ..a
        };
        let food0 = if fed {
            (food - 1) as usize
        } else {
            food
        };
        let (a1, g1) = old_scents_spec(a0, g);
        let (a2, m2, f2, seeking) = old_behaviour_spec(a1, m, food0, faction);
        let p = senses(a2, m2, g1, seeking.0, seeking.1);
        let next = weighted_pick_spec(a2, p, coins, chance, step);
        let (a3, m3, alive) = old_try_move_spec(a2, m2, next, faction);
        (a3, m3, g1, f2, alive)
    }
}

/// The fold never makes up a position: it is the one it started with or a
/// perceived one, and a lead above zero always comes from a perceived one.
proof fn lemma_fold_from_p(p: Seq<(Pos, u8)>, coins: Seq<u32>, k: int, max: u8, max_pos: Pos)
    requires
        0 <= k <= p.len(),
    ensures
        ({
            let (mx, mp) = weighted_fold(p, coins, k, max, max_pos);
            &&& mp == max_pos || exists|j: int| k <= j < p.len() && p[j].0 == mp
            &&& mx >= max
            &&& (mx > max ==> exists|j: int| k <= j < p.len() && p[j].0 == mp)
        }),
    decreases p.len() - k,
{
    if k < p.len() {
        if max < p[k].1 || (max == p[k].1 && coins[k] % 2 == 0) {
            lemma_fold_from_p(p, coins, k + 1, p[k].1, p[k].0);
        } else {
            lemma_fold_from_p(p, coins, k + 1, max, max_pos);
        }
    }
}

/// Wherever the first ant decides to go, it is one step away.
proof fn lemma_pick_neighbour(a: Ant, m: Seq<Cell>, g: Seq<Seq<u8>>, scent: Scents, flag: CellType, coins: Seq<u32>, chance: u32, step: u32)
    requires
        body(a).wf(),
    ensures
        crate::insect::is_neighbour(body(a), weighted_pick_spec(a, senses(a, m, g, scent, flag), coins, chance, step)),
{
    let p = senses(a, m, g, scent, flag);
    crate::insect::lemma_move_random_neighbour(body(a), step);
    crate::insect::lemma_seen_neighbours(body(a), m);
    lemma_fold_from_p(p, coins, 0, 0, a.pos);
    let (mx, mp) = weighted_fold(p, coins, 0, 0, a.pos);
    if !(chance < u32::MAX / 4 || mx == 0) {
        let j = choose|j: int| 0 <= j < p.len() && p[j].0 == mp;
        assert(crate::insect::seen(body(a), m)[j].0 == p[j].0);
    }
}

impl Ant {
    /// On the board, facing one of the four directions.
    pub open spec fn wf(&self) -> bool {
        on_board(self.pos) && is_dir(self.dir)
    }

    /// A new ant at `pos`, facing a random direction, with a random hunger
    /// between 127 and 254.
    pub fn new(pos: Pos, faction: Faction) -> (a: Self)
        requires
            on_board(pos),
        ensures
            is_new_first_ant(a, pos),
    {
        let dir = dirs::rand();
        let hunger = gen_range_u32(127, 255);
        Self {
            pos,
            dir,
            food: None,
            food_scent: 0,
            nest_scent: u8::MAX,
            hunger: hunger as u8,
            holds: false,
        }
    }

    /// How attractive `pos` is to an ant following `scent` towards `flag`.
    pub fn sense(&self, pos: Pos, grid: &Board, scents: &ScentGrid, scent: Scents, flag: CellType) -> (r: (Pos, u8))
        requires
            grid.wf(),
            scents.wf(),
            scent != Scents::Len,
        ensures
            r == (pos, sense_spec(grid@, scents@, pos, scent, flag)),
    {
        let is_flag = match grid.get_cell(pos) {
            Some(cell) => cell.is_type(flag),
            None => false,
        };
        (pos, if is_flag {
            u8::MAX
        } else {
            match scents.get(pos) {
                Some(cell) => cell.get_scent(scent),
                None => 0,
            }
        })
    }

    /// How attractive each of the five perceived positions is.
    pub fn perceive(&self, grid: &Board, scents: &ScentGrid, scent: Scents, flag: CellType) -> (r: [(Pos, u8); 5])
        requires
            self.wf(),
            grid.wf(),
            scents.wf(),
            scent != Scents::Len,
        ensures
            r@ == senses(*self, grid@, scents@, scent, flag),
    {
        let r = [
            self.sense(self.pos + rotate_left(rotate_left(self.dir)), grid, scents, scent, flag),
            self.sense(self.pos + rotate_left(self.dir), grid, scents, scent, flag),
            self.sense(self.pos + self.dir, grid, scents, scent, flag),
            self.sense(self.pos + rotate_right(self.dir), grid, scents, scent, flag),
            self.sense(self.pos + rotate_right(rotate_right(self.dir)), grid, scents, scent, flag),
        ];
        assert(r@ =~= senses(*self, grid@, scents@, scent, flag));
        r
    }

    pub fn update_scents(&mut self, scents: &mut ScentGrid)
        requires
            old(self).wf(),
            old(scents).wf(),
        ensures
            final(scents).wf(),
            (*final(self), final(scents)@) == old_scents_spec(*old(self), old(scents)@),
    {
        if self.food.is_some() {
            let dist_approx = u8::MAX - self.nest_scent;
            self.food_scent = dist_approx.saturating_add(dist_approx).saturating_add(dist_approx / 4);
        }
        let pos = self.pos;
        let _ = scents.drop_at(pos, Scents::Food, self.food_scent);
        // mark nest scent
        self.nest_scent = scents.drop_at(pos, Scents::Nest, self.nest_scent);
        proof {
            let (a2, g2) = old_scents_spec(*old(self), old(scents)@);
            assert(scents@ =~= g2);
        }
    }

    pub fn update_behaviour(&mut self, map: &mut Board, food: &mut Food, faction: Faction) -> (r: (Scents, CellType))
        requires
            old(self).wf(),
            old(map).wf(),
            *old(food) < usize::MAX,
        ensures
            final(self).wf(),
            final(map).wf(),
            (*final(self), final(map)@, *final(food), r) == old_behaviour_spec(
                *old(self),
                old(map)@,
                *old(food),
                faction,
            ),
    {
        let pos = self.pos;
        let at_nest = match map.get_cell(pos) {
            Some(cell) => cell.is_type(CellType::Nest(faction)),
            None => false,
        };
        if at_nest {
            if self.food.is_some() {
                *food += 1;
                self.food = None;
                self.nest_scent = u8::MAX - 1;
                self.food_scent = 0;
                self.dir = invert(self.dir);
            }
        } else {
            // find food!
            let taken = match map.get_cell_mut(pos) {
                Some(cell) => cell.take_type(CellType::Food),
                None => None,
            };
            if let Some(f) = taken {
                self.food = Some(f);
                self.dir = invert(self.dir);
            }
        }
        if self.food.is_some() {
            (Scents::Nest, CellType::Nest(faction))
        } else {
            (Scents::Food, CellType::Food)
        }
    }

    /// Tries to step onto `next_pos`, a neighbouring position; returns
    /// whether the ant lives on (it dies attacking another faction).
    pub fn try_move(&mut self, next_pos: Pos, map: &mut Board, faction: Faction) -> (alive: bool)
        requires
            old(self).wf(),
            old(map).wf(),
            crate::insect::is_neighbour(body(*old(self)), next_pos),
        ensures
            final(self).wf(),
            final(map).wf(),
            (*final(self), final(map)@, alive) == old_try_move_spec(*old(self), old(map)@, next_pos, faction),
    {
        match map.occupy(next_pos, (faction, 0)) {
            Ok(_) => {
                self.leave(map, faction);
                proof {
                    let d = choose|d: Pos| is_dir(d) && next_pos == pos_add(self.pos, d);
                    assert(pos_sub(next_pos, self.pos) == d);
                }
                self.dir = next_pos - self.pos;
                self.pos = next_pos;
                self.holds = true;
            },
            Err(OccupyError::Solid) => self.dir = invert(self.dir),
            Err(OccupyError::Fight(_)) => {
                // we die now
                return false;
            },
        }
        true
    }

    /// `perception_weighted_random` for the given coins and rolls.
    pub fn perception_weighted_random_with(
        &self,
        perception: [(Pos, u8); 5],
        coins: [u32; 5],
        chance: u32,
        step: u32,
    ) -> (r: Option<Pos>)
        requires
            self.wf(),
        ensures
            r == Some(weighted_pick_spec(*self, perception@, coins@, chance, step)),
    {
        let mut max: u8 = 0;
        let mut max_pos: Pos = self.pos;
        let mut i: usize = 0;
        while i < 5
            invariant
                i <= 5,
                weighted_fold(perception@, coins@, i as int, max, max_pos) == weighted_fold(
                    perception@,
                    coins@,
                    0,
                    0,
                    self.pos,
                ),
            decreases 5 - i,
        {
            let val = perception[i];
            if max < val.1 || (max == val.1 && coins[i] % 2 == 0) {
                max = val.1;
                max_pos = val.0;
            }
            i += 1;
        }
        if chance < u32::MAX / 4 || max == 0 {
            Some(self.step_random(step))
        } else {
            Some(max_pos)
        }
    }

    /// The step a roll of `step` picks: half the time ahead, a quarter of the
    /// time to either side.
    fn step_random(&self, step: u32) -> (p: Pos)
        requires
            self.wf(),
        ensures
            p == move_random_spec(body(*self), step),
    {
        if step < u32::MAX / 2 {
            if step < u32::MAX / 4 {
                self.pos + rotate_left(self.dir)
            } else {
                self.pos + rotate_right(self.dir)
            }
        } else {
            self.pos + self.dir
        }
    }

    /// The most attractive perceived position (ties broken by a coin), unless
    /// the ant wanders: a quarter of the time, and whenever nothing attracts
    /// it.
    pub fn perception_weighted_random(&self, perception: [(Pos, u8); 5]) -> (r: Option<Pos>)
        requires
            self.wf(),
        ensures
            exists|coins: Seq<u32>, chance: u32, step: u32|
                coins.len() == 5 && r == Some(
                    #[trigger] weighted_pick_spec(*self, perception@, coins, chance, step),
                ),
    {
        let mut max: u8 = 0;
        let mut max_pos: Pos = self.pos;
        let ghost mut coins: Seq<u32> = Seq::empty();
        let mut total: u16 = 0;
        let mut i: usize = 0;
        while i < 5
            invariant
                i <= 5,
                coins.len() == i,
                total <= 255 * i,
                forall|c: Seq<u32>|
                    c.len() == 5 && c.take(i as int) == coins ==> #[trigger] weighted_fold(
                        perception@,
                        c,
                        i as int,
                        max,
                        max_pos,
                    ) == weighted_fold(perception@, c, 0, 0, self.pos),
            decreases 5 - i,
        {
            let val = perception[i];
            let ghost prev_coins = coins;
            let lead = if max < val.1 {
                proof {
                    coins = coins.push(0);
                }
                true
            } else if max == val.1 {
                let coin = rand_u32();
                proof {
                    coins = coins.push(coin);
                }
                coin % 2 == 0
            } else {
                proof {
                    coins = coins.push(0);
                }
                false
            };
            let ghost prev_max = max;
            let ghost prev_pos = max_pos;
            if lead {
                max = val.1;
                max_pos = val.0;
            }
            proof {
                assert forall|c: Seq<u32>|
                    c.len() == 5 && c.take(i + 1) == coins implies #[trigger] weighted_fold(
                        perception@,
                        c,
                        i + 1,
                        max,
                        max_pos,
                    ) == weighted_fold(perception@, c, 0, 0, self.pos) by {
                    assert(c.take(i as int) =~= c.take(i + 1).drop_last());
                    assert(coins.drop_last() =~= prev_coins);
                    assert(c.take(i as int) == prev_coins);
                    assert(c[i as int] == c.take(i + 1)[i as int]);
                    assert(c[i as int] == coins[i as int]);
                    assert(weighted_fold(perception@, c, i as int, prev_max, prev_pos) == weighted_fold(
                        perception@,
                        c,
                        i + 1,
                        max,
                        max_pos,
                    ));
                }
            }
            total += val.1 as u16;
            i += 1;
        }
        proof {
            assert(coins.take(5) =~= coins);
            assert(weighted_fold(perception@, coins, 5, max, max_pos) == weighted_fold(
                perception@,
                coins,
                0,
                0,
                self.pos,
            ));
        }
        // chance to just go randomly
        let val = rand_u32();
        if val < u32::MAX / 4 || max == 0 {
            // 50/50 chance to turn
            let step = rand_u32();
            let p = self.step_random(step);
            assert(coins.take(5) =~= coins);
            assert(Some(p) == Some(weighted_pick_spec(*self, perception@, coins, val, step)));
            Some(p)
        } else {
            assert(coins.take(5) =~= coins);
            assert(Some(max_pos) == Some(weighted_pick_spec(*self, perception@, coins, val, 0)));
            Some(max_pos)
        }
    }

    /// One turn of the ant; returns whether it lives on.
    pub fn update(&mut self, map: &mut Board, scents: &mut ScentGrid, food: &mut Food, faction: Faction) -> (alive: bool)
        requires
            old(self).wf(),
            old(map).wf(),
            old(scents).wf(),
            *old(food) < usize::MAX,
        ensures
            final(self).wf(),
            final(map).wf(),
            final(scents).wf(),
            exists|coins: Seq<u32>, chance: u32, step: u32|
                (*final(self), final(map)@, final(scents)@, *final(food), alive) == #[trigger] old_ant_turn_spec(
                    *old(self),
                    old(map)@,
                    old(scents)@,
                    *old(food),
                    faction,
                    coins,
                    chance,
                    step,
                ),
    {
        reveal(old_ant_turn_spec);
        // check if we were killed!
        let killed = self.holds && match map.get_cell(self.pos) {
            Some(cell) => match cell.occupied {
                Some(o) => o.1 == 0 && o.0 != faction,
                None => false,
            },
            None => false,
        };
        if killed {
            // put our faction back on the mark; allies on the cell keep it
            map.reclaim(self.pos, faction);
            assert((*self, map@, scents@, *food, false) == old_ant_turn_spec(
                *old(self), old(map)@, old(scents)@, *old(food), faction, Seq::empty(), 0, 0));
            return false;
        }
        // hunger grows each tick; a starving ant eats from the store
        self.hunger = self.hunger.saturating_sub(1);
        if self.hunger == 0 && *food > 0 {
            *food = *food - 1;
            self.hunger = u8::MAX;
        }
        self.update_scents(scents);
        let seeking = self.update_behaviour(map, food, faction);
        let ghost a2 = *self;
        let ghost m2 = map@;
        let perception = self.perceive(map, scents, seeking.0, seeking.1);
        // pick a dir based on random chance
        let next_pos = self.perception_weighted_random(perception);
        let ghost (coins, chance, step) = choose|coins: Seq<u32>, chance: u32, step: u32|
            coins.len() == 5 && next_pos == Some(
                #[trigger] weighted_pick_spec(a2, perception@, coins, chance, step),
            );
        proof {
            lemma_pick_neighbour(a2, m2, scents@, seeking.0, seeking.1, coins, chance, step);
        }
        let alive = self.try_move(next_pos.unwrap(), map, faction);
        assert((*self, map@, scents@, *food, alive) == old_ant_turn_spec(
            *old(self), old(map)@, old(scents)@, *old(food), faction, coins, chance, step));
        alive
    }

    pub fn has_food(&self) -> (r: bool)
        ensures
            r == self.food is Some,
    {
        self.food.is_some()
    }

    /// The ant lets go of its cell, if it holds it.
    fn leave(&self, map: &mut Board, faction: Faction)
        requires
            old(map).wf(),
        ensures
            final(map).wf(),
            final(map)@ == old_leave(*self, old(map)@, faction),
    {
        if self.holds {
            let _ = map.free(self.pos, (faction, 0));
        }
    }
}

/// The first ants' turns in order, each with its own coins and rolls: the
/// ants that live on (in order), the board, the scents and the food store.
pub open spec fn old_colony_turns(
    ants: Seq<Ant>,
    m: Seq<Cell>,
    g: Seq<Seq<u8>>,
    food: Food,
    faction: Faction,
    rolls: Seq<(Seq<u32>, u32, u32)>,
) -> (Seq<Ant>, Seq<Cell>, Seq<Seq<u8>>, Food)
    decreases ants.len(),
{
    if ants.len() == 0 {
        (Seq::empty(), m, g, food)
    } else {
        let (kept, m1, g1, f1) = old_colony_turns(
            ants.drop_last(),
            m,
            g,
            food,
            faction,
            rolls.drop_last(),
        );
        let r = rolls.last();
        let (a, m2, g2, f2, alive) = old_ant_turn_spec(ants.last(), m1, g1, f1, faction, r.0, r.1, r.2);
        if alive {
            (kept.push(a), m2, g2, f2)
        } else {
            (kept, old_leave(a, m2, faction), g2, f2)
        }
    }
}

/// What `Ant::new` makes: an ant at `pos`, facing a direction, carrying
/// nothing, smelling of nothing but its nest, with a hunger between 127 and
/// 254, and holding no cell yet.
pub open spec fn is_new_first_ant(a: Ant, pos: Pos) -> bool {
    &&& a.wf()
    &&& a.pos == pos
    &&& a.food is None
    &&& a.food_scent == 0
    &&& a.nest_scent == u8::MAX
    &&& 127 <= a.hunger < 255
    &&& !a.holds
}

/// Whether a tick of the first colony, with the ants' coins and rolls
/// `rolls`, took the ants, board, scents and store to `ants2`, `m2`, `g2`
/// and `food2`: scents faded, the ants took their turns in order, and if
/// more food was left than ants, one food hatched a new ant at the nest.
pub open spec fn old_colony_step_matches(
    ants: Seq<Ant>,
    m: Seq<Cell>,
    g: Seq<Seq<u8>>,
    food: Food,
    faction: Faction,
    nest: Pos,
    rolls: Seq<(Seq<u32>, u32, u32)>,
    ants2: Seq<Ant>,
    m2: Seq<Cell>,
    g2: Seq<Seq<u8>>,
    food2: Food,
) -> bool {
    let (kept, m1, g1, f1) = old_colony_turns(ants, m, faded_all(g), food, faction, rolls);
    &&& rolls.len() == ants.len()
    &&& m2 == m1
    &&& g2 == g1
    &&& if f1 > kept.len() {
        &&& food2 == f1 - 1
        &&& ants2.len() == kept.len() + 1
        &&& ants2.drop_last() == kept
        &&& is_new_first_ant(ants2.last(), nest)
    } else {
        &&& food2 == f1
        &&& ants2 == kept
    }
}

/// A turn of the first ant adds at most one food to the store.
pub proof fn lemma_old_turn_food(
    a: Ant,
    m: Seq<Cell>,
    g: Seq<Seq<u8>>,
    food: Food,
    faction: Faction,
    coins: Seq<u32>,
    chance: u32,
    step: u32,
)
    requires
        food < usize::MAX,
    ensures
        old_ant_turn_spec(a, m, g, food, faction, coins, chance, step).3 <= food + 1,
{
    reveal(old_ant_turn_spec);
}

#[derive(Debug)]
pub struct AntColony {
    pub faction: Faction,
    pub food: Food,
    pub ants: Vec<Ant>,
    pub nest_pos: Pos,
    pub scents: ScentGrid,
}

impl AntColony {
    /// The nest is on the board, the scents cover it, and every ant is on
    /// the board facing a direction.
    pub open spec fn wf(&self) -> bool {
        &&& on_board(self.nest_pos)
        &&& self.scents.wf()
        &&& forall|i: int| 0 <= i < self.ants@.len() ==> (#[trigger] self.ants@[i]).wf()
    }

    /// A colony at `pos`: the cell becomes its nest (if it was empty), with
    /// 32 food in store and 32 identical ants at the nest.
    pub fn new(pos: Pos, map: &mut Board, faction: Faction) -> (c: Self)
        requires
            old(map).wf(),
            on_board(pos),
        ensures
            c.wf(),
            final(map).wf(),
            final(map)@ == old(map)@.update(
                index(pos),
                set_type_spec(old(map)@[index(pos)], CellType::Nest(faction)),
            ),
            c.faction == faction,
            c.food == STARTING_FOOD,
            c.nest_pos == pos,
            c.ants@.len() == ANTS_NUMBER,
            forall|i: int|
                0 <= i < ANTS_NUMBER ==> #[trigger] c.ants@[i] == c.ants@[0] && is_new_first_ant(
                    c.ants@[i],
                    pos,
                ),
            forall|i: int| 0 <= i < NUM_CELLS ==> #[trigger] c.scents@[i] == seq![0u8, 0u8],
    {
        match map.get_cell_mut(pos) {
            Some(cell) => cell.set_type(CellType::Nest(faction)),
            None => {},
        }
        let ant = Ant::new(pos, faction);
        let mut ants: Vec<Ant> = Vec::new();
        let mut i: usize = 0;
        while i < ANTS_NUMBER
            invariant
                i <= ANTS_NUMBER,
                ants@.len() == i,
                forall|j: int| 0 <= j < i ==> #[trigger] ants@[j] == ant,
            decreases ANTS_NUMBER - i,
        {
            ants.push(ant);
            i += 1;
        }
        Self { faction, food: STARTING_FOOD, ants, scents: ScentGrid::new(), nest_pos: pos }
    }

    /// One tick: scents fade, every ant takes its turn (the dead are
    /// dropped), and a new ant hatches at the nest when there is more food
    /// than ants, for one food.
    pub fn update(&mut self, grid: &mut Board)
        requires
            old(self).wf(),
            old(grid).wf(),
            old(self).food + old(self).ants@.len() < usize::MAX,
        ensures
            final(self).wf(),
            final(grid).wf(),
            final(self).faction == old(self).faction,
            final(self).nest_pos == old(self).nest_pos,
            exists|rolls: Seq<(Seq<u32>, u32, u32)>|
                #[trigger] old_colony_step_matches(
                    old(self).ants@,
                    old(grid)@,
                    old(self).scents@,
                    old(self).food,
                    old(self).faction,
                    old(self).nest_pos,
                    rolls,
                    final(self).ants@,
                    final(grid)@,
                    final(self).scents@,
                    final(self).food,
                ),
    {
        self.scents.update();
        let ghost g0 = self.scents@;
        assert(g0 =~= faded_all(old(self).scents@));
        let ghost ants = self.ants@;
        let ghost m0 = grid@;
        let ghost f0 = self.food;
        let ghost mut rolls: Seq<(Seq<u32>, u32, u32)> = Seq::empty();
        let mut kept: Vec<Ant> = Vec::new();
        let mut i: usize = 0;
        let n = self.ants.len();
        while i < n
            invariant
                n == ants.len(),
                ants == self.ants@,
                i <= n,
                rolls.len() == i,
                self.scents.wf(),
                grid.wf(),
                f0 == old(self).food,
                f0 + n < usize::MAX,
                on_board(self.nest_pos),
                self.nest_pos == old(self).nest_pos,
                self.faction == old(self).faction,
                self.food <= f0 + i,
                forall|j: int| 0 <= j < n ==> (#[trigger] ants[j]).wf(),
                forall|j: int| 0 <= j < kept@.len() ==> (#[trigger] kept@[j]).wf(),
                (kept@, grid@, self.scents@, self.food) == old_colony_turns(
                    ants.take(i as int),
                    m0,
                    g0,
                    f0,
                    self.faction,
                    rolls,
                ),
            decreases n - i,
        {
            let mut ant = self.ants[i];
            let ghost before = (kept@, grid@, self.scents@, self.food);
            let faction = self.faction;
            let alive = ant.update(grid, &mut self.scents, &mut self.food, faction);
            let ghost (coins, chance, step) = choose|coins: Seq<u32>, chance: u32, step: u32|
                (ant, grid@, self.scents@, self.food, alive) == #[trigger] old_ant_turn_spec(
                    ants[i as int],
                    before.1,
                    before.2,
                    before.3,
                    faction,
                    coins,
                    chance,
                    step,
                );
            if alive {
                kept.push(ant);
            } else {
                // a dead ant lets go of its cell
                ant.leave(grid, faction);
            }
            proof {
                lemma_old_turn_food(ants[i as int], before.1, before.2, before.3, faction, coins, chance, step);
                let old_rolls = rolls;
                rolls = rolls.push((coins, chance, step));
                assert(ants.take(i + 1).drop_last() =~= ants.take(i as int));
                assert(ants.take(i + 1).last() == ants[i as int]);
                assert(rolls.drop_last() =~= old_rolls);
                assert(rolls.last() == (coins, chance, step));
            }
            i += 1;
        }
        assert(ants.take(n as int) =~= ants);
        self.ants = kept;
        if self.food > self.ants.len() {
            // create new ants!
            self.ants.push(Ant::new(self.nest_pos, self.faction));
            self.food -= 1;
            assert(self.ants@.drop_last() =~= kept@);
        }
        assert(old_colony_step_matches(
            old(self).ants@,
            old(grid)@,
            old(self).scents@,
            old(self).food,
            old(self).faction,
            old(self).nest_pos,
            rolls,
            self.ants@,
            grid@,
            self.scents@,
            self.food,
        ));
    }
}

} // verus!
