//! Spiders: hunters that go for other factions' insects and for food.

use vstd::prelude::*;

use crate::insect::{
    is_neighbour, lemma_seen_neighbours, perception_matches, reproduce_spec, seen, try_move_spec,
    will_move_spec, Action, BaseInsect, Behaviour, Event, Hunger, Insect, InsectBehaviour,
};
use crate::map::{
    index, on_board, take_type_spec, Board, Cell, CellType, Faction, FACTION_NONE, FACTION_SPIDER,
};
use crate::pos::Pos;
use crate::rng::gen_range_u32;

verus! {

pub struct Spider {
    pub speed: u8,
    pub reproduce: u8,
}

pub const SPIDER_REPRODUCE_TIME: u8 = 250;

pub const SPIDER_REPRODUCE_COST: Hunger = 512;

pub const SPIDER_REPRODUCE_THRESHOLD: Hunger = 512;

pub const SPIDER_EAT_VAL: Hunger = 255;

pub const SPIDER_SPEED: u8 = 1;

/// A hungry spider eats the food it stands on.
pub open spec fn spider_eat_spec(b: BaseInsect, m: Seq<Cell>) -> (BaseInsect, Seq<Cell>) {
    if b.hunger < SPIDER_REPRODUCE_COST {
        let (c2, r) = take_type_spec(m[index(b.pos)], CellType::Food);
        if r is Some {
            (BaseInsect { hunger: (b.hunger + SPIDER_EAT_VAL) as u16, ..b }, m.update(index(b.pos), c2))
        } else {
            (b, m)
        }
    } else {
        (b, m)
    }
}

/// Whether a spider goes for an insect of faction `f`.
pub open spec fn is_prey(f: Faction) -> bool {
    f != FACTION_SPIDER && f != FACTION_NONE
}

/// Going through what the spider sees from the `k`-th entry on: the first
/// insect of another faction is the enemy to go for (and ends the search);
/// `food` is the last food seen so far.
pub open spec fn spider_pick(s: Seq<(Pos, (CellType, Faction))>, k: int, food: Option<Pos>) -> (
    Option<Pos>,
    Option<Pos>,
)
    decreases s.len() - k,
{
    if k >= s.len() {
        (None, food)
    } else if is_prey(s[k].1.1) {
        (Some(s[k].0), food)
    } else {
        spider_pick(s, k + 1, if s[k].1.0 == CellType::Food { Some(s[k].0) } else { food })
    }
}

/// A spider's turn once it has not reproduced: eat, look around, and on a
/// moving turn go for an enemy, or else for food.
pub open spec fn spider_hunt_spec(sp: Spider, b: BaseInsect, m: Seq<Cell>) -> (
    Spider,
    BaseInsect,
    Seq<Cell>,
    Option<Event>,
) {
    let (b1, m1) = spider_eat_spec(b, m);
    let (enemy, food) = spider_pick(seen(b1, m1), 0, None);
    let (speed, wm) = will_move_spec(sp.speed, SPIDER_SPEED);
    let sp2 = Spider { speed, ..sp };
    if wm && (enemy is Some || food is Some) {
        let target = if enemy is Some {
            enemy->0
        } else {
            food->0
        };
        let (b2, m2, e) = try_move_spec(b1, m1, target);
        (sp2, b2, m2, e)
    } else {
        (sp2, b1, m1, None)
    }
}

/// The pick goes for the first insect of another faction: when entry `k`
/// holds one and no entry from `i` up to it does, that is the enemy.
proof fn lemma_spider_pick_first_enemy(s: Seq<(Pos, (CellType, Faction))>, i: int, food: Option<Pos>, k: int)
    requires
        0 <= i <= k < s.len(),
        s[k].1.1 != FACTION_SPIDER,
        s[k].1.1 != FACTION_NONE,
        forall|j: int| i <= j < k ==> s[j].1.1 == FACTION_SPIDER || s[j].1.1 == FACTION_NONE,
    ensures
        spider_pick(s, i, food).0 == Some(s[k].0),
    decreases k - i,
{
    if i < k {
        lemma_spider_pick_first_enemy(
            s,
            i + 1,
            if s[i].1.0 == CellType::Food { Some(s[i].0) } else { food },
            k,
        );
    }
}

/// A spider on a moving turn (its counter at zero) that sees insects of
/// other factions (ants as well as pillbugs: any faction but its own and
/// nobody) goes for the first of them in the order it perceives them: after
/// eating, it tries to step onto that cell, whatever lies elsewhere.
pub proof fn lemma_spider_attacks_first_enemy(sp: Spider, b: BaseInsect, m: Seq<Cell>, k: int)
    requires
        b.wf(),
        m.len() == crate::map::NUM_CELLS,
        sp.speed == 0,
        0 <= k < 5,
        seen(b, m)[k].1.1 != FACTION_SPIDER,
        seen(b, m)[k].1.1 != FACTION_NONE,
        forall|j: int|
            0 <= j < k ==> seen(b, m)[j].1.1 == FACTION_SPIDER || seen(b, m)[j].1.1 == FACTION_NONE,
    ensures
        ({
            let (b1, m1) = spider_eat_spec(b, m);
            let (b2, m2, e) = try_move_spec(b1, m1, seen(b, m)[k].0);
            spider_hunt_spec(sp, b, m) == (Spider { speed: SPIDER_SPEED, ..sp }, b2, m2, e)
        }),
{
    let (b1, m1) = spider_eat_spec(b, m);
    assert forall|i: int| 0 <= i < m.len() implies (#[trigger] m1[i]).occupied == m[i].occupied by {
        if i == index(b.pos) {
        }
    }
    assert forall|j: int| 0 <= j <= k implies seen(b1, m1)[j].0 == seen(b, m)[j].0 && seen(
        b1,
        m1,
    )[j].1.1 == seen(b, m)[j].1.1 by {
        crate::insect::pillbug::lemma_eating_keeps_factions(b, m, b1, m1, j);
    }
    lemma_spider_pick_first_enemy(seen(b1, m1), 0, None, k);
}

/// What `Spider::new` makes: a spider at `pos`.
pub open spec fn is_new_spider(i: Insect, pos: Pos) -> bool {
    &&& i.wf()
    &&& i.base.pos == pos
    &&& i.base.faction == FACTION_SPIDER
    &&& i.base.health == 3
    &&& i.base.id == 0
    &&& !i.base.holds
    &&& 127 <= i.base.hunger < 255
    &&& i.spec matches Behaviour::Spider(s) && s.speed == 0 && s.reproduce < 63
}

/// Whether a spider with this much hunger gives birth: its reproduction
/// check always finds the cooldown over, so only the hunger counts.
pub open spec fn spider_gives_birth(hunger: u16) -> bool {
    reproduce_spec(hunger, SPIDER_REPRODUCE_TIME, SPIDER_REPRODUCE_TIME, SPIDER_REPRODUCE_COST).2
}

/// The pick never makes up a position: what it returns is the food it
/// started with or something it saw.
proof fn lemma_spider_pick_from_seen(s: Seq<(Pos, (CellType, Faction))>, k: int, food: Option<Pos>)
    requires
        0 <= k <= s.len(),
    ensures
        ({
            let (e, f) = spider_pick(s, k, food);
            &&& e matches Some(p) ==> exists|j: int| k <= j < s.len() && s[j].0 == p
            &&& f matches Some(p) ==> (food == Some(p) || exists|j: int| k <= j < s.len() && s[j].0 == p)
        }),
    decreases s.len() - k,
{
    if k < s.len() && !is_prey(s[k].1.1) {
        lemma_spider_pick_from_seen(s, k + 1, if s[k].1.0 == CellType::Food { Some(s[k].0) } else { food });
    }
}

impl Spider {
    pub fn new(pos: Pos) -> (i: Insect)
        requires
            on_board(pos),
        ensures
            is_new_spider(i, pos),
    {
        let base = BaseInsect::new(pos, FACTION_SPIDER);
        let reproduce = gen_range_u32(0, (u8::MAX / 4) as u32);
        Insect { base, spec: Behaviour::Spider(Self { speed: 0, reproduce: reproduce as u8 }) }
    }

    /// The spider's turn after the reproduction check.
    pub fn hunt(&mut self, base: &mut BaseInsect, map: &mut Board) -> (e: Option<Event>)
        requires
            old(base).wf(),
            old(map).wf(),
        ensures
            (*final(self), *final(base), final(map)@, e) == spider_hunt_spec(
                *old(self),
                *old(base),
                old(map)@,
            ),
            final(base).wf(),
            final(map).wf(),
    {
        if base.hunger < SPIDER_REPRODUCE_COST {
            let eaten = match map.get_cell_mut(base.pos) {
                Some(cell) => cell.take_type(CellType::Food),
                None => None,
            };
            if eaten.is_some() {
                base.hunger += SPIDER_EAT_VAL;
            }
        }
        let ghost b1 = *base;
        let ghost m1 = map@;
        assert((b1, m1) == spider_eat_spec(*old(base), old(map)@));
        let perception = base.perception(map);
        let ghost s = seen(b1, m1);
        let ghost goal = spider_pick(s, 0, None);
        let mut enemy_pos: Option<Pos> = None;
        let mut food_pos: Option<Pos> = None;
        let mut i: usize = 0;
        while i < 5 && enemy_pos.is_none()
            invariant
                i <= 5,
                perception_matches(perception, b1, m1),
                s == seen(b1, m1),
                enemy_pos is None ==> spider_pick(s, i as int, food_pos) == goal,
                enemy_pos is Some ==> goal == (enemy_pos, food_pos),
            decreases 5 - i + (if enemy_pos is Some { 0int } else { 1int }),
        {
            if perception[i].1.faction != FACTION_SPIDER && perception[i].1.faction != FACTION_NONE {
                // Attack the thing!
                enemy_pos = Some(perception[i].0);
            } else {
                if perception[i].1.cell_type == CellType::Food {
                    food_pos = Some(perception[i].0);
                }
                i += 1;
            }
        }
        proof {
            lemma_spider_pick_from_seen(s, 0, None);
            lemma_seen_neighbours(b1, m1);
        }
        if BaseInsect::will_move(&mut self.speed, SPIDER_SPEED) && (enemy_pos.is_some()
            || food_pos.is_some()) {
            let target = match enemy_pos {
                Some(p) => p,
                None => food_pos.unwrap(),
            };
            base.try_move(target, map)
        } else {
            None
        }
    }

    /// Gives birth to a spider at `base`'s position if it has the hunger to
    /// spare.
    fn try_give_birth(base: &mut BaseInsect) -> (e: Option<Event>)
        requires
            old(base).wf(),
        ensures
            spider_gives_birth(old(base).hunger) ==> (e matches Some(Event::Birth(child))
                && is_new_spider(*child, old(base).pos)),
            !spider_gives_birth(old(base).hunger) ==> e is None,
            *final(base) == (BaseInsect {
                hunger: reproduce_spec(
                    old(base).hunger,
                    SPIDER_REPRODUCE_TIME,
                    SPIDER_REPRODUCE_TIME,
                    SPIDER_REPRODUCE_COST,
                ).0,
                ..*old(base)
            }),
    {
        let mut fake_repro = SPIDER_REPRODUCE_TIME;
        if base.update_reproduce(&mut fake_repro, SPIDER_REPRODUCE_TIME, SPIDER_REPRODUCE_COST) {
            Some(Event::Birth(Box::new(Self::new(base.pos))))
        } else {
            None
        }
    }
}

impl InsectBehaviour for Spider {
    open spec fn inner_wf(&self) -> bool {
        true
    }

    /// A spider can be told to reproduce or to move (which does nothing
    /// here); the second action is not implemented.
    open spec fn handles(&self, action: Action) -> bool {
        !(action is ActionB)
    }

    fn update(&mut self, base: &mut BaseInsect, map: &mut Board) -> (e: Option<Event>)
        ensures
            !crate::insect::is_rebirth(e),
            spider_gives_birth(old(base).hunger) ==> {
                &&& e matches Some(Event::Birth(child)) && is_new_spider(*child, old(base).pos)
                &&& *final(self) == *old(self)
                &&& *final(base) == (BaseInsect {
                    hunger: (old(base).hunger - SPIDER_REPRODUCE_COST) as u16,
                    ..*old(base)
                })
                &&& final(map)@ == old(map)@
            },
            !spider_gives_birth(old(base).hunger) ==> (*final(self), *final(base), final(map)@, e)
                == spider_hunt_spec(*old(self), *old(base), old(map)@),
    {
        let born = Self::try_give_birth(base);
        if born.is_some() {
            return born;
        }
        self.hunt(base, map)
    }

    fn player_action(&mut self, base: &mut BaseInsect, map: &mut Board, action: Action) -> (e:
        Option<Event>)
        ensures
            action is ActionA ==> {
                &&& spider_gives_birth(old(base).hunger) ==> (e matches Some(Event::Birth(child))
                    && is_new_spider(*child, old(base).pos))
                &&& !spider_gives_birth(old(base).hunger) ==> e is None
                &&& *final(base) == (BaseInsect {
                    hunger: reproduce_spec(
                        old(base).hunger,
                        SPIDER_REPRODUCE_TIME,
                        SPIDER_REPRODUCE_TIME,
                        SPIDER_REPRODUCE_COST,
                    ).0,
                    ..*old(base)
                })
            },
            action is Move ==> e is None && *final(base) == *old(base),
            *final(self) == *old(self),
            final(map)@ == old(map)@,
    {
        match action {
            Action::ActionA => Self::try_give_birth(base),
            _ => None,
        }
    }
}

} // verus!
