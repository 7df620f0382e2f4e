//! Pillbugs: slow grazers that curl up when an enemy is near.

use vstd::prelude::*;

use crate::insect::{
    move_random_spec, perception_matches, reproduce_spec, seen, try_move_spec, will_move_spec,
    Action, BaseInsect, Behaviour, Event, Hunger, Insect, InsectBehaviour,
};
use crate::map::{
    index, on_board, take_type_spec, Board, Cell, CellType, Faction, FACTION_NONE, FACTION_PILLBUG,
};
use crate::pos::Pos;
use crate::rng::{gen_range_u32, rand_u32};

verus! {

pub struct Pillbug {
    pub curled: bool,
    pub speed: u8,
    pub reproduce: u8,
}

pub const PILLBUG_REPRODUCE_TIME: u8 = 128;

pub const PILLBUG_REPRODUCE_COST: Hunger = 255;

pub const PILLBUG_EAT_THRESHOLD: Hunger = 510;

pub const PILLBUG_FOOD_VALUE: Hunger = 255;

pub const PILLBUG_SPEED: u8 = 1;

/// Eating on a moving turn: a pillbug below the threshold eats the food it
/// stands on; one above it that stands on food stays there instead of moving.
pub open spec fn pillbug_eat_spec(b: BaseInsect, m: Seq<Cell>, will_move: bool) -> (
    BaseInsect,
    Seq<Cell>,
    bool,
) {
    if !will_move {
        (b, m, false)
    } else if b.hunger < PILLBUG_EAT_THRESHOLD {
        let (c2, r) = take_type_spec(m[index(b.pos)], CellType::Food);
        if r is Some {
            (
                BaseInsect { hunger: (b.hunger + PILLBUG_FOOD_VALUE) as u16, ..b },
                m.update(index(b.pos), c2),
                true,
            )
        } else {
            (b, m, true)
        }
    } else if m[index(b.pos)].m_type == CellType::Food {
        (b, m, false)
    } else {
        (b, m, true)
    }
}

/// Whether a faction frightens a pillbug.
pub open spec fn scares_pillbug(f: Faction) -> bool {
    f != FACTION_PILLBUG && f != FACTION_NONE
}

/// Going through what the pillbug sees from the `k`-th entry on: an enemy
/// makes it curl up and stay; otherwise it heads for the last food it sees,
/// or for `best`.
pub open spec fn pillbug_pick(s: Seq<(Pos, (CellType, Faction))>, k: int, best: Option<Pos>) -> (
    bool,
    Option<Pos>,
)
    decreases s.len() - k,
{
    if k >= s.len() {
        (false, best)
    } else if scares_pillbug(s[k].1.1) {
        (true, None)
    } else {
        pillbug_pick(s, k + 1, if s[k].1.0 == CellType::Food { Some(s[k].0) } else { best })
    }
}

/// The rest of a pillbug's turn once it knows whether it may move: eat,
/// look around, uncurl (clearing its cell), pick where to go, and step there.
pub open spec fn pillbug_act_spec(
    pb: Pillbug,
    b: BaseInsect,
    m: Seq<Cell>,
    will_move: bool,
    roll: u32,
) -> (Pillbug, BaseInsect, Seq<Cell>, Option<Event>) {
    let (b1, m1, wm) = pillbug_eat_spec(b, m, will_move);
    let (curled, best) = pillbug_pick(seen(b1, m1), 0, Some(move_random_spec(b1, roll)));
    let m2 = if pb.curled {
        m1.update(index(b1.pos), Cell { m_type: CellType::Empty, ..m1[index(b1.pos)] })
    } else {
        m1
    };
    let pb2 = Pillbug { curled, ..pb };
    if wm && best is Some {
        let (b3, m3, e) = try_move_spec(b1, m2, best->0);
        (pb2, b3, m3, e)
    } else {
        (pb2, b1, m2, None)
    }
}

/// The pick never makes up a position: it is `best` or something seen.
pub proof fn lemma_pillbug_pick_from_seen(s: Seq<(Pos, (CellType, Faction))>, k: int, best: Option<Pos>)
    requires
        0 <= k <= s.len(),
    ensures
        pillbug_pick(s, k, best).1 matches Some(p) ==> (best == Some(p) || exists|j: int|
            k <= j < s.len() && s[j].0 == p),
    decreases s.len() - k,
{
    if k < s.len() && !scares_pillbug(s[k].1.1) {
        lemma_pillbug_pick_from_seen(
            s,
            k + 1,
            if s[k].1.0 == CellType::Food { Some(s[k].0) } else { best },
        );
    }
}

/// An enemy anywhere from the `k`-th entry on ends the pick: the pillbug
/// is scared and heads nowhere.
pub proof fn lemma_pillbug_pick_scared(s: Seq<(Pos, (CellType, Faction))>, k: int, best: Option<Pos>, j: int)
    requires
        0 <= k <= j < s.len(),
        s[j].1.1 != FACTION_PILLBUG,
        s[j].1.1 != FACTION_NONE,
    ensures
        pillbug_pick(s, k, best) == (true, None::<Pos>),
    decreases s.len() - k,
{
    if k < j && !scares_pillbug(s[k].1.1) {
        lemma_pillbug_pick_scared(
            s,
            k + 1,
            if s[k].1.0 == CellType::Food { Some(s[k].0) } else { best },
            j,
        );
    }
}

/// Eating changes what lies on the insect's own cell, not who stands where:
/// an insect at the same place sees the same positions and factions.
pub proof fn lemma_eating_keeps_factions(b: BaseInsect, m: Seq<Cell>, b1: BaseInsect, m1: Seq<Cell>, k: int)
    requires
        b.wf(),
        m.len() == crate::map::NUM_CELLS,
        m1.len() == m.len(),
        b1.pos == b.pos,
        b1.dir == b.dir,
        forall|i: int| 0 <= i < m.len() ==> (#[trigger] m1[i]).occupied == m[i].occupied,
        0 <= k < 5,
    ensures
        seen(b1, m1)[k].0 == seen(b, m)[k].0,
        seen(b1, m1)[k].1.1 == seen(b, m)[k].1.1,
{
    let p = crate::insect::perceived_pos(b, k);
    if on_board(p) {
        assert(m1[index(p)].occupied == m[index(p)].occupied);
    }
}

/// A pillbug that sees an insect of any faction but its own (a spider
/// included) anywhere around it ends its turn curled up where it stood,
/// facing the same way, with nothing happening.
pub proof fn lemma_pillbug_curls_at_enemy(
    pb: Pillbug,
    b: BaseInsect,
    m: Seq<Cell>,
    will_move: bool,
    roll: u32,
    k: int,
)
    requires
        b.wf(),
        m.len() == crate::map::NUM_CELLS,
        0 <= k < 5,
        seen(b, m)[k].1.1 != FACTION_PILLBUG,
        seen(b, m)[k].1.1 != FACTION_NONE,
    ensures
        pillbug_act_spec(pb, b, m, will_move, roll).0.curled,
        pillbug_act_spec(pb, b, m, will_move, roll).1.pos == b.pos,
        pillbug_act_spec(pb, b, m, will_move, roll).1.dir == b.dir,
        pillbug_act_spec(pb, b, m, will_move, roll).3 is None,
{
    let (b1, m1, wm) = pillbug_eat_spec(b, m, will_move);
    assert forall|i: int| 0 <= i < m.len() implies (#[trigger] m1[i]).occupied == m[i].occupied by {
        if i == index(b.pos) {
        }
    }
    lemma_eating_keeps_factions(b, m, b1, m1, k);
    lemma_pillbug_pick_scared(seen(b1, m1), 0, Some(move_random_spec(b1, roll)), k);
}

/// A whole pillbug turn in which no child is born, for a roll of `roll`.
pub open spec fn pillbug_turn_spec(pb: Pillbug, b: BaseInsect, m: Seq<Cell>, roll: u32) -> (
    Pillbug,
    BaseInsect,
    Seq<Cell>,
    Option<Event>,
) {
    let (sp, wm) = will_move_spec(pb.speed, PILLBUG_SPEED);
    let (h, c, born) = reproduce_spec(
        b.hunger,
        pb.reproduce,
        PILLBUG_REPRODUCE_TIME,
        PILLBUG_REPRODUCE_COST,
    );
    pillbug_act_spec(
        Pillbug { speed: sp, reproduce: c, ..pb },
        BaseInsect { hunger: h, ..b },
        m,
        wm,
        roll,
    )
}

/// What `Pillbug::new` makes: a pillbug at `pos`.
pub open spec fn is_new_pillbug(i: Insect, pos: Pos) -> bool {
    &&& i.wf()
    &&& i.base.pos == pos
    &&& i.base.faction == FACTION_PILLBUG
    &&& i.base.health == 3
    &&& i.base.id == 0
    &&& !i.base.holds
    &&& 127 <= i.base.hunger < 255
    &&& i.spec matches Behaviour::Pillbug(p) && !p.curled && p.speed == 0 && p.reproduce < 32
}

impl Pillbug {
    pub fn new(pos: Pos) -> (i: Insect)
        requires
            on_board(pos),
        ensures
            is_new_pillbug(i, pos),
    {
        let base = BaseInsect::new(pos, FACTION_PILLBUG);
        let reproduce = gen_range_u32(0, (PILLBUG_REPRODUCE_TIME / 4) as u32);
        Insect {
            base,
            spec: Behaviour::Pillbug(Self { curled: false, speed: 0, reproduce: reproduce as u8 }),
        }
    }

    /// The pillbug's turn after the speed and reproduction checks: eats,
    /// looks around, uncurls, curls again at the sight of an enemy, and
    /// moves towards food (or the way `roll` picks) on a moving turn.
    pub fn act(&mut self, base: &mut BaseInsect, map: &mut Board, will_move_in: bool, roll: u32) -> (e:
        Option<Event>)
        requires
            old(base).wf(),
            old(map).wf(),
        ensures
            (*final(self), *final(base), final(map)@, e) == pillbug_act_spec(
                *old(self),
                *old(base),
                old(map)@,
                will_move_in,
                roll,
            ),
            final(base).wf(),
            final(map).wf(),
    {
        let mut will_move = will_move_in;
        if will_move {
            // eat the food?
            if base.hunger < PILLBUG_EAT_THRESHOLD {
                let eaten = match map.get_cell_mut(base.pos) {
                    Some(cell) => cell.take_type(CellType::Food),
                    None => None,
                };
                if eaten.is_some() {
                    base.hunger += PILLBUG_FOOD_VALUE;
                }
            } else {
                let on_food = match map.get_cell(base.pos) {
                    Some(cell) => cell.is_type(CellType::Food),
                    None => false,
                };
                if on_food {
                    // no point in moving: stay on the food
                    will_move = false;
                }
            }
        }
        let ghost m1 = map@;
        let ghost b1 = *base;
        assert((b1, m1, will_move) == pillbug_eat_spec(*old(base), old(map)@, will_move_in));
        let perception = base.perception(map);
        let mut best_pos = Some(base.move_random_with(roll));
        if self.curled {
            self.curled = false;
            match map.get_cell_mut(base.pos) {
                Some(cell) => {
                    cell.m_type = CellType::Empty;
                },
                None => {},
            }
        }
        let ghost s = seen(b1, m1);
        let ghost goal = pillbug_pick(s, 0, best_pos);
        let mut i: usize = 0;
        let mut scared = false;
        while i < 5 && !scared
            invariant
                i <= 5,
                perception_matches(perception, b1, m1),
                s == seen(b1, m1),
                !scared ==> pillbug_pick(s, i as int, best_pos) == goal,
                scared ==> goal == (true, best_pos) && best_pos is None,
            decreases 5 - i + (if scared { 0int } else { 1int }),
        {
            if perception[i].1.faction != FACTION_PILLBUG && perception[i].1.faction != FACTION_NONE {
                // scary!
                scared = true;
                best_pos = None;
            } else {
                if perception[i].1.cell_type == CellType::Food {
                    // food!
                    best_pos = Some(perception[i].0);
                }
                i += 1;
            }
        }
        if scared {
            self.curled = true;
        }
        proof {
            lemma_pillbug_pick_from_seen(s, 0, Some(move_random_spec(b1, roll)));
            crate::insect::lemma_seen_neighbours(b1, m1);
        }
        if will_move && best_pos.is_some() {
            base.try_move(best_pos.unwrap(), map)
        } else {
            None
        }
    }
}

impl InsectBehaviour for Pillbug {
    open spec fn inner_wf(&self) -> bool {
        true
    }

    /// A pillbug cannot be steered.
    open spec fn handles(&self, action: Action) -> bool {
        false
    }

    fn update(&mut self, base: &mut BaseInsect, map: &mut Board) -> (e: Option<Event>)
        ensures
            !crate::insect::is_rebirth(e),
            ({
                let (sp, wm) = will_move_spec(old(self).speed, PILLBUG_SPEED);
                let (h, c, born) = reproduce_spec(
                    old(base).hunger,
                    old(self).reproduce,
                    PILLBUG_REPRODUCE_TIME,
                    PILLBUG_REPRODUCE_COST,
                );
                &&& born ==> {
                    &&& e matches Some(Event::Birth(child)) && is_new_pillbug(*child, old(base).pos)
                    &&& *final(self) == Pillbug { speed: sp, reproduce: c, ..*old(self) }
                    &&& *final(base) == BaseInsect { hunger: h, ..*old(base) }
                    &&& final(map)@ == old(map)@
                }
                &&& !born ==> exists|roll: u32|
                    (*final(self), *final(base), final(map)@, e) == #[trigger] pillbug_turn_spec(
                        *old(self),
                        *old(base),
                        old(map)@,
                        roll,
                    )
            }),
    {
        let will_move = BaseInsect::will_move(&mut self.speed, PILLBUG_SPEED);
        if base.update_reproduce(
            &mut self.reproduce,
            PILLBUG_REPRODUCE_TIME,
            PILLBUG_REPRODUCE_COST,
        ) {
            return Some(Event::Birth(Box::new(Self::new(base.pos))));
        }
        let roll = rand_u32();
        let ghost pb_mid = *self;
        let ghost b_mid = *base;
        let ghost m_mid = map@;
        let e = self.act(base, map, will_move, roll);
        assert((*self, *base, map@, e) == pillbug_turn_spec(*old(self), *old(base), old(map)@, roll));
        e
    }

    fn player_action(&mut self, base: &mut BaseInsect, map: &mut Board, action: Action) -> (e:
        Option<Event>) {
        None
    }
}

} // verus!
