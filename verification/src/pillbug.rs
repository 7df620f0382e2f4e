//! The first pillbug: it grazes every other tick and curls up for good at
//! the first sight of an enemy.

use vstd::prelude::*;

use crate::insect::pillbug::{
    lemma_eating_keeps_factions, lemma_pillbug_pick_from_seen, lemma_pillbug_pick_scared, pillbug_pick,
};
use crate::insect::{base_update_spec, move_random_spec, perception_matches, seen, BaseInsect};
use crate::map::{index, on_board, take_type_spec, Board, Cell, CellType, FACTION_NONE, FACTION_PILLBUG};
use crate::pos::Pos;
use crate::rng::rand_u32;

verus! {

pub struct Pillbug {
    pub insect: BaseInsect,
    pub curled: bool,
    pub speed: u8,
}

/// One turn of the first pillbug for a roll of `roll`: the pillbug,
/// the board and whether it lives on.
pub open spec fn old_pillbug_turn_spec(pb: Pillbug, m: Seq<Cell>, roll: u32) -> (Pillbug, Seq<Cell>, bool) {
    let will_move = pb.speed == 1;
    let speed: u8 = if will_move {
        0
    } else {
        1
    };
    let b = pb.insect;
    let (b1, m1) = if will_move {
        let (c2, r) = take_type_spec(m[index(b.pos)], CellType::Food);
        if r is Some {
            (BaseInsect { hunger: 255, ..b }, m.update(index(b.pos), c2))
        } else {
            (b, m)
        }
    } else {
        (b, m)
    };
    let (scared, best) = pillbug_pick(seen(b1, m1), 0, Some(move_random_spec(b1, roll)));
    let curled = pb.curled || scared;
    let (b2, m2, alive) = base_update_spec(
        b1,
        m1,
        if will_move {
            best
        } else {
            None
        },
    );
    (Pillbug { insect: b2, curled, speed }, m2, alive || curled)
}

/// The first pillbug, too, curls up at an insect of any faction but its
/// own (a spider included) anywhere around it: it ends the turn curled where
/// it stood, and alive.
pub proof fn lemma_first_pillbug_curls_at_enemy(pb: Pillbug, m: Seq<Cell>, roll: u32, k: int)
    requires
        pb.insect.wf(),
        m.len() == crate::map::NUM_CELLS,
        0 <= k < 5,
        seen(pb.insect, m)[k].1.1 != FACTION_PILLBUG,
        seen(pb.insect, m)[k].1.1 != FACTION_NONE,
    ensures
        old_pillbug_turn_spec(pb, m, roll).0.curled,
        old_pillbug_turn_spec(pb, m, roll).0.insect.pos == pb.insect.pos,
        old_pillbug_turn_spec(pb, m, roll).2,
{
    let b = pb.insect;
    let will_move = pb.speed == 1;
    let (b1, m1) = if will_move {
        let (c2, r) = take_type_spec(m[index(b.pos)], CellType::Food);
        if r is Some {
            (BaseInsect { hunger: 255, ..b }, m.update(index(b.pos), c2))
        } else {
            (b, m)
        }
    } else {
        (b, m)
    };
    assert forall|i: int| 0 <= i < m.len() implies (#[trigger] m1[i]).occupied == m[i].occupied by {
        if i == index(b.pos) {
        }
    }
    lemma_eating_keeps_factions(b, m, b1, m1, k);
    lemma_pillbug_pick_scared(seen(b1, m1), 0, Some(move_random_spec(b1, roll)), k);
}

impl Pillbug {
    pub open spec fn wf(&self) -> bool {
        self.insect.wf()
    }

    pub fn new(pos: Pos) -> (p: Self)
        requires
            on_board(pos),
        ensures
            p.wf(),
            p.insect.pos == pos,
            p.insect.faction == FACTION_PILLBUG,
            !p.curled,
            p.speed == 0,
    {
        Self { insect: BaseInsect::new(pos, FACTION_PILLBUG), curled: false, speed: 0 }
    }

    /// One turn for a roll of `roll` (which way to wander); returns whether
    /// the pillbug lives on. A curled pillbug always does.
    pub fn update_with(&mut self, map: &mut Board, roll: u32) -> (alive: bool)
        requires
            old(self).wf(),
            old(map).wf(),
        ensures
            final(self).wf(),
            final(map).wf(),
            (*final(self), final(map)@, alive) == old_pillbug_turn_spec(*old(self), old(map)@, roll),
    {
        let will_move = if self.speed == 1 {
            self.speed = 0;
            true
        } else {
            self.speed = 1;
            false
        };
        if will_move {
            // eat the food?
            let eaten = match map.get_cell_mut(self.insect.pos) {
                Some(cell) => cell.take_type(CellType::Food),
                None => None,
            };
            if eaten.is_some() {
                self.insect.hunger = 255;
            }
        }
        let ghost b1 = self.insect;
        let ghost m1 = map@;
        proof {
            let b = old(self).insect;
            let m = old(map)@;
            if will_move {
                let (c2, r) = take_type_spec(m[index(b.pos)], CellType::Food);
                if r is Some {
                    assert(b1 == BaseInsect { hunger: 255, ..b });
                    assert(m1 == m.update(index(b.pos), c2));
                } else {
                    assert(m1 =~= m);
                }
            }
        }
        let perception = self.insect.perception(map);
        let mut best_pos = Some(self.insect.move_random_with(roll));
        let ghost s = seen(b1, m1);
        let ghost goal = pillbug_pick(s, 0, best_pos);
        let mut i: usize = 0;
        let mut scared = false;
        while i < 5 && !scared
            invariant
                i <= 5,
                perception_matches(perception, b1, m1),
                s == seen(b1, m1),
                !scared ==> pillbug_pick(s, i as int, best_pos) == goal,
                scared ==> goal == (true, best_pos) && best_pos is None,
            decreases 5 - i + (if scared { 0int } else { 1int }),
        {
            if perception[i].1.faction != FACTION_PILLBUG && perception[i].1.faction != FACTION_NONE {
                // scary!
                scared = true;
                best_pos = None;
            } else {
                if perception[i].1.cell_type == CellType::Food {
                    // food!
                    best_pos = Some(perception[i].0);
                }
                i += 1;
            }
        }
        if scared {
            self.curled = true;
        }
        proof {
            lemma_pillbug_pick_from_seen(s, 0, Some(move_random_spec(b1, roll)));
            crate::insect::lemma_seen_neighbours(b1, m1);
            crate::insect::lemma_move_random_neighbour(b1, roll);
        }
        let next = if will_move {
            best_pos
        } else {
            None
        };
        let alive = self.insect.update(next, map);
        alive || self.curled
    }

    /// One turn; returns whether the pillbug lives on.
    pub fn update(&mut self, map: &mut Board) -> (alive: bool)
        requires
            old(self).wf(),
            old(map).wf(),
        ensures
            final(self).wf(),
            final(map).wf(),
            exists|roll: u32|
                (*final(self), final(map)@, alive) == #[trigger] old_pillbug_turn_spec(
                    *old(self),
                    old(map)@,
                    roll,
                ),
    {
        let roll = rand_u32();
        self.update_with(map, roll)
    }
}

} // verus!
