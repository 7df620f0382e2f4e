//! A player-driven insect: it does nothing on its own, moves where it is
//! told, and passes other actions to the insect it was.

use vstd::prelude::*;

use crate::insect::{
    action_relation, is_neighbour, Action, BaseInsect, Behaviour, Event, Insect, InsectBehaviour,
};
use crate::map::Board;
use crate::pos::dirs::is_dir;
use crate::pos::{pos_add, Pos};

verus! {

pub struct InsectPlayer {
    pub sub_insect: Box<Behaviour>,
}

impl InsectPlayer {
    /// Puts `insect` under the player's control.
    pub fn new(insect: Insect) -> (i: Insect)
        requires
            insect.wf(),
        ensures
            i.wf(),
            i.base == insect.base,
            i.spec == Behaviour::Player(InsectPlayer { sub_insect: Box::new(insect.spec) }),
    {
        Insect { base: insect.base, spec: Behaviour::Player(Self { sub_insect: Box::new(insect.spec) }) }
    }
}

impl InsectBehaviour for InsectPlayer {
    open spec fn inner_wf(&self) -> bool {
        crate::insect::behaviour_wf(*self.sub_insect)
    }

    /// A move is one step in one of the four directions; other actions go to
    /// the insect underneath, which must not itself be player-driven.
    open spec fn handles(&self, action: Action) -> bool {
        match action {
            Action::Move(d) => is_dir(d),
            _ => !(*self.sub_insect is Player) && crate::insect::behaviour_handles(
                *self.sub_insect,
                action,
            ),
        }
    }

    fn update(&mut self, base: &mut BaseInsect, map: &mut Board) -> (e: Option<Event>)
        ensures
            e is None,
            *final(self) == *old(self),
            *final(base) == *old(base),
            final(map)@ == old(map)@,
    {
        // Do nothing, because we want the player to do stuff...
        None
    }

    fn player_action(&mut self, base: &mut BaseInsect, map: &mut Board, action: Action) -> (e:
        Option<Event>)
        ensures
            *final(self) == *old(self),
            action_relation(
                Behaviour::Player(*old(self)),
                *old(base),
                old(map)@,
                *final(base),
                final(map)@,
                e,
                action,
            ),
    {
        proof {
            reveal_with_fuel(action_relation, 2);
        }
        match action {
            Action::Move(pos) => {
                let next = base.pos + pos;
                assert(is_neighbour(*base, next));
                base.try_move(next, map)
            },
            _ => match &mut *self.sub_insect {
                Behaviour::Pillbug(p) => p.player_action(base, map, action),
                Behaviour::Spider(s) => s.player_action(base, map, action),
                Behaviour::Egg(e) => e.player_action(base, map, action),
                Behaviour::Player(_) => None,
            },
        }
    }
}

} // verus!
