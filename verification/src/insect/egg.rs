//! Eggs: an insect waiting to hatch.

use vstd::prelude::*;

use crate::insect::{Action, BaseInsect, Event, Insect, InsectBehaviour, Behaviour};
use crate::map::{on_board, Board};
use crate::pos::Pos;

verus! {

pub struct Egg {
    pub germination: u8,
    pub hatch: Option<Box<Insect>>,
}

/// One call of `Egg::update`: the germination counts down (not below
/// zero), and when it is zero an egg that still holds its insect hands it
/// out to hatch.
pub open spec fn egg_step(e: Egg) -> (Egg, Option<Event>) {
    let g: u8 = if e.germination == 0 {
        0
    } else {
        (e.germination - 1) as u8
    };
    if g == 0 && e.hatch is Some {
        (Egg { germination: 0, hatch: None }, Some(Event::Rebirth(e.hatch->0)))
    } else {
        (Egg { germination: g, ..e }, None)
    }
}

/// `n` calls of `Egg::update` from `e`: the egg afterwards and the events
/// of the calls, in order.
pub open spec fn egg_run(e: Egg, n: nat) -> (Egg, Seq<Option<Event>>)
    decreases n,
{
    if n == 0 {
        (e, Seq::empty())
    } else {
        let (e1, ev) = egg_step(e);
        let (e2, evs) = egg_run(e1, (n - 1) as nat);
        (e2, seq![ev] + evs)
    }
}

/// The call (counting from 1) on which an egg of germination `g` hatches.
pub open spec fn hatch_call(g: u8) -> int {
    if g == 0 {
        1
    } else {
        g as int
    }
}

/// An egg hatches exactly once: over any series of calls, an egg that
/// holds its insect returns nothing until call `hatch_call(germination)`,
/// hands out the insect on that call, and returns nothing after it; an egg
/// that holds nothing never returns anything.
pub proof fn lemma_egg_hatches_once(e: Egg, n: nat)
    ensures
        egg_run(e, n).1.len() == n,
        forall|k: int|
            0 <= k < n ==> #[trigger] egg_run(e, n).1[k] == if e.hatch is Some && k + 1 == hatch_call(
                e.germination,
            ) {
                Some(Event::Rebirth(e.hatch->0))
            } else {
                None
            },
    decreases n,
{
    if n > 0 {
        let (e1, ev) = egg_step(e);
        lemma_egg_hatches_once(e1, (n - 1) as nat);
        let evs = egg_run(e, n).1;
        let rest = egg_run(e1, (n - 1) as nat).1;
        assert(evs == seq![ev] + rest);
        assert forall|k: int| 0 <= k < n implies #[trigger] evs[k] == if e.hatch is Some && k + 1
            == hatch_call(e.germination) {
            Some(Event::Rebirth(e.hatch->0))
        } else {
            None
        } by {
            if k > 0 {
                assert(evs[k] == rest[k - 1]);
            }
        }
    }
}

impl Egg {
    /// An egg at `pos`, of `hatch`'s faction, that hatches `hatch` after
    /// `germination` turns.
    pub fn new(pos: Pos, hatch: Insect, germination: u8) -> (i: Insect)
        requires
            on_board(pos),
            hatch.wf(),
        ensures
            i.wf(),
            i.base.pos == pos,
            i.base.faction == hatch.base.faction,
            i.base.health == 3,
            i.base.id == 0,
            !i.base.holds,
            127 <= i.base.hunger < 255,
            i.spec matches Behaviour::Egg(e) && e.germination == germination && e.hatch == Some(
                Box::new(hatch),
            ),
    {
        let faction = hatch.base.faction;
        Insect {
            base: BaseInsect::new(pos, faction),
            spec: Behaviour::Egg(Self { germination, hatch: Some(Box::new(hatch)) }),
        }
    }
}

impl InsectBehaviour for Egg {
    open spec fn inner_wf(&self) -> bool {
        match self.hatch {
            Some(h) => h.wf(),
            None => true,
        }
    }

    /// An egg cannot be steered.
    open spec fn handles(&self, action: Action) -> bool {
        false
    }

    fn update(&mut self, base: &mut BaseInsect, map: &mut Board) -> (e: Option<Event>)
        ensures
            final(self).germination == if old(self).germination == 0 {
                0
            } else {
                (old(self).germination - 1) as u8
            },
            final(self).germination == 0 && old(self).hatch is Some ==> e == Some(
                Event::Rebirth(old(self).hatch->0),
            ) && final(self).hatch is None,
            !(final(self).germination == 0 && old(self).hatch is Some) ==> e is None
                && final(self).hatch == old(self).hatch,
            *final(base) == *old(base),
            final(map)@ == old(map)@,
            (*final(self), e) == egg_step(*old(self)),
    {
        self.germination = self.germination.saturating_sub(1);
        if self.germination == 0 && self.hatch.is_some() {
            let hatched = self.hatch.take();
            Some(Event::Rebirth(hatched.unwrap()))
        } else {
            None
        }
    }

    fn player_action(&mut self, base: &mut BaseInsect, map: &mut Board, action: Action) -> (e:
        Option<Event>) {
        None
    }
}

} // verus!
