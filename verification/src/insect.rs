//! What every insect has, the events its turn can produce, and the moves
//! that all insects share.

use vstd::prelude::*;

use crate::insect::egg::Egg;
use crate::insect::pillbug::Pillbug;
use crate::insect::player::InsectPlayer;
use crate::insect::spider::Spider;
use crate::map::{
    free_spec, occupy_spec, on_board, reclaim_spec, sight_spec, Board, CellType, Faction, OccupyError, Sight,
    index,
};
use crate::pos::dirs::{
    self, invert, invert_spec, is_dir, rotate_left, rotate_left_spec, rotate_right,
    rotate_right_spec,
};
use crate::pos::{pos_add, pos_sub, Pos};
use crate::rng::{gen_range_u32, rand_u32};

pub mod ant;
pub mod egg;
pub mod pillbug;
pub mod player;
pub mod spider;

verus! {

/// What an insect sees around it: behind, left, ahead, right, and behind
/// again the other way round.
pub type Perception = [(Pos, Sight); 5];

pub type Hunger = u16;

pub type Health = u16;

pub type Id = u32;

pub struct Interact {
    pub src: Id,
    pub dst: Id,
    /// Negative is an attack, positive is feeding.
    pub amt: i8,
}

impl Interact {
    /// `src` attacks `dst` with strength `amt`.
    pub fn fight(src: Id, dst: Id, amt: u8) -> (i: Self)
        requires
            amt != 128,
        ensures
            i.src == src,
            i.dst == dst,
            amt < 128 ==> i.amt == -amt,
            amt > 128 ==> i.amt == 256 - amt,
    {
        let a = amt as i8;
        assert(amt < 128 ==> a == amt) by (bit_vector)
            requires
                a == amt as i8,
        ;
        assert(amt >= 128 ==> a == amt - 256) by (bit_vector)
            requires
                a == amt as i8,
        ;
        Self { src, dst, amt: -a }
    }

    /// `src` feeds `dst` with `amt`.
    pub fn feed(src: Id, dst: Id, amt: u8) -> (i: Self)
        ensures
            i.src == src,
            i.dst == dst,
            amt < 128 ==> i.amt == amt,
            amt >= 128 ==> i.amt == amt - 256,
    {
        let a = amt as i8;
        assert(amt < 128 ==> a == amt) by (bit_vector)
            requires
                a == amt as i8,
        ;
        assert(amt >= 128 ==> a == amt - 256) by (bit_vector)
            requires
                a == amt as i8,
        ;
        Self { src, dst, amt: a }
    }
}

pub enum Event {
    Birth(Box<Insect>),
    Rebirth(Box<Insect>),
    Death(),
    Interact(Interact),
}

pub enum Action {
    Move(Pos),
    ActionA,
    ActionB,
}

/// What a kind of insect does on its turn and when a player drives it.
pub trait InsectBehaviour {
    /// Whatever the behaviour keeps inside it is well formed.
    spec fn inner_wf(&self) -> bool;

    /// Whether `player_action` has an answer to `action`.
    spec fn handles(&self, action: Action) -> bool;

    fn update(&mut self, base: &mut BaseInsect, map: &mut Board) -> (e: Option<Event>)
        requires
            old(self).inner_wf(),
            old(base).wf(),
            old(map).wf(),
        ensures
            final(self).inner_wf(),
            final(base).wf(),
            final(map).wf(),
            final(base).faction == old(base).faction,
            final(base).id == old(base).id,
            event_wf(e),
    ;

    fn player_action(&mut self, base: &mut BaseInsect, map: &mut Board, action: Action) -> (e:
        Option<Event>)
        requires
            old(self).inner_wf(),
            old(self).handles(action),
            old(base).wf(),
            old(map).wf(),
        ensures
            final(self).inner_wf(),
            final(base).wf(),
            final(map).wf(),
            final(base).faction == old(base).faction,
            final(base).id == old(base).id,
            event_wf(e),
    ;
}

/// Base class-ish for different insect types.
#[derive(Debug, Clone, Copy)]
pub struct BaseInsect {
    pub pos: Pos,
    pub dir: Pos,
    pub hunger: Hunger,
    pub health: Health,
    pub faction: Faction,
    pub id: Id,
    /// Whether the insect holds the cell it stands on (it has stepped onto
    /// it and not left it since).
    pub holds: bool,
}

/// The kinds of insect, each with its own state.
pub enum Behaviour {
    Pillbug(Pillbug),
    Spider(Spider),
    Egg(Egg),
    Player(InsectPlayer),
}

pub struct Insect {
    pub base: BaseInsect,
    pub spec: Behaviour,
}

/// An insect stands on the board and faces one of the four directions;
/// an egg's hatchling and a player's inner behaviour are well formed too.
pub open spec fn insect_wf(i: Insect) -> bool
    decreases i,
{
    i.base.wf() && behaviour_wf(i.spec)
}

pub open spec fn behaviour_wf(b: Behaviour) -> bool
    decreases b,
{
    match b {
        Behaviour::Egg(e) => match e.hatch {
            Some(h) => insect_wf(*h),
            None => true,
        },
        Behaviour::Player(p) => behaviour_wf(*p.sub_insect),
        _ => true,
    }
}

/// Which player actions a kind of insect answers: a pillbug or an egg none,
/// a spider all but the second action, a player-driven insect a move by one
/// step, and other actions when the insect underneath answers them (and is
/// not itself player-driven).
pub open spec fn behaviour_handles(b: Behaviour, action: Action) -> bool
    decreases b,
{
    match b {
        Behaviour::Pillbug(_) => false,
        Behaviour::Spider(_) => !(action is ActionB),
        Behaviour::Egg(_) => false,
        Behaviour::Player(p) => match action {
            Action::Move(d) => is_dir(d),
            _ => !(*p.sub_insect is Player) && behaviour_handles(*p.sub_insect, action),
        },
    }
}

/// What a player action does to an insect of kind `b` (which keeps its kind
/// and state): `base` on board `m` becomes `base2` on `m2`, with event `e`.
/// A spider told to reproduce gives birth where it stands if its hunger
/// allows it, paying for the child in hunger; told to move, it does nothing.
/// A player-driven insect told to move tries to step that way; other
/// actions go to the insect underneath. Actions a kind does not handle
/// (see `behaviour_handles`) are left open.
pub open spec fn action_relation(
    b: Behaviour,
    base: BaseInsect,
    m: Seq<crate::map::Cell>,
    base2: BaseInsect,
    m2: Seq<crate::map::Cell>,
    e: Option<Event>,
    action: Action,
) -> bool
    decreases b,
{
    match b {
        Behaviour::Spider(_) => match action {
            Action::ActionA => {
                let (h, _, born) = reproduce_spec(
                    base.hunger,
                    crate::insect::spider::SPIDER_REPRODUCE_TIME,
                    crate::insect::spider::SPIDER_REPRODUCE_TIME,
                    crate::insect::spider::SPIDER_REPRODUCE_COST,
                );
                &&& born ==> (e matches Some(Event::Birth(child))
                    && crate::insect::spider::is_new_spider(*child, base.pos))
                &&& !born ==> e is None
                &&& base2 == (BaseInsect { hunger: h, ..base })
                &&& m2 == m
            },
            Action::Move(_) => e is None && base2 == base && m2 == m,
            Action::ActionB => true,
        },
        Behaviour::Player(p) => match action {
            Action::Move(d) => (base2, m2, e) == try_move_spec(base, m, pos_add(base.pos, d)),
            _ => action_relation(*p.sub_insect, base, m, base2, m2, e, action),
        },
        _ => true,
    }
}

/// What one turn of an insect does, for a roll of `roll` (used by pillbugs
/// to wander): `new`, `m2` and `e` are the insect, the board and the event
/// afterwards. A pillbug or a spider with the hunger and (for a pillbug) the
/// cooldown for it gives birth to one of its kind where it stands, and does
/// nothing else; otherwise it takes its turn. An egg counts down and hatches
/// at zero. A player-driven insect does nothing.
pub open spec fn update_relation(
    old: Insect,
    m: Seq<crate::map::Cell>,
    new: Insect,
    m2: Seq<crate::map::Cell>,
    e: Option<Event>,
    roll: u32,
) -> bool {
    match old.spec {
        Behaviour::Pillbug(pb) => {
            let (sp, wm) = will_move_spec(pb.speed, crate::insect::pillbug::PILLBUG_SPEED);
            let (h, c, born) = reproduce_spec(
                old.base.hunger,
                pb.reproduce,
                crate::insect::pillbug::PILLBUG_REPRODUCE_TIME,
                crate::insect::pillbug::PILLBUG_REPRODUCE_COST,
            );
            if born {
                &&& e matches Some(Event::Birth(child)) && crate::insect::pillbug::is_new_pillbug(
                    *child,
                    old.base.pos,
                )
                &&& new == (Insect {
                    base: BaseInsect { hunger: h, ..old.base },
                    spec: Behaviour::Pillbug(Pillbug { speed: sp, reproduce: c, ..pb }),
                })
                &&& m2 == m
            } else {
                let (pb2, b2, m3, e3) = crate::insect::pillbug::pillbug_turn_spec(pb, old.base, m, roll);
                &&& new == (Insect { base: b2, spec: Behaviour::Pillbug(pb2) })
                &&& m2 == m3
                &&& e == e3
            }
        },
        Behaviour::Spider(sp) => {
            if crate::insect::spider::spider_gives_birth(old.base.hunger) {
                &&& e matches Some(Event::Birth(child)) && crate::insect::spider::is_new_spider(
                    *child,
                    old.base.pos,
                )
                &&& new == (Insect {
                    base: BaseInsect {
                        hunger: (old.base.hunger - crate::insect::spider::SPIDER_REPRODUCE_COST) as u16,
                        ..old.base
                    },
                    spec: Behaviour::Spider(sp),
                })
                &&& m2 == m
            } else {
                let (sp2, b2, m3, e3) = crate::insect::spider::spider_hunt_spec(sp, old.base, m);
                &&& new == (Insect { base: b2, spec: Behaviour::Spider(sp2) })
                &&& m2 == m3
                &&& e == e3
            }
        },
        Behaviour::Egg(eg) => {
            let g: u8 = if eg.germination == 0 {
                0
            } else {
                (eg.germination - 1) as u8
            };
            &&& m2 == m
            &&& new.base == old.base
            &&& if g == 0 && eg.hatch is Some {
                &&& e == Some(Event::Rebirth(eg.hatch->0))
                &&& new.spec == Behaviour::Egg(Egg { germination: g, hatch: None })
            } else {
                &&& e is None
                &&& new.spec == Behaviour::Egg(Egg { germination: g, ..eg })
            }
        },
        Behaviour::Player(_) => new == old && m2 == m && e is None,
    }
}

/// How the game deals with the event `e` of an insect's turn, which left the
/// insect as `mid` and the board as `m1`: a dead insect leaves its cell and is
/// gone, a birth is recorded by its position in `nb`, a hatchling replaces
/// the egg; `fin`, `m2`, `nb1` and `alive` are the outcome.
pub open spec fn turn_handled(
    e: Option<Event>,
    mid: Insect,
    m1: Seq<crate::map::Cell>,
    fin: Insect,
    m2: Seq<crate::map::Cell>,
    nb: Seq<Pos>,
    nb1: Seq<Pos>,
    alive: bool,
) -> bool {
    match e {
        None => fin == mid && m2 == m1 && nb1 == nb && alive,
        Some(Event::Death()) => fin == mid && m2 == leave_spec(mid.base, m1) && nb1 == nb && !alive,
        Some(Event::Birth(c)) => fin == mid && m2 == m1 && nb1 == nb.push(c.base.pos) && alive,
        Some(Event::Rebirth(c)) => fin == *c && m2 == m1 && nb1 == nb && alive,
        Some(Event::Interact(_)) => fin == mid && m2 == m1 && nb1 == nb && alive,
    }
}

/// One turn of an insect in the game (see `Insect::take_turn`): `old` on
/// board `m` with births `nb` so far becomes `fin` on `m2` with births
/// `nb1`; `alive` tells whether it lives on.
pub open spec fn turn_relation(
    old: Insect,
    m: Seq<crate::map::Cell>,
    fin: Insect,
    m2: Seq<crate::map::Cell>,
    nb: Seq<Pos>,
    nb1: Seq<Pos>,
    alive: bool,
) -> bool {
    if killed_spec(old.base, m) {
        &&& !alive
        &&& fin == old
        &&& m2 == killed_board(old.base, m)
        &&& nb1 == nb
    } else {
        exists|e: Option<Event>, mid: Insect, m1: Seq<crate::map::Cell>, roll: u32|
            #[trigger] update_relation(old, m, mid, m1, e, roll) && turn_handled(
                e,
                mid,
                m1,
                fin,
                m2,
                nb,
                nb1,
                alive,
            )
    }
}

pub open spec fn is_rebirth(e: Option<Event>) -> bool {
    e matches Some(Event::Rebirth(_))
}

/// Insects that an event brings into the game are well formed.
pub open spec fn event_wf(e: Option<Event>) -> bool {
    match e {
        Some(Event::Birth(b)) => insect_wf(*b),
        Some(Event::Rebirth(b)) => insect_wf(*b),
        _ => true,
    }
}

pub open spec fn sat_sub_u16(a: u16, b: u16) -> u16 {
    if a >= b {
        (a - b) as u16
    } else {
        0
    }
}

pub open spec fn sat_add_u16(a: u16, b: u16) -> u16 {
    if a + b > u16::MAX {
        u16::MAX
    } else {
        (a + b) as u16
    }
}

/// The five directions an insect facing `d` looks in.
pub open spec fn perception_dirs(d: Pos) -> Seq<Pos> {
    seq![
        rotate_left_spec(rotate_left_spec(d)),
        rotate_left_spec(d),
        d,
        rotate_right_spec(d),
        rotate_right_spec(rotate_right_spec(d)),
    ]
}

/// The `k`-th position an insect perceives.
pub open spec fn perceived_pos(b: BaseInsect, k: int) -> Pos {
    pos_add(b.pos, perception_dirs(b.dir)[k])
}

/// What the insect perceives: each position with its cell type and faction.
pub open spec fn seen(b: BaseInsect, m: Seq<crate::map::Cell>) -> Seq<(Pos, (CellType, Faction))> {
    Seq::new(5, |k: int| (perceived_pos(b, k), sight_spec(m, perceived_pos(b, k))))
}

/// Whether `p` (an array of perceptions) is what the insect perceives on `m`.
pub open spec fn perception_matches(p: Perception, b: BaseInsect, m: Seq<crate::map::Cell>) -> bool {
    forall|k: int|
        0 <= k < 5 ==> (#[trigger] p[k]).0 == seen(b, m)[k].0 && (p[k].1.cell_type, p[k].1.faction)
            == seen(b, m)[k].1
}

/// The step `move_random` takes for a roll of `roll`: half the time ahead,
/// a quarter of the time to each side.
pub open spec fn move_random_spec(b: BaseInsect, roll: u32) -> Pos {
    if roll < u32::MAX / 2 {
        if roll < u32::MAX / 4 {
            pos_add(b.pos, rotate_left_spec(b.dir))
        } else {
            pos_add(b.pos, rotate_right_spec(b.dir))
        }
    } else {
        pos_add(b.pos, b.dir)
    }
}

/// Whether `next` is one step away from `b`.
pub open spec fn is_neighbour(b: BaseInsect, next: Pos) -> bool {
    exists|d: Pos| is_dir(d) && next == pos_add(b.pos, d)
}

/// `will_move`: the speed counter and whether the insect moves.
pub open spec fn will_move_spec(speed: u8, max_speed: u8) -> (u8, bool) {
    if speed == 0 {
        (max_speed, true)
    } else {
        ((speed - 1) as u8, false)
    }
}

/// `update_reproduce`: the cooldown, the hunger and whether a child is born.
pub open spec fn reproduce_spec(hunger: u16, cooldown: u8, time: u8, cost: u16) -> (u16, u8, bool) {
    let c = if cooldown == u8::MAX {
        u8::MAX
    } else {
        (cooldown + 1) as u8
    };
    if c >= time && hunger > cost {
        ((hunger - cost) as u16, 0, true)
    } else {
        (hunger, c, false)
    }
}

/// `try_move`: the insect, the board and the event after trying to step to
/// `next`. A step costs one hunger and starving ends the insect; a rock or
/// the edge turns it round; another faction's insect is attacked, with the
/// cell marked by the attacker; otherwise the insect moves and leaves its
/// old cell.
pub open spec fn try_move_spec(b: BaseInsect, m: Seq<crate::map::Cell>, next: Pos) -> (
    BaseInsect,
    Seq<crate::map::Cell>,
    Option<Event>,
) {
    let b1 = BaseInsect { hunger: sat_sub_u16(b.hunger, 1), ..b };
    if b1.hunger == 0 {
        (b1, m, Some(Event::Death()))
    } else {
        let (m1, r) = occupy_spec(m, next, (b.faction, b.id));
        match r {
            Ok(_) => (
                BaseInsect { pos: next, dir: pos_sub(next, b.pos), holds: true, ..b1 },
                leave_spec(b, m1),
                None,
            ),
            Err(OccupyError::Solid) => (BaseInsect { dir: invert_spec(b.dir), ..b1 }, m1, None),
            Err(OccupyError::Fight(id)) => (
                b1,
                m1,
                Some(Event::Interact(Interact { src: b.id, dst: id, amt: -1i8 })),
            ),
        }
    }
}

/// Whether an enemy has taken the insect's cell from it: the insect holds
/// the cell, which is registered under its id but carries another faction.
pub open spec fn killed_spec(b: BaseInsect, m: Seq<crate::map::Cell>) -> bool {
    b.holds && match m[index(b.pos)].occupied {
        Some(o) => o.1 == b.id && o.0 != b.faction,
        None => false,
    }
}

/// The board after `b` leaves its cell: it lets go of the cell if it holds
/// it (the registration goes with the last holder).
pub open spec fn leave_spec(b: BaseInsect, m: Seq<crate::map::Cell>) -> Seq<crate::map::Cell> {
    if b.holds {
        free_spec(m, b.pos, (b.faction, b.id))
    } else {
        m
    }
}

/// The board after `b` finds an enemy's mark on its cell and dies: it puts
/// its own faction back on the mark, so that allies on the cell keep it,
/// and lets go of the cell.
pub open spec fn killed_board(b: BaseInsect, m: Seq<crate::map::Cell>) -> Seq<crate::map::Cell> {
    leave_spec(b, reclaim_spec(m, b.pos, b.faction))
}

impl BaseInsect {
    /// On the board, facing one of the four directions.
    pub open spec fn wf(&self) -> bool {
        on_board(self.pos) && is_dir(self.dir)
    }

    /// A new insect at `pos` facing a random direction, with a random hunger
    /// between 127 and 254 and health 3.
    pub fn new(pos: Pos, faction: Faction) -> (b: Self)
        ensures
            b.pos == pos,
            is_dir(b.dir),
            127 <= b.hunger < 255,
            b.health == 3,
            b.faction == faction,
            b.id == 0,
            !b.holds,
    {
        let dir = dirs::rand();
        let hunger = gen_range_u32(127, 255);
        Self { pos, dir, hunger: hunger as u16, health: 3, faction, id: 0, holds: false }
    }

    pub fn sight(pos: Pos, map: &Board) -> (r: (Pos, Sight))
        requires
            map.wf(),
        ensures
            r.0 == pos,
            (r.1.cell_type, r.1.faction) == sight_spec(map@, pos),
    {
        (pos, map.sight(pos))
    }

    pub fn perception(&self, map: &Board) -> (p: Perception)
        requires
            self.wf(),
            map.wf(),
        ensures
            perception_matches(p, *self, map@),
    {
        let back_left = rotate_left(rotate_left(self.dir));
        let left = rotate_left(self.dir);
        let right = rotate_right(self.dir);
        let back_right = rotate_right(rotate_right(self.dir));
        let p = [
            Self::sight(self.pos + back_left, map),
            Self::sight(self.pos + left, map),
            Self::sight(self.pos + self.dir, map),
            Self::sight(self.pos + right, map),
            Self::sight(self.pos + back_right, map),
        ];
        assert(perception_matches(p, *self, map@));
        p
    }

    /// The step a roll of `roll` picks: half the time ahead, a quarter of the
    /// time to each side.
    pub fn move_random_with(&self, roll: u32) -> (p: Pos)
        requires
            self.wf(),
        ensures
            p == move_random_spec(*self, roll),
            is_neighbour(*self, p),
    {
        if roll < u32::MAX / 2 {
            if roll < u32::MAX / 4 {
                let d = rotate_left(self.dir);
                self.pos + d
            } else {
                let d = rotate_right(self.dir);
                self.pos + d
            }
        } else {
            self.pos + self.dir
        }
    }

    /// A random neighbouring position: half the time ahead, a quarter of the
    /// time to each side.
    pub fn move_random(&self) -> (p: Pos)
        requires
            self.wf(),
        ensures
            exists|roll: u32| p == move_random_spec(*self, roll),
            is_neighbour(*self, p),
    {
        let roll = rand_u32();
        self.move_random_with(roll)
    }

    /// Counts the speed down; an insect moves when it reaches zero, and the
    /// counter starts again from `max_speed`.
    pub fn will_move(speed: &mut u8, max_speed: u8) -> (r: bool)
        ensures
            (*final(speed), r) == will_move_spec(*old(speed), max_speed),
    {
        if *speed == 0 {
            *speed = max_speed;
            true
        } else {
            *speed -= 1;
            false
        }
    }

    /// Counts the cooldown up; once it reaches `reproduce_time`, and if the
    /// insect has more than `reproduce_cost` hunger to spare, a child is born:
    /// the cost is paid and the cooldown restarts.
    pub fn update_reproduce(
        &mut self,
        reproduce_cooldown: &mut u8,
        reproduce_time: u8,
        reproduce_cost: u16,
    ) -> (r: bool)
        ensures
            (final(self).hunger, *final(reproduce_cooldown), r) == reproduce_spec(
                old(self).hunger,
                *old(reproduce_cooldown),
                reproduce_time,
                reproduce_cost,
            ),
            final(self).pos == old(self).pos,
            final(self).dir == old(self).dir,
            final(self).health == old(self).health,
            final(self).faction == old(self).faction,
            final(self).id == old(self).id,
            final(self).holds == old(self).holds,
    {
        *reproduce_cooldown = reproduce_cooldown.saturating_add(1);
        if *reproduce_cooldown >= reproduce_time && self.hunger > reproduce_cost {
            *reproduce_cooldown = 0;
            self.hunger -= reproduce_cost;
            true
        } else {
            false
        }
    }

    /// Tries to step onto `next`, a neighbouring position.
    pub fn try_move(&mut self, next_pos: Pos, map: &mut Board) -> (e: Option<Event>)
        requires
            old(self).wf(),
            old(map).wf(),
            is_neighbour(*old(self), next_pos),
        ensures
            (*final(self), final(map)@, e) == try_move_spec(*old(self), old(map)@, next_pos),
            final(self).wf(),
            final(map).wf(),
    {
        // FOR NOW: Only expend hunger when moving
        // check if we die of hunger
        self.hunger = self.hunger.saturating_sub(1);
        if self.hunger == 0 {
            // we die
            return Some(Event::Death());
        }
        let who = (self.faction, self.id);
        match map.occupy(next_pos, who) {
            Ok(_) => {
                self.leave(map);
                proof {
                    let d = choose|d: Pos| is_dir(d) && next_pos == pos_add(self.pos, d);
                    assert(pos_sub(next_pos, self.pos) == d);
                }
                self.dir = next_pos - self.pos;
                self.pos = next_pos;
                self.holds = true;
            },
            Err(OccupyError::Solid) => self.dir = invert(self.dir),
            Err(OccupyError::Fight(id)) => {
                return Some(Event::Interact(Interact::fight(self.id, id, 1)));
            },
        }
        None
    }

    /// The insect lets go of its cell, if it holds it.
    pub fn leave(&self, map: &mut Board)
        requires
            old(map).wf(),
        ensures
            final(map).wf(),
            final(map)@ == leave_spec(*self, old(map)@),
    {
        if self.holds {
            let _ = map.free(self.pos, (self.faction, self.id));
        }
    }

    /// An insect that found an enemy's mark on its cell puts its own faction
    /// back on the mark and lets go of the cell.
    pub fn die_marked(&self, map: &mut Board)
        requires
            old(map).wf(),
        ensures
            final(map).wf(),
            final(map)@ == killed_board(*self, old(map)@),
    {
        map.reclaim(self.pos, self.faction);
        self.leave(map);
    }

    /// Whether an enemy has taken this insect's cell from it.
    pub fn was_killed(&self, map: &Board) -> (r: bool)
        requires
            self.wf(),
            map.wf(),
        ensures
            r == killed_spec(*self, map@),
    {
        if !self.holds {
            return false;
        }
        match map.get_cell(self.pos) {
            Some(cell) => match cell.occupied {
                Some(o) => o.1 == self.id && o.0 != self.faction,
                None => false,
            },
            None => false,
        }
    }

    /// One turn of an insect that is steered from outside: it dies if an
    /// enemy has taken its cell; otherwise it tries to step to `next_pos`,
    /// if there is one, and dies if it starves on the way. A dead insect
    /// leaves its cell. Returns whether it lives on.
    pub fn update(&mut self, next_pos: Option<Pos>, map: &mut Board) -> (alive: bool)
        requires
            old(self).wf(),
            old(map).wf(),
            next_pos matches Some(p) ==> is_neighbour(*old(self), p),
        ensures
            final(self).wf(),
            final(map).wf(),
            (*final(self), final(map)@, alive) == base_update_spec(*old(self), old(map)@, next_pos),
    {
        if self.was_killed(map) {
            self.die_marked(map);
            return false;
        }
        match next_pos {
            None => true,
            Some(p) => {
                match self.try_move(p, map) {
                    Some(Event::Death()) => {
                        self.leave(map);
                        false
                    },
                    _ => true,
                }
            },
        }
    }
}

/// `BaseInsect::update`: the insect, the board, and whether it lives on.
pub open spec fn base_update_spec(b: BaseInsect, m: Seq<crate::map::Cell>, next: Option<Pos>) -> (
    BaseInsect,
    Seq<crate::map::Cell>,
    bool,
) {
    if killed_spec(b, m) {
        (b, killed_board(b, m), false)
    } else {
        match next {
            None => (b, m, true),
            Some(p) => {
                let (b1, m1, e) = try_move_spec(b, m, p);
                match e {
                    Some(Event::Death()) => (b1, leave_spec(b1, m1), false),
                    _ => (b1, m1, true),
                }
            },
        }
    }
}

impl Insect {
    /// One turn of the insect in the game. It dies if an enemy has taken its
    /// cell. Otherwise it acts: when it dies of hunger it leaves its cell;
    /// when it gives birth, the child's position is added to `new_bugs`; when
    /// it hatches, it becomes the hatchling. Returns whether it lives on.
    pub fn take_turn(&mut self, map: &mut Board, new_bugs: &mut Vec<Pos>) -> (alive: bool)
        requires
            old(self).wf(),
            old(map).wf(),
        ensures
            final(self).wf(),
            final(map).wf(),
            killed_spec(old(self).base, old(map)@) ==> !alive && *final(self) == *old(self)
                && final(map)@ == killed_board(old(self).base, old(map)@)
                && final(new_bugs)@ == old(new_bugs)@,
            final(new_bugs)@ == old(new_bugs)@ || exists|p: Pos|
                on_board(p) && final(new_bugs)@ == old(new_bugs)@.push(p),
            !(old(self).spec is Egg) ==> final(self).base.faction == old(self).base.faction
                && final(self).base.id == old(self).base.id,
            old(self).spec is Pillbug ==> final(self).spec is Pillbug,
            old(self).spec is Spider ==> final(self).spec is Spider,
            old(self).spec is Player ==> final(self).spec is Player,
            turn_relation(
                *old(self),
                old(map)@,
                *final(self),
                final(map)@,
                old(new_bugs)@,
                final(new_bugs)@,
                alive,
            ),
    {
        if self.base.was_killed(map) {
            self.base.die_marked(map);
            return false;
        }
        let ghost old_ins = *self;
        let ghost m0 = map@;
        let e = self.update(map);
        let ghost mid = *self;
        let ghost m1 = map@;
        let ghost roll = choose|roll: u32| #[trigger] update_relation(old_ins, m0, mid, m1, e, roll);
        let ghost e_copy = e;
        let alive = match e {
            None => true,
            Some(Event::Death()) => {
                self.base.leave(map);
                false
            },
            Some(Event::Birth(child)) => {
                new_bugs.push(child.base.pos);
                true
            },
            Some(Event::Rebirth(child)) => {
                *self = *child;
                true
            },
            Some(Event::Interact(_)) => true,
        };
        assert(update_relation(old_ins, m0, mid, m1, e_copy, roll) && turn_handled(
            e_copy,
            mid,
            m1,
            *self,
            map@,
            old(new_bugs)@,
            new_bugs@,
            alive,
        ));
        alive
    }

    /// An insect stands on the board facing a direction; what it carries
    /// inside is well formed too.
    pub open spec fn wf(&self) -> bool {
        insect_wf(*self)
    }

    pub fn update(&mut self, map: &mut Board) -> (e: Option<Event>)
        requires
            old(self).wf(),
            old(map).wf(),
        ensures
            final(self).wf(),
            final(map).wf(),
            old(self).spec is Pillbug ==> final(self).spec is Pillbug && !is_rebirth(e),
            old(self).spec is Spider ==> final(self).spec is Spider && !is_rebirth(e),
            old(self).spec is Player ==> final(self).spec is Player && e is None,
            exists|roll: u32|
                #[trigger] update_relation(*old(self), old(map)@, *final(self), final(map)@, e, roll),
            final(self).base.faction == old(self).base.faction,
            final(self).base.id == old(self).base.id,
            event_wf(e),
    {
        self.spec.update(&mut self.base, map)
    }

    /// The insect does what the player tells it (see `action_relation`).
    pub fn player_action(&mut self, map: &mut Board, action: Action) -> (e: Option<Event>)
        requires
            old(self).wf(),
            old(map).wf(),
            old(self).spec.handles(action),
        ensures
            final(self).wf(),
            final(map).wf(),
            final(self).base.faction == old(self).base.faction,
            final(self).base.id == old(self).base.id,
            event_wf(e),
            final(self).spec == old(self).spec,
            action_relation(
                old(self).spec,
                old(self).base,
                old(map)@,
                final(self).base,
                final(map)@,
                e,
                action,
            ),
    {
        self.spec.player_action(&mut self.base, map, action)
    }

    /// An attack takes health away, feeding adds hunger; neither goes past
    /// its bounds.
    pub fn interact(&mut self, interact: Interact)
        requires
            interact.amt != i8::MIN,
        ensures
            interact.amt < 0 ==> final(self).base == (BaseInsect {
                health: sat_sub_u16(old(self).base.health, (-interact.amt) as u16),
                ..old(self).base
            }),
            interact.amt >= 0 ==> final(self).base == (BaseInsect {
                hunger: sat_add_u16(old(self).base.hunger, interact.amt as u16),
                ..old(self).base
            }),
            final(self).spec == old(self).spec,
    {
        if interact.amt < 0 {
            self.base.health = self.base.health.saturating_sub((-interact.amt) as Health);
        } else {
            self.base.hunger = self.base.hunger.saturating_add(interact.amt as Hunger);
        }
    }
}

impl InsectBehaviour for Behaviour {
    open spec fn inner_wf(&self) -> bool {
        behaviour_wf(*self)
    }

    open spec fn handles(&self, action: Action) -> bool {
        behaviour_handles(*self, action)
    }

    fn update(&mut self, base: &mut BaseInsect, map: &mut Board) -> (e: Option<Event>)
        ensures
            *old(self) is Pillbug ==> *final(self) is Pillbug && !is_rebirth(e),
            *old(self) is Spider ==> *final(self) is Spider && !is_rebirth(e),
            *old(self) is Player ==> *final(self) is Player && e is None,
            *old(self) is Egg ==> *final(self) is Egg,
            exists|roll: u32|
                #[trigger] update_relation(
                    Insect { base: *old(base), spec: *old(self) },
                    old(map)@,
                    Insect { base: *final(base), spec: *final(self) },
                    final(map)@,
                    e,
                    roll,
                ),
    {
        let ghost old_self = *self;
        let ghost b0 = *base;
        let ghost m0 = map@;
        match self {
            Behaviour::Pillbug(p) => {
                let ghost pb0 = *p;
                let e = p.update(base, map);
                proof {
                    let (h, c, born) = reproduce_spec(
                        b0.hunger,
                        pb0.reproduce,
                        crate::insect::pillbug::PILLBUG_REPRODUCE_TIME,
                        crate::insect::pillbug::PILLBUG_REPRODUCE_COST,
                    );
                    if born {
                        assert(update_relation(
                            Insect { base: b0, spec: old_self },
                            m0,
                            Insect { base: *base, spec: Behaviour::Pillbug(*p) },
                            map@,
                            e,
                            0,
                        ));
                    } else {
                        let roll = choose|roll: u32|
                            (*p, *base, map@, e) == #[trigger] crate::insect::pillbug::pillbug_turn_spec(
                                pb0,
                                b0,
                                m0,
                                roll,
                            );
                        assert(update_relation(
                            Insect { base: b0, spec: old_self },
                            m0,
                            Insect { base: *base, spec: Behaviour::Pillbug(*p) },
                            map@,
                            e,
                            roll,
                        ));
                    }
                }
                e
            },
            Behaviour::Spider(s) => {
                let e = s.update(base, map);
                proof {
                    assert(update_relation(
                        Insect { base: b0, spec: old_self },
                        m0,
                        Insect { base: *base, spec: Behaviour::Spider(*s) },
                        map@,
                        e,
                        0,
                    ));
                }
                e
            },
            Behaviour::Egg(g) => {
                let e = g.update(base, map);
                proof {
                    assert(update_relation(
                        Insect { base: b0, spec: old_self },
                        m0,
                        Insect { base: *base, spec: Behaviour::Egg(*g) },
                        map@,
                        e,
                        0,
                    ));
                }
                e
            },
            Behaviour::Player(p) => {
                let e = p.update(base, map);
                proof {
                    assert(update_relation(
                        Insect { base: b0, spec: old_self },
                        m0,
                        Insect { base: *base, spec: Behaviour::Player(*p) },
                        map@,
                        e,
                        0,
                    ));
                }
                e
            },
        }
    }

    fn player_action(&mut self, base: &mut BaseInsect, map: &mut Board, action: Action) -> (e:
        Option<Event>)
        ensures
            *final(self) == *old(self),
            action_relation(*old(self), *old(base), old(map)@, *final(base), final(map)@, e, action),
    {
        match self {
            Behaviour::Pillbug(p) => p.player_action(base, map, action),
            Behaviour::Spider(s) => s.player_action(base, map, action),
            Behaviour::Egg(e) => e.player_action(base, map, action),
            Behaviour::Player(p) => p.player_action(base, map, action),
        }
    }
}

/// Every position an insect perceives is one step away from it.
pub proof fn lemma_seen_neighbours(b: BaseInsect, m: Seq<crate::map::Cell>)
    requires
        b.wf(),
    ensures
        forall|k: int| 0 <= k < 5 ==> is_neighbour(b, #[trigger] seen(b, m)[k].0),
{
    assert forall|k: int| 0 <= k < 5 implies is_neighbour(b, #[trigger] seen(b, m)[k].0) by {
        let d = perception_dirs(b.dir)[k];
        crate::pos::dirs::lemma_turns_keep_dirs(b.dir);
        crate::pos::dirs::lemma_turns_keep_dirs(rotate_left_spec(b.dir));
        crate::pos::dirs::lemma_turns_keep_dirs(rotate_right_spec(b.dir));
        assert(is_dir(d));
        assert(seen(b, m)[k].0 == pos_add(b.pos, d));
    }
}

/// `n` calls of `will_move` from `speed`: the counter after them and how
/// many of them moved.
pub open spec fn run_will_move(speed: u8, max_speed: u8, n: nat) -> (u8, nat)
    decreases n,
{
    if n == 0 {
        (speed, 0)
    } else {
        let (s1, moved) = will_move_spec(speed, max_speed);
        let (s2, count) = run_will_move(s1, max_speed, (n - 1) as nat);
        (s2, count + if moved {
            1nat
        } else {
            0nat
        })
    }
}

/// Counting down from `speed`, the next `speed` calls do not move.
proof fn lemma_count_down(speed: u8, max_speed: u8)
    ensures
        run_will_move(speed, max_speed, speed as nat) == (0u8, 0nat),
    decreases speed,
{
    if speed > 0 {
        lemma_count_down((speed - 1) as u8, max_speed);
    }
}

/// An insect with maximum speed `max_speed` moves once in every
/// `max_speed + 1` turns: starting from a counter at zero, the next
/// `max_speed + 1` calls of `will_move` move exactly once and leave the
/// counter at zero again.
pub proof fn lemma_will_move_cycle(max_speed: u8)
    ensures
        run_will_move(0, max_speed, max_speed as nat + 1) == (0u8, 1nat),
{
    lemma_count_down(max_speed, max_speed);
}

/// One more call after `n` calls: the counter goes on from where `n` calls
/// left it.
proof fn lemma_run_will_move_step(speed: u8, max_speed: u8, n: nat)
    ensures
        run_will_move(speed, max_speed, n + 1).0 == will_move_spec(
            run_will_move(speed, max_speed, n).0,
            max_speed,
        ).0,
    decreases n,
{
    let s1 = will_move_spec(speed, max_speed).0;
    assert(run_will_move(speed, max_speed, n + 1).0 == run_will_move(s1, max_speed, n).0);
    if n > 0 {
        let j = (n - 1) as nat;
        lemma_run_will_move_step(s1, max_speed, j);
        assert(j + 1 == n);
        assert(run_will_move(speed, max_speed, n).0 == run_will_move(s1, max_speed, j).0);
    }
}

/// The counter of `will_move` before its call number `k` (counting from 0),
/// started at `speed`: it counts down to zero, and from then on runs from
/// `max_speed` down to zero over and over.
pub open spec fn will_move_counter(speed: u8, max_speed: u8, k: nat) -> int {
    if k <= speed {
        speed - k
    } else {
        max_speed - (k - speed - 1) % (max_speed + 1)
    }
}

/// Stepping a remainder by one: it grows by one, or wraps round to zero.
proof fn lemma_mod_step(x: int, d: int)
    requires
        x >= 0,
        d > 0,
    ensures
        x % d == d - 1 ==> (x + 1) % d == 0,
        x % d < d - 1 ==> (x + 1) % d == x % d + 1,
        0 <= x % d < d,
{
    vstd::arithmetic::div_mod::lemma_fundamental_div_mod(x, d);
    vstd::arithmetic::div_mod::lemma_mod_bound(x, d);
    let q = x / d;
    let r = x % d;
    assert(x == q * d + r) by (nonlinear_arith)
        requires
            x == d * q + r,
    ;
    if r == d - 1 {
        assert(x + 1 == (q + 1) * d + 0) by (nonlinear_arith)
            requires
                x == q * d + r,
                r == d - 1,
        ;
        vstd::arithmetic::div_mod::lemma_fundamental_div_mod_converse(x + 1, d, q + 1, 0);
    } else {
        vstd::arithmetic::div_mod::lemma_fundamental_div_mod_converse(x + 1, d, q, r + 1);
    }
}

/// The counter before call number `k` is `will_move_counter`.
proof fn lemma_will_move_counter(speed: u8, max_speed: u8, k: nat)
    ensures
        run_will_move(speed, max_speed, k).0 == will_move_counter(speed, max_speed, k),
    decreases k,
{
    if k > 0 {
        let j = (k - 1) as nat;
        lemma_will_move_counter(speed, max_speed, j);
        lemma_run_will_move_step(speed, max_speed, j);
        if j > speed {
            lemma_mod_step(j - speed - 1, max_speed + 1);
        }
        if j == speed {
            assert((k - speed - 1) % (max_speed + 1) == 0) by {
                vstd::arithmetic::div_mod::lemma_fundamental_div_mod_converse(0, max_speed + 1, 0, 0);
            }
        }
    }
}

/// From any starting counter `speed`, `will_move` with maximum `max_speed`
/// does not move on the first `speed` calls, moves on the next, and from
/// then on moves on every `max_speed + 1`-th call and on no other; the
/// counter never exceeds the larger of `speed` and `max_speed`. Calls are
/// numbered from 0.
pub proof fn lemma_will_move_schedule(speed: u8, max_speed: u8, k: nat)
    ensures
        will_move_spec(run_will_move(speed, max_speed, k).0, max_speed).1 <==> (k >= speed && (k
            - speed) % (max_speed + 1) == 0),
        run_will_move(speed, max_speed, k).0 <= speed || run_will_move(speed, max_speed, k).0
            <= max_speed,
{
    lemma_will_move_counter(speed, max_speed, k);
    if k > speed {
        lemma_mod_step(k - speed - 1, max_speed + 1);
    } else if k == speed {
        vstd::arithmetic::div_mod::lemma_fundamental_div_mod_converse(0, max_speed + 1, 0, 0);
    }
}

/// Reproducing never starves the parent: a birth leaves it some hunger and
/// restarts the cooldown, and reproduction never adds hunger.
pub proof fn lemma_reproduce_keeps_parent(hunger: u16, cooldown: u8, time: u8, cost: u16)
    ensures
        reproduce_spec(hunger, cooldown, time, cost).2 ==> reproduce_spec(hunger, cooldown, time, cost).0 > 0
            && reproduce_spec(hunger, cooldown, time, cost).1 == 0,
        reproduce_spec(hunger, cooldown, time, cost).0 <= hunger,
{
}

/// Wandering takes the insect one step: ahead, or to either side.
pub proof fn lemma_move_random_neighbour(b: BaseInsect, roll: u32)
    requires
        b.wf(),
    ensures
        is_neighbour(b, move_random_spec(b, roll)),
{
    crate::pos::dirs::lemma_turns_keep_dirs(b.dir);
    if roll < u32::MAX / 2 {
        if roll < u32::MAX / 4 {
            assert(is_dir(rotate_left_spec(b.dir)));
        } else {
            assert(is_dir(rotate_right_spec(b.dir)));
        }
    }
}

/// Moving costs one hunger, and an insect with hunger left after the step
/// is still standing somewhere on the board facing a direction.
pub proof fn lemma_try_move_keeps_wf(b: BaseInsect, m: Seq<crate::map::Cell>, next: Pos)
    requires
        b.wf(),
        is_neighbour(b, next),
        m.len() == crate::map::NUM_CELLS,
    ensures
        try_move_spec(b, m, next).0.wf(),
        try_move_spec(b, m, next).0.hunger == sat_sub_u16(b.hunger, 1),
        (try_move_spec(b, m, next).2 matches Some(Event::Death())) <==> b.hunger <= 1,
{
    let d = choose|d: Pos| is_dir(d) && next == pos_add(b.pos, d);
    assert(pos_sub(next, b.pos) == d);
}

} // verus!
