//! The game: two ant colonies, pillbugs, spiders and a player-driven spider
//! on one board, advanced one tick at a time.

use vstd::prelude::*;

use crate::insect::ant::{colony_tick, is_new_ant, AntColony, STARTING_ANTS, STARTING_FOOD};
use crate::insect::pillbug::{is_new_pillbug, Pillbug};
use crate::insect::spider::{is_new_spider, Spider};
use crate::insect::{base_update_spec, turn_relation, Behaviour, Insect};
use crate::map::{
    food_tick, index, is_new_board, on_board, set_type_spec, Board, Cell, CellType, Faction,
    FACTION_PILLBUG, FACTION_SPIDER, MAP_SIZE,
};
use crate::pos::dirs::{self, is_dir, none};
use crate::pos::{pos_add, Pos};

verus! {

pub enum Speed {
    SLOW,
    FAST,
}

impl Speed {
    /// The other speed.
    pub fn invert(&self) -> (s: Speed)
        ensures
            *self is SLOW ==> s is FAST,
            *self is FAST ==> s is SLOW,
    {
        match self {
            Speed::SLOW => Speed::FAST,
            Speed::FAST => Speed::SLOW,
        }
    }
}

/// The keys the game reacts to, as they stand this frame: which are held
/// down (the four directions and the reproduce key) and which were just
/// pressed (the rest).
pub struct PlayerInput {
    pub right: bool,
    pub left: bool,
    pub up: bool,
    pub down: bool,
    pub reproduce: bool,
    pub show_scents_1: bool,
    pub show_scents_2: bool,
    pub pause: bool,
    pub toggle_speed: bool,
}

/// The direction the held keys ask for: right wins over left and up over
/// down; both axes may be set at once.
pub open spec fn input_dir(input: PlayerInput) -> Pos {
    Pos {
        x: if input.right {
            1i16
        } else if input.left {
            -1i16
        } else {
            0i16
        },
        y: if input.up {
            -1i16
        } else if input.down {
            1i16
        } else {
            0i16
        },
    }
}

/// The scent layer shown after the two toggle keys: each toggles its own
/// colony's layer on, or off if it was already showing.
pub open spec fn toggled_scents(show: Faction, input: PlayerInput) -> Faction {
    let s1 = if input.show_scents_1 {
        if show == 1 {
            0u8
        } else {
            1u8
        }
    } else {
        show
    };
    if input.show_scents_2 {
        if s1 == 2 {
            0u8
        } else {
            2u8
        }
    } else {
        s1
    }
}

pub const STARTING_PILLBUGS: usize = 250;

pub const STARTING_SPIDERS: usize = 50;

/// Every insect in `list` is well formed; all are spiders (or all pillbugs).
pub open spec fn all_of_kind(list: Seq<Insect>, spiders: bool) -> bool {
    forall|i: int|
        0 <= i < list.len() ==> {
            &&& (#[trigger] list[i]).wf()
            &&& if spiders {
                list[i].spec is Spider && list[i].base.faction == FACTION_SPIDER
            } else {
                list[i].spec is Pillbug && list[i].base.faction == FACTION_PILLBUG
            }
        }
}

/// What one insect's turn came to: the insect as the turn left it, the
/// board and the births afterwards, and whether it lives on.
pub type TurnOutcome = (Insect, Seq<Cell>, Seq<Pos>, bool);

/// The board before turn `k` of the trace `tr`, which started on `m`.
pub open spec fn board_before(m: Seq<Cell>, tr: Seq<TurnOutcome>, k: int) -> Seq<Cell> {
    if k == 0 {
        m
    } else {
        tr[k - 1].1
    }
}

/// The births before turn `k` of the trace `tr`, which started with `nb`.
pub open spec fn births_before(nb: Seq<Pos>, tr: Seq<TurnOutcome>, k: int) -> Seq<Pos> {
    if k == 0 {
        nb
    } else {
        tr[k - 1].2
    }
}

/// `tr` records the turns of `olds`, taken in order on board `m` with the
/// births `nb` so far: each insect's turn starts from where the previous
/// one left the board and the births.
pub open spec fn turns_trace(olds: Seq<Insect>, m: Seq<Cell>, nb: Seq<Pos>, tr: Seq<TurnOutcome>) -> bool {
    &&& tr.len() == olds.len()
    &&& forall|k: int|
        0 <= k < olds.len() ==> turn_relation(
            olds[k],
            board_before(m, tr, k),
            (#[trigger] tr[k]).0,
            tr[k].1,
            births_before(nb, tr, k),
            tr[k].2,
            tr[k].3,
        )
}

/// The insects of a trace that live on, in order, as their turns left them.
pub open spec fn survivors(tr: Seq<TurnOutcome>) -> Seq<Insect>
    decreases tr.len(),
{
    if tr.len() == 0 {
        Seq::empty()
    } else {
        let k = survivors(tr.drop_last());
        if tr.last().3 {
            k.push(tr.last().0)
        } else {
            k
        }
    }
}

/// The turns of `olds`, in order, on board `m` with the births `nb` so far:
/// `kept` are the survivors as their turns leave them, `m2` and `nb2` the
/// board and the births afterwards.
#[verifier::opaque]
pub open spec fn turns_relation(
    olds: Seq<Insect>,
    m: Seq<Cell>,
    nb: Seq<Pos>,
    kept: Seq<Insect>,
    m2: Seq<Cell>,
    nb2: Seq<Pos>,
) -> bool {
    exists|tr: Seq<TurnOutcome>|
        #[trigger] turns_trace(olds, m, nb, tr) && kept == survivors(tr) && m2 == board_before(
            m,
            tr,
            tr.len() as int,
        ) && nb2 == births_before(nb, tr, tr.len() as int)
}

/// `list` is `kept` followed by a newborn of the kind (spiders or pillbugs)
/// at each position of `nb`, in order.
#[verifier::opaque]
pub open spec fn with_newborns(kept: Seq<Insect>, nb: Seq<Pos>, list: Seq<Insect>, spiders: bool) -> bool {
    &&& list.len() == kept.len() + nb.len()
    &&& list.take(kept.len() as int) == kept
    &&& forall|j: int|
        0 <= j < nb.len() ==> if spiders {
            is_new_spider(#[trigger] list[kept.len() + j], nb[j])
        } else {
            is_new_pillbug(list[kept.len() + j], nb[j])
        }
}

/// The spider `p` as it is after `update_player` resets its speed, which
/// stood at `speed` before the turn.
pub open spec fn with_speed_flipped(p: Insect, speed: u8) -> Insect {
    match p.spec {
        Behaviour::Spider(s) => Insect {
            spec: Behaviour::Spider(
                Spider {
                    speed: if speed == 0 {
                        1u8
                    } else {
                        0u8
                    },
                    ..s
                },
            ),
            ..p
        },
        _ => p,
    }
}

/// The player's turn (see `Game::update_player`): the player's spider `p`,
/// heading `dir`, on board `m` with births `nb`, ends as `p2` on `m2` with
/// births `nb2`; `alive` tells whether it lives on. It takes a spider's turn
/// as if it were too slow to move on its own; then its speed flips between
/// 0 and 1, and when it was 1 and the player heads somewhere, the spider,
/// if still alive, steps that way.
#[verifier::opaque]
pub open spec fn player_turn(
    p: Insect,
    dir: Pos,
    m: Seq<Cell>,
    nb: Seq<Pos>,
    p2: Insect,
    m2: Seq<Cell>,
    nb2: Seq<Pos>,
    alive: bool,
) -> bool {
    match p.spec {
        Behaviour::Spider(s) => {
            let p1 = Insect { spec: Behaviour::Spider(Spider { speed: 1, ..s }), ..p };
            exists|fin: Insect, m1: Seq<Cell>, res: bool|
                #[trigger] turn_relation(p1, m, fin, m1, nb, nb2, res) && {
                    let fin2 = with_speed_flipped(fin, s.speed);
                    if s.speed == 1 && dir != none() {
                        if !res {
                            p2 == fin2 && m2 == m1 && !alive
                        } else {
                            let (b, m3, a) = base_update_spec(
                                fin2.base,
                                m1,
                                Some(pos_add(fin2.base.pos, dir)),
                            );
                            p2 == Insect { base: b, ..fin2 } && m2 == m3 && alive == a
                        }
                    } else {
                        p2 == fin2 && m2 == m1 && alive == res
                    }
                }
        },
        _ => false,
    }
}

pub struct Game {
    pub map: Board,
    pub speed: Speed,
    pub game_over: bool,
    pub game_won: bool,
    pub ant_colonies: Vec<AntColony>,
    pub player: Insect,
    pub player_dir: Pos,
    pub show_scents: Faction,
    pub paused: bool,
    pub pillbugs: Vec<Insect>,
    pub spiders: Vec<Insect>,
}

/// The cells `m` with the cell at `pos` made the nest of `faction`.
pub open spec fn with_nest(m: Seq<Cell>, pos: Pos, faction: Faction) -> Seq<Cell> {
    m.update(index(pos), set_type_spec(m[index(pos)], CellType::Nest(faction)))
}

/// Where the first colony nests.
pub open spec fn nest_pos_1() -> Pos {
    Pos { x: (MAP_SIZE - 20) as i16, y: (MAP_SIZE - 10) as i16 }
}

/// Where the second colony nests.
pub open spec fn nest_pos_2() -> Pos {
    Pos { x: 20i16, y: 10i16 }
}

/// The stages of one tick of the simulation (see `Game::update_sim`) that
/// take `g` to `g2`, through the boards `m1` to `m5`: the spiders take their
/// turns (`sp_kept` live on, births at `nb1`); the player's spider takes its
/// turn (ending as `p1`, births now `nb2`), and if it died the player gets a
/// new spider somewhere on the board; a spider is born at each of `nb2`; the
/// first colony and then the second take their tick; the pillbugs take their
/// turns (`pb_kept` live on, births at `nb5`) and a pillbug is born at each
/// of those; last, food may be dropped. The rest of the game is unchanged.
pub open spec fn sim_stages(
    g: Game,
    sp_kept: Seq<Insect>,
    m1: Seq<Cell>,
    nb1: Seq<Pos>,
    p1: Insect,
    m2: Seq<Cell>,
    nb2: Seq<Pos>,
    alive: bool,
    m3: Seq<Cell>,
    m4: Seq<Cell>,
    pb_kept: Seq<Insect>,
    m5: Seq<Cell>,
    nb5: Seq<Pos>,
    g2: Game,
) -> bool {
    &&& turns_relation(g.spiders@, g.map@, Seq::empty(), sp_kept, m1, nb1)
    &&& player_turn(g.player, g.player_dir, m1, nb1, p1, m2, nb2, alive)
    &&& if alive {
        g2.player == p1
    } else {
        on_board(g2.player.base.pos) && is_new_spider(g2.player, g2.player.base.pos)
    }
    &&& with_newborns(sp_kept, nb2, g2.spiders@, true)
    &&& g2.ant_colonies@.len() == 2
    &&& colony_tick(g.ant_colonies@[0], m2, g2.ant_colonies@[0], m3)
    &&& colony_tick(g.ant_colonies@[1], m3, g2.ant_colonies@[1], m4)
    &&& turns_relation(g.pillbugs@, m4, Seq::empty(), pb_kept, m5, nb5)
    &&& with_newborns(pb_kept, nb5, g2.pillbugs@, false)
    &&& food_tick(m5, g2.map@)
    &&& g2.player_dir == g.player_dir
    &&& g2.speed == g.speed
    &&& g2.show_scents == g.show_scents
    &&& g2.paused == g.paused
    &&& g2.game_over == g.game_over
    &&& g2.game_won == g.game_won
}

/// One tick of the simulation takes `g` to `g2`.
pub open spec fn sim_tick(g: Game, g2: Game) -> bool {
    exists|
        sp_kept: Seq<Insect>,
        m1: Seq<Cell>,
        nb1: Seq<Pos>,
        p1: Insect,
        m2: Seq<Cell>,
        nb2: Seq<Pos>,
        alive: bool,
        m3: Seq<Cell>,
        m4: Seq<Cell>,
        pb_kept: Seq<Insect>,
        m5: Seq<Cell>,
        nb5: Seq<Pos>,
    |
        #[trigger] sim_stages(
            g,
            sp_kept,
            m1,
            nb1,
            p1,
            m2,
            nb2,
            alive,
            m3,
            m4,
            pb_kept,
            m5,
            nb5,
            g2,
        )
}

/// What reading the keys `input` does to the game `g`, giving `g2`: the held
/// direction keys set where the player heads, the reproduce key sets the
/// player spider's urge to reproduce (full while held, none otherwise), and
/// the pressed keys toggle a colony's scent layer, pausing and the speed.
/// Nothing else changes.
pub open spec fn input_applied(g: Game, input: PlayerInput, g2: Game) -> bool {
    &&& g2.player_dir == input_dir(input)
    &&& g2.show_scents == toggled_scents(g.show_scents, input)
    &&& g2.paused == (g.paused != input.pause)
    &&& input.toggle_speed ==> (g.speed is SLOW <==> g2.speed is FAST)
    &&& !input.toggle_speed ==> (g.speed is SLOW <==> g2.speed is SLOW)
    &&& g.player.spec matches Behaviour::Spider(s) ==> g2.player.spec == Behaviour::Spider(
        Spider {
            reproduce: if input.reproduce {
                u8::MAX
            } else {
                0
            },
            ..s
        },
    )
    &&& !(g.player.spec is Spider) ==> g2.player.spec == g.player.spec
    &&& g2.player.base == g.player.base
    &&& g2.map == g.map
    &&& g2.ant_colonies == g.ant_colonies
    &&& g2.pillbugs == g.pillbugs
    &&& g2.spiders == g.spiders
    &&& g2.game_over == g.game_over
    &&& g2.game_won == g.game_won
}

/// Whether none of the keys that act when pressed (rather than held) is
/// pressed.
pub open spec fn no_presses(input: PlayerInput) -> bool {
    !input.show_scents_1 && !input.show_scents_2 && !input.pause && !input.toggle_speed
}

/// The keys may be read more than once per tick: reading the same held keys
/// again, with nothing newly pressed, changes nothing.
pub proof fn lemma_held_keys_read_twice(g: Game, input: PlayerInput, g1: Game, g2: Game)
    requires
        no_presses(input),
        input_applied(g, input, g1),
        input_applied(g1, input, g2),
    ensures
        g2 == g1,
{
}

impl Game {
    /// The board and everything on it is well formed: two colonies, a
    /// player that is a spider, pillbugs that are all pillbugs and spiders
    /// that are all spiders.
    pub open spec fn wf(&self) -> bool {
        &&& self.map.wf()
        &&& self.ant_colonies@.len() == 2
        &&& forall|i: int| 0 <= i < 2 ==> (#[trigger] self.ant_colonies@[i]).wf()
        &&& self.player.wf()
        &&& self.player.spec is Spider
        &&& self.player.base.faction == FACTION_SPIDER
        &&& all_of_kind(self.pillbugs@, false)
        &&& all_of_kind(self.spiders@, true)
    }

    /// The player is standing still or heading in one of the four
    /// directions (not diagonally).
    pub open spec fn player_dir_ok(&self) -> bool {
        self.player_dir == none() || is_dir(self.player_dir)
    }

    /// Neither colony's food store can overflow during a tick.
    pub open spec fn stores_fit(&self) -> bool {
        forall|i: int|
            0 <= i < self.ant_colonies@.len() ==> #[trigger] self.ant_colonies@[i].food
                + self.ant_colonies@[i].workers@.len() < usize::MAX
    }

    /// Whether the player is heading diagonally.
    pub fn player_dir_is_ok(&self) -> (r: bool)
        ensures
            r == self.player_dir_ok(),
    {
        self.player_dir == none() || self.player_dir == dirs::up() || self.player_dir == dirs::down()
            || self.player_dir == dirs::left() || self.player_dir == dirs::right()
    }

    /// Whether no colony's food store can overflow during the next tick.
    pub fn stores_are_fit(&self) -> (r: bool)
        ensures
            r == self.stores_fit(),
    {
        let mut i: usize = 0;
        while i < self.ant_colonies.len()
            invariant
                i <= self.ant_colonies@.len(),
                forall|j: int|
                    0 <= j < i ==> #[trigger] self.ant_colonies@[j].food
                        + self.ant_colonies@[j].workers@.len() < usize::MAX,
            decreases self.ant_colonies@.len() - i,
        {
            let c = &self.ant_colonies[i];
            if c.food >= usize::MAX - c.workers.len() {
                return false;
            }
            i += 1;
        }
        true
    }

    /// A new game: a random board, the two colonies at their nests, 250
    /// pillbugs, 50 spiders and the player's spider at random places.
    pub fn new() -> (g: Self)
        ensures
            g.wf(),
            g.player_dir == none(),
            g.ant_colonies@[0].faction == 1,
            g.ant_colonies@[0].nest_pos == nest_pos_1(),
            g.ant_colonies@[1].faction == 2,
            g.ant_colonies@[1].nest_pos == nest_pos_2(),
            exists|m0: Seq<Cell>|
                #[trigger] is_new_board(m0) && g.map@ == with_nest(
                    with_nest(m0, nest_pos_1(), 1),
                    nest_pos_2(),
                    2,
                ),
            forall|k: int|
                0 <= k < 2 ==> (#[trigger] g.ant_colonies@[k]).food == STARTING_FOOD
                    && g.ant_colonies@[k].workers@.len() == STARTING_ANTS && forall|j: int|
                    0 <= j < STARTING_ANTS ==> is_new_ant(
                        #[trigger] g.ant_colonies@[k].workers@[j],
                        g.ant_colonies@[k].nest_pos,
                        g.ant_colonies@[k].faction,
                    ),
            g.pillbugs@.len() == STARTING_PILLBUGS,
            forall|i: int|
                0 <= i < STARTING_PILLBUGS ==> is_new_pillbug(
                    #[trigger] g.pillbugs@[i],
                    g.pillbugs@[i].base.pos,
                ),
            g.spiders@.len() == STARTING_SPIDERS,
            forall|i: int|
                0 <= i < STARTING_SPIDERS ==> is_new_spider(
                    #[trigger] g.spiders@[i],
                    g.spiders@[i].base.pos,
                ),
            is_new_spider(g.player, g.player.base.pos),
            g.speed is SLOW,
            !g.game_over,
            g.game_won,
            g.show_scents == 0,
            !g.paused,
    {
        let mut map = Board::new();
        let ghost m0 = map@;
        let first = AntColony::new(Pos::new(MAP_SIZE - 20, MAP_SIZE - 10), &mut map, 1);
        let second = AntColony::new(Pos::new(20, 10), &mut map, 2);
        let mut ant_colonies: Vec<AntColony> = Vec::new();
        ant_colonies.push(first);
        ant_colonies.push(second);
        let mut pillbugs: Vec<Insect> = Vec::new();
        let mut i: usize = 0;
        while i < STARTING_PILLBUGS
            invariant
                map.wf(),
                i <= STARTING_PILLBUGS,
                pillbugs@.len() == i,
                all_of_kind(pillbugs@, false),
                forall|j: int| 0 <= j < i ==> is_new_pillbug(#[trigger] pillbugs@[j], pillbugs@[j].base.pos),
            decreases STARTING_PILLBUGS - i,
        {
            pillbugs.push(Pillbug::new(map.rand_pos()));
            i += 1;
        }
        let mut spiders: Vec<Insect> = Vec::new();
        let mut i: usize = 0;
        while i < STARTING_SPIDERS
            invariant
                map.wf(),
                i <= STARTING_SPIDERS,
                spiders@.len() == i,
                all_of_kind(spiders@, true),
                forall|j: int| 0 <= j < i ==> is_new_spider(#[trigger] spiders@[j], spiders@[j].base.pos),
            decreases STARTING_SPIDERS - i,
        {
            spiders.push(Spider::new(map.rand_pos()));
            i += 1;
        }
        let player = Spider::new(map.rand_pos());
        Self {
            ant_colonies,
            pillbugs,
            spiders,
            player,
            player_dir: dirs::none(),
            map,
            speed: Speed::SLOW,
            game_over: false,
            game_won: true,
            show_scents: 0,
            paused: false,
        }
    }

    /// Reads the keys: the held direction keys set where the player heads,
    /// the reproduce key sets the player spider's urge to reproduce (full
    /// while held, none otherwise), and the pressed keys toggle a colony's
    /// scent layer, pausing and the speed.
    pub fn update_player_input(&mut self, input: &PlayerInput)
        ensures
            input_applied(*old(self), *input, *final(self)),
            old(self).wf() ==> final(self).wf(),
    {
        let mut input_dir = dirs::none();
        if input.right {
            input_dir.x = 1;
        } else if input.left {
            input_dir.x = -1;
        }
        if input.up {
            input_dir.y = -1;
        } else if input.down {
            input_dir.y = 1;
        }
        self.player_dir = input_dir;
        match &mut self.player.spec {
            Behaviour::Spider(s) => {
                s.reproduce = if input.reproduce {
                    u8::MAX
                } else {
                    0
                };
            },
            _ => {},
        }
        if input.show_scents_1 {
            if self.show_scents == 1 {
                self.show_scents = 0;
            } else {
                self.show_scents = 1;
            }
        }
        if input.show_scents_2 {
            if self.show_scents == 2 {
                self.show_scents = 0;
            } else {
                self.show_scents = 2;
            }
        }
        if input.pause {
            self.paused = !self.paused;
        }
        if input.toggle_speed {
            self.speed = self.speed.invert();
        }
    }

    /// Every insect of `list` takes its turn, in order; those that die are
    /// dropped and the positions of births are added to `new_bugs`.
    #[verifier::spinoff_prover]
    fn run_turns(
        list: &mut Vec<Insect>,
        map: &mut Board,
        new_bugs: &mut Vec<Pos>,
        Ghost(spiders): Ghost<bool>,
    )
        requires
            all_of_kind(old(list)@, spiders),
            old(map).wf(),
            forall|j: int| 0 <= j < old(new_bugs)@.len() ==> on_board(#[trigger] old(new_bugs)@[j]),
        ensures
            all_of_kind(final(list)@, spiders),
            final(map).wf(),
            final(list)@.len() <= old(list)@.len(),
            forall|j: int| 0 <= j < final(new_bugs)@.len() ==> on_board(#[trigger] final(new_bugs)@[j]),
            final(new_bugs)@.len() <= old(new_bugs)@.len() + old(list)@.len(),
            turns_relation(
                old(list)@,
                old(map)@,
                old(new_bugs)@,
                final(list)@,
                final(map)@,
                final(new_bugs)@,
            ),
    {
        let ghost orig = list@;
        let ghost m0 = map@;
        let ghost nbs0 = new_bugs@;
        let ghost nb0 = new_bugs@.len();
        let ghost mut tr: Seq<TurnOutcome> = Seq::empty();
        let mut rest: Vec<Insect> = Vec::new();
        std::mem::swap(list, &mut rest);
        let n = rest.len();
        let mut i: usize = 0;
        while i < n
            invariant
                n == orig.len(),
                i <= n,
                rest@ == orig.skip(i as int),
                all_of_kind(orig, spiders),
                all_of_kind(list@, spiders),
                list@.len() <= i,
                map.wf(),
                forall|j: int| 0 <= j < new_bugs@.len() ==> on_board(#[trigger] new_bugs@[j]),
                new_bugs@.len() <= nb0 + i,
                turns_trace(orig.take(i as int), m0, nbs0, tr),
                list@ == survivors(tr),
                map@ == board_before(m0, tr, i as int),
                new_bugs@ == births_before(nbs0, tr, i as int),
            decreases n - i,
        {
            assert(rest@[0] == orig[i as int]);
            let mut insect = rest.remove(0);
            assert(orig.skip(i as int).remove(0) =~= orig.skip(i + 1));
            let ghost nb = new_bugs@;
            let ghost m1 = map@;
            let ghost before = insect;
            let alive = insect.take_turn(map, new_bugs);
            if alive {
                list.push(insect);
            }
            proof {
                if new_bugs@ != nb {
                    let p = choose|p: Pos| on_board(p) && new_bugs@ == nb.push(p);
                    assert(forall|j: int| 0 <= j < nb.len() ==> new_bugs@[j] == nb[j]);
                }
                let tr0 = tr;
                tr = tr.push((insect, map@, new_bugs@, alive));
                assert(tr.drop_last() =~= tr0);
                let olds = orig.take(i + 1);
                assert forall|k: int| 0 <= k < olds.len() implies turn_relation(
                    olds[k],
                    board_before(m0, tr, k),
                    (#[trigger] tr[k]).0,
                    tr[k].1,
                    births_before(nbs0, tr, k),
                    tr[k].2,
                    tr[k].3,
                ) by {
                    if k < i {
                        assert(tr[k] == tr0[k]);
                        assert(olds[k] == orig.take(i as int)[k]);
                        assert(board_before(m0, tr, k) == board_before(m0, tr0, k));
                        assert(births_before(nbs0, tr, k) == births_before(nbs0, tr0, k));
                    } else {
                        assert(olds[k] == before);
                    }
                }
            }
            i += 1;
        }
        assert(orig.take(n as int) =~= orig);
        assert(turns_trace(orig, m0, nbs0, tr));
        reveal(turns_relation);
    }

    /// The player's turn: its spider acts without moving on its own (it may
    /// eat and reproduce), and on every other tick it steps the way the
    /// player heads, if it lives on. Returns whether the player's spider is
    /// still alive.
    pub fn update_player(&mut self, new_bugs: &mut Vec<Pos>) -> (alive: bool)
        requires
            old(self).wf(),
            old(self).player_dir_ok(),
            forall|j: int| 0 <= j < old(new_bugs)@.len() ==> on_board(#[trigger] old(new_bugs)@[j]),
        ensures
            final(self).wf(),
            final(self).player_dir == old(self).player_dir,
            final(self).speed == old(self).speed,
            final(self).ant_colonies == old(self).ant_colonies,
            final(self).pillbugs == old(self).pillbugs,
            final(self).spiders == old(self).spiders,
            final(self).show_scents == old(self).show_scents,
            final(self).paused == old(self).paused,
            final(self).game_over == old(self).game_over,
            final(self).game_won == old(self).game_won,
            forall|j: int| 0 <= j < final(new_bugs)@.len() ==> on_board(#[trigger] final(new_bugs)@[j]),
            final(new_bugs)@.len() <= old(new_bugs)@.len() + 1,
            player_turn(
                old(self).player,
                old(self).player_dir,
                old(self).map@,
                old(new_bugs)@,
                final(self).player,
                final(self).map@,
                final(new_bugs)@,
                alive,
            ),
    {
        reveal(player_turn);
        let ghost p0 = self.player;
        let ghost m0 = self.map@;
        let old_speed = match &self.player.spec {
            Behaviour::Spider(s) => s.speed,
            _ => 0,
        };
        let will_move = old_speed == 1;
        match &mut self.player.spec {
            Behaviour::Spider(s) => {
                s.speed = 1;
            },
            _ => {},
        }
        let ghost nb = new_bugs@;
        let ghost p1 = self.player;
        let res = self.player.take_turn(&mut self.map, new_bugs);
        let ghost fin = self.player;
        let ghost m1 = self.map@;
        let ghost nb2 = new_bugs@;
        proof {
            if new_bugs@ != nb {
                let p = choose|p: Pos| on_board(p) && new_bugs@ == nb.push(p);
                assert(forall|j: int| 0 <= j < nb.len() ==> new_bugs@[j] == nb[j]);
            }
        }
        match &mut self.player.spec {
            Behaviour::Spider(s) => {
                s.speed = if old_speed == 0 {
                    1
                } else {
                    0
                };
            },
            _ => {},
        }
        assert(self.player == with_speed_flipped(fin, old_speed));
        assert(turn_relation(p1, m0, fin, m1, nb, nb2, res));
        if will_move && self.player_dir != dirs::none() {
            if !res {
                return false;
            }
            let next = self.player.base.pos + self.player_dir;
            assert(crate::insect::is_neighbour(self.player.base, next));
            self.player.base.update(Some(next), &mut self.map)
        } else {
            res
        }
    }

    /// A newborn of the kind at each position of `new_bugs`, added to `list`
    /// in order.
    fn add_newborns(list: &mut Vec<Insect>, new_bugs: &Vec<Pos>, spiders: bool)
        requires
            all_of_kind(old(list)@, spiders),
            forall|j: int| 0 <= j < new_bugs@.len() ==> on_board(#[trigger] new_bugs@[j]),
        ensures
            all_of_kind(final(list)@, spiders),
            with_newborns(old(list)@, new_bugs@, final(list)@, spiders),
    {
        reveal(with_newborns);
        let ghost kept = list@;
        assert(list@.take(kept.len() as int) =~= kept);
        let mut i: usize = 0;
        while i < new_bugs.len()
            invariant
                i <= new_bugs@.len(),
                forall|j: int| 0 <= j < new_bugs@.len() ==> on_board(#[trigger] new_bugs@[j]),
                all_of_kind(list@, spiders),
                with_newborns(kept, new_bugs@.take(i as int), list@, spiders),
            decreases new_bugs@.len() - i,
        {
            reveal(with_newborns);
            let ghost before = list@;
            let bug = if spiders {
                Spider::new(new_bugs[i])
            } else {
                Pillbug::new(new_bugs[i])
            };
            list.push(bug);
            proof {
                let nbi = new_bugs@.take(i + 1);
                assert(nbi.drop_last() =~= new_bugs@.take(i as int));
                assert(list@.take(kept.len() as int) =~= before.take(kept.len() as int));
                assert forall|j: int| 0 <= j < nbi.len() implies if spiders {
                    is_new_spider(#[trigger] list@[kept.len() + j], nbi[j])
                } else {
                    is_new_pillbug(list@[kept.len() + j], nbi[j])
                } by {
                    if j < i {
                        assert(list@[kept.len() + j] == before[kept.len() + j]);
                        assert(nbi[j] == new_bugs@.take(i as int)[j]);
                    }
                }
            }
            i += 1;
        }
        assert(new_bugs@.take(new_bugs@.len() as int) =~= new_bugs@);
    }

    /// Each colony, in order, takes its tick on the board.
    fn update_colonies(colonies: &mut Vec<AntColony>, map: &mut Board)
        requires
            old(map).wf(),
            old(colonies)@.len() == 2,
            forall|j: int| 0 <= j < 2 ==> (#[trigger] old(colonies)@[j]).wf(),
            forall|j: int|
                0 <= j < 2 ==> #[trigger] old(colonies)@[j].food + old(colonies)@[j].workers@.len()
                    < usize::MAX,
        ensures
            final(map).wf(),
            final(colonies)@.len() == 2,
            forall|j: int| 0 <= j < 2 ==> (#[trigger] final(colonies)@[j]).wf(),
            exists|mid: Seq<Cell>|
                colony_tick(old(colonies)@[0], old(map)@, final(colonies)@[0], mid) && colony_tick(
                    old(colonies)@[1],
                    mid,
                    final(colonies)@[1],
                    final(map)@,
                ),
    {
        let ghost olds = colonies@;
        let ghost mut boards: Seq<Seq<Cell>> = seq![map@];
        let mut i: usize = 0;
        while i < colonies.len()
            invariant
                map.wf(),
                colonies@.len() == 2,
                i <= 2,
                boards.len() == i + 1,
                boards[0] == old(map)@,
                boards[i as int] == map@,
                forall|j: int|
                    0 <= j < i ==> colony_tick(
                        olds[j],
                        boards[j],
                        #[trigger] colonies@[j],
                        boards[j + 1],
                    ),
                forall|j: int| 0 <= j < 2 ==> (#[trigger] colonies@[j]).wf(),
                forall|j: int| i <= j < 2 ==> #[trigger] colonies@[j] == olds[j],
                forall|j: int|
                    0 <= j < 2 ==> #[trigger] olds[j].food + olds[j].workers@.len() < usize::MAX,
            decreases 2 - i,
        {
            let ghost before = colonies@;
            colonies[i].update(map);
            proof {
                boards = boards.push(map@);
                assert forall|j: int| 0 <= j < i + 1 implies colony_tick(
                    olds[j],
                    boards[j],
                    #[trigger] colonies@[j],
                    boards[j + 1],
                ) by {
                    if j < i {
                        assert(colonies@[j] == before[j]);
                    }
                }
            }
            i += 1;
        }
        assert(colony_tick(olds[0], boards[0], colonies@[0], boards[1]));
        assert(colony_tick(olds[1], boards[1], colonies@[1], boards[2]));
    }

    /// One tick of the simulation: the spiders, then the player (who is
    /// given a new spider somewhere if theirs died), then the spiders born
    /// this tick; the two colonies; the pillbugs and theirs; finally maybe a
    /// new bunch of food.
    pub fn update_sim(&mut self)
        requires
            old(self).wf(),
            old(self).player_dir_ok(),
            old(self).stores_fit(),
        ensures
            final(self).wf(),
            sim_tick(*old(self), *final(self)),
    {
        let mut new_bugs: Vec<Pos> = Vec::new();
        Self::run_turns(&mut self.spiders, &mut self.map, &mut new_bugs, Ghost(true));
        let ghost sp_kept = self.spiders@;
        let ghost m1 = self.map@;
        let ghost nb1 = new_bugs@;
        let alive = self.update_player(&mut new_bugs);
        let ghost p1 = self.player;
        let ghost m2 = self.map@;
        let ghost nb2 = new_bugs@;
        if !alive {
            // find a new spider for the player
            self.player = Spider::new(self.map.rand_pos());
        }
        Self::add_newborns(&mut self.spiders, &new_bugs, true);
        assert(old(self).stores_fit());
        assert(forall|j: int| 0 <= j < 2 ==> #[trigger] self.ant_colonies@[j] == old(self).ant_colonies@[j]);
        Self::update_colonies(&mut self.ant_colonies, &mut self.map);
        let ghost m3 = choose|mid: Seq<Cell>|
            colony_tick(old(self).ant_colonies@[0], m2, self.ant_colonies@[0], mid) && colony_tick(
                old(self).ant_colonies@[1],
                mid,
                self.ant_colonies@[1],
                self.map@,
            );
        let ghost m4 = self.map@;
        let mut new_bugs: Vec<Pos> = Vec::new();
        Self::run_turns(&mut self.pillbugs, &mut self.map, &mut new_bugs, Ghost(false));
        let ghost pb_kept = self.pillbugs@;
        let ghost m5 = self.map@;
        let ghost nb5 = new_bugs@;
        Self::add_newborns(&mut self.pillbugs, &new_bugs, false);
        self.map.update();
        assert(sim_stages(
            *old(self),
            sp_kept,
            m1,
            nb1,
            p1,
            m2,
            nb2,
            alive,
            m3,
            m4,
            pb_kept,
            m5,
            nb5,
            *self,
        ));
    }
}

} // verus!
