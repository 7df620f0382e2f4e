use ant_io::insect::{Action, BaseInsect, Event, Insect, Interact, Behaviour};
use ant_io::insect::egg::Egg;
use ant_io::insect::player::InsectPlayer;
use ant_io::insect::spider::Spider;
use ant_io::map::{Board, CellType, FACTION_NONE, FACTION_SPIDER};
use ant_io::pos::dirs::{down, left, right, up};
use ant_io::pos::Pos;

fn bug(x: i16, y: i16, dir: Pos, hunger: u16, faction: u8) -> BaseInsect {
    BaseInsect { pos: Pos::new(x, y), dir, hunger, health: 3, faction, id: 0, holds: false }
}

#[test]
fn will_move_once_per_cycle() {
    let mut speed: u8 = 0;
    let mut moves = 0;
    for _ in 0..3 {
        if BaseInsect::will_move(&mut speed, 2) {
            moves += 1;
        }
    }
    assert_eq!(moves, 1);
    assert_eq!(speed, 0);
    assert!(BaseInsect::will_move(&mut speed, 2));
    assert_eq!(speed, 2);
}

#[test]
fn reproduce_after_cooldown_with_hunger_to_spare() {
    let mut b = bug(5, 5, up(), 300, 1);
    let mut cooldown: u8 = 126;
    assert!(!b.update_reproduce(&mut cooldown, 128, 255));
    assert_eq!(cooldown, 127);
    assert!(b.update_reproduce(&mut cooldown, 128, 255));
    assert_eq!(cooldown, 0);
    assert_eq!(b.hunger, 45);
    let mut c: u8 = 200;
    assert!(!b.update_reproduce(&mut c, 128, 255));
    assert_eq!(c, 201);
    assert_eq!(b.hunger, 45);
    let mut full: u8 = 255;
    let mut rich = bug(5, 5, up(), 1000, 1);
    assert!(rich.update_reproduce(&mut full, 250, 512));
    assert_eq!(rich.hunger, 488);
}

#[test]
fn try_move_onto_free_cell() {
    let mut map = Board::empty();
    let mut b = bug(5, 5, up(), 10, 1);
    assert!(map.occupy(Pos::new(5, 5), (1, 0)).is_ok());
    b.holds = true;
    let e = b.try_move(Pos::new(6, 5), &mut map);
    assert!(e.is_none());
    assert_eq!(b.pos, Pos::new(6, 5));
    assert_eq!(b.dir, right());
    assert_eq!(b.hunger, 9);
    assert_eq!(map.sight(Pos::new(6, 5)).faction, 1);
    assert_eq!(map.sight(Pos::new(5, 5)).faction, FACTION_NONE);
    assert!(b.holds);
}

#[test]
fn try_move_into_rock_or_edge_turns_round() {
    let mut map = Board::empty();
    map.get_cell_mut(Pos::new(5, 4)).unwrap().set_type(CellType::Rock);
    let mut b = bug(5, 5, up(), 10, 1);
    assert!(b.try_move(Pos::new(5, 4), &mut map).is_none());
    assert_eq!(b.pos, Pos::new(5, 5));
    assert_eq!(b.dir, down());
    assert_eq!(b.hunger, 9);
    let mut e = bug(0, 3, left(), 10, 1);
    assert!(e.try_move(Pos::new(-1, 3), &mut map).is_none());
    assert_eq!(e.dir, right());
}

#[test]
fn try_move_into_enemy_attacks() {
    let mut map = Board::empty();
    assert!(map.occupy(Pos::new(5, 4), (2, 0)).is_ok());
    let mut b = bug(5, 5, up(), 10, FACTION_SPIDER);
    match b.try_move(Pos::new(5, 4), &mut map) {
        Some(Event::Interact(i)) => {
            assert_eq!(i.src, 0);
            assert_eq!(i.dst, 0);
            assert_eq!(i.amt, -1);
        },
        _ => panic!("expected a fight"),
    }
    assert_eq!(b.pos, Pos::new(5, 5));
    assert_eq!(map.sight(Pos::new(5, 4)).faction, FACTION_SPIDER);
}

#[test]
fn starving_step_is_death() {
    let mut map = Board::empty();
    let mut b = bug(5, 5, up(), 1, 1);
    assert!(matches!(b.try_move(Pos::new(5, 4), &mut map), Some(Event::Death())));
    assert_eq!(b.hunger, 0);
    assert_eq!(b.pos, Pos::new(5, 5));
}

#[test]
fn marked_insect_dies_on_its_turn() {
    let mut map = Board::empty();
    assert!(map.occupy(Pos::new(5, 5), (1, 0)).is_ok());
    let mut victim = bug(5, 5, up(), 100, 1);
    victim.holds = true;
    assert!(victim.update(None, &mut map));
    // an enemy attacks and marks the cell
    assert!(map.occupy(Pos::new(5, 5), (2, 0)).is_err());
    assert!(!victim.update(Some(Pos::new(5, 4)), &mut map));
    assert!(map.get_cell(Pos::new(5, 5)).unwrap().occupied.is_none());
    assert_eq!(victim.pos, Pos::new(5, 5));
}

#[test]
fn steered_step_and_starvation() {
    let mut map = Board::empty();
    let mut b = bug(5, 5, up(), 2, 1);
    assert!(b.update(Some(Pos::new(5, 4)), &mut map));
    assert_eq!(b.pos, Pos::new(5, 4));
    assert!(!b.update(Some(Pos::new(5, 3)), &mut map));
    assert!(map.get_cell(Pos::new(5, 4)).unwrap().occupied.is_none());
}

#[test]
fn perception_order() {
    let mut map = Board::empty();
    map.get_cell_mut(Pos::new(5, 4)).unwrap().set_type(CellType::Food);
    assert!(map.occupy(Pos::new(6, 5), (3, 0)).is_ok());
    let b = bug(5, 5, up(), 10, 1);
    let p = b.perception(&map);
    assert_eq!(p[0].0, Pos::new(5, 6));
    assert_eq!(p[1].0, Pos::new(4, 5));
    assert_eq!(p[2].0, Pos::new(5, 4));
    assert_eq!(p[3].0, Pos::new(6, 5));
    assert_eq!(p[4].0, Pos::new(5, 6));
    assert_eq!(p[2].1.cell_type, CellType::Food);
    assert_eq!(p[3].1.faction, 3);
    assert_eq!(p[0].1.faction, FACTION_NONE);
    let edge = bug(0, 0, up(), 10, 1);
    let q = edge.perception(&map);
    assert_eq!(q[2].1.cell_type, CellType::Wall);
    assert_eq!(q[1].1.cell_type, CellType::Wall);
    assert_eq!(q[3].1.cell_type, CellType::Empty);
}

#[test]
fn random_moves_by_roll() {
    let b = bug(5, 5, up(), 10, 1);
    assert_eq!(b.move_random_with(0), Pos::new(4, 5));
    assert_eq!(b.move_random_with(u32::MAX / 4 + 1), Pos::new(6, 5));
    assert_eq!(b.move_random_with(u32::MAX), Pos::new(5, 4));
    for _ in 0..50 {
        let p = b.move_random();
        assert!(p == Pos::new(4, 5) || p == Pos::new(6, 5) || p == Pos::new(5, 4));
    }
}

#[test]
fn new_insect_is_random_within_bounds() {
    for _ in 0..50 {
        let b = BaseInsect::new(Pos::new(1, 2), 7);
        assert!(b.hunger >= 127 && b.hunger < 255);
        assert_eq!(b.health, 3);
        assert_eq!(b.faction, 7);
        assert_eq!(b.id, 0);
        assert!(b.dir == up() || b.dir == down() || b.dir == left() || b.dir == right());
    }
}

#[test]
fn interactions() {
    let f = Interact::fight(1, 2, 5);
    assert_eq!((f.src, f.dst, f.amt), (1, 2, -5));
    assert_eq!(Interact::fight(1, 2, 200).amt, 56);
    assert_eq!(Interact::feed(1, 2, 10).amt, 10);
    assert_eq!(Interact::feed(1, 2, 200).amt, -56);
    let mut s = Spider::new(Pos::new(3, 3));
    let health = s.base.health;
    let hunger = s.base.hunger;
    s.interact(Interact::fight(0, 0, 2));
    assert_eq!(s.base.health, health - 2);
    s.interact(Interact::fight(0, 0, 100));
    assert_eq!(s.base.health, 0);
    s.interact(Interact::feed(0, 0, 20));
    assert_eq!(s.base.hunger, hunger + 20);
}

#[test]
fn birth_adds_a_position() {
    let mut map = Board::empty();
    let mut s = Spider::new(Pos::new(9, 9));
    s.base.hunger = 600;
    let mut new_bugs: Vec<Pos> = Vec::new();
    assert!(s.take_turn(&mut map, &mut new_bugs));
    assert_eq!(new_bugs, vec![Pos::new(9, 9)]);
    assert_eq!(s.base.hunger, 88);
}

#[test]
fn egg_hatches() {
    let spider = Spider::new(Pos::new(2, 2));
    let mut egg = Egg::new(Pos::new(3, 3), spider, 2);
    assert_eq!(egg.base.faction, FACTION_SPIDER);
    assert_eq!(egg.base.pos, Pos::new(3, 3));
    let mut map = Board::empty();
    let mut new_bugs: Vec<Pos> = Vec::new();
    assert!(egg.take_turn(&mut map, &mut new_bugs));
    assert!(matches!(egg.spec, Behaviour::Egg(_)));
    assert!(egg.take_turn(&mut map, &mut new_bugs));
    assert!(matches!(egg.spec, Behaviour::Spider(_)));
    assert_eq!(egg.base.pos, Pos::new(2, 2));
    assert!(new_bugs.is_empty());
}

#[test]
fn player_moves_where_told() {
    let mut map = Board::empty();
    let mut s = Spider::new(Pos::new(5, 5));
    s.base.hunger = 100;
    let mut p: Insect = InsectPlayer::new(s);
    assert!(p.update(&mut map).is_none());
    assert_eq!(p.base.hunger, 100);
    assert!(p.player_action(&mut map, Action::Move(right())).is_none());
    assert_eq!(p.base.pos, Pos::new(6, 5));
    assert_eq!(p.base.dir, right());
    assert_eq!(p.base.hunger, 99);
    // a reproduce action goes to the spider underneath
    p.base.hunger = 600;
    assert!(matches!(p.player_action(&mut map, Action::ActionA), Some(Event::Birth(_))));
    assert_eq!(p.base.hunger, 88);
}

#[test]
fn spider_actions() {
    let mut map = Board::empty();
    let mut s = Spider::new(Pos::new(5, 5));
    s.base.hunger = 100;
    assert!(s.player_action(&mut map, Action::ActionA).is_none());
    assert_eq!(s.base.hunger, 100);
    assert!(s.player_action(&mut map, Action::Move(up())).is_none());
    assert_eq!(s.base.pos, Pos::new(5, 5));
}

#[test]
fn a_marked_insect_leaves_its_cell_to_an_ally() {
    let mut map = Board::empty();
    // two insects of faction 1 hold (5, 5)
    assert!(map.occupy(Pos::new(5, 5), (1, 0)).is_ok());
    assert!(map.occupy(Pos::new(5, 5), (1, 0)).is_ok());
    assert!(map.occupy(Pos::new(5, 5), (2, 0)).is_err());
    let mut victim = bug(5, 5, up(), 100, 1);
    victim.holds = true;
    assert!(!victim.update(None, &mut map));
    // the mark is faction 1's again and the ally still holds the cell
    assert_eq!(map.get_cell(Pos::new(5, 5)).unwrap().occupied, Some((1, 0)));
    assert_eq!(map.get_cell(Pos::new(5, 5)).unwrap().holders, 1);
    let mut ally = bug(5, 5, up(), 100, 1);
    ally.holds = true;
    assert!(ally.update(None, &mut map));
}

#[test]
fn will_move_from_any_counter() {
    // from a counter at 3 with maximum 2: calls 0, 1, 2 wait, call 3 moves,
    // then every third call moves
    let mut speed: u8 = 3;
    let mut moved = Vec::new();
    for _ in 0..12 {
        moved.push(BaseInsect::will_move(&mut speed, 2));
        assert!(speed <= 3);
    }
    let expected: Vec<bool> = (0..12).map(|k| k >= 3 && (k - 3) % 3 == 0).collect();
    assert_eq!(moved, expected);
}

#[test]
fn an_egg_hatches_exactly_once() {
    let spider = Spider::new(Pos::new(2, 2));
    let mut egg = Egg::new(Pos::new(3, 3), spider, 3);
    let mut map = Board::empty();
    let mut hatched_on = Vec::new();
    for k in 0..6 {
        if let Some(Event::Rebirth(_)) = egg.update(&mut map) {
            hatched_on.push(k + 1);
        }
    }
    assert_eq!(hatched_on, vec![3]);
}
