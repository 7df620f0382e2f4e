use ant_io::ant::{Ant, AntColony, ScentGrid, Scents};
use ant_io::map::{Board, CellType, FACTION_PILLBUG};
use ant_io::pillbug::Pillbug;
use ant_io::pos::dirs::{down, up};
use ant_io::pos::Pos;

fn first_ant(x: i16, y: i16) -> Ant {
    Ant { pos: Pos::new(x, y), food: None, nest_scent: 255, food_scent: 0, dir: up(), hunger: 100, holds: false }
}

#[test]
fn weighted_pick() {
    let a = first_ant(5, 5);
    let p = [
        (Pos::new(5, 6), 0),
        (Pos::new(4, 5), 5),
        (Pos::new(5, 4), 5),
        (Pos::new(6, 5), 0),
        (Pos::new(5, 6), 0),
    ];
    assert_eq!(a.perception_weighted_random_with(p, [1; 5], u32::MAX, 0), Some(Pos::new(4, 5)));
    assert_eq!(a.perception_weighted_random_with(p, [1, 1, 2, 1, 1], u32::MAX, 0), Some(Pos::new(5, 4)));
    // a low chance roll wanders instead
    assert_eq!(a.perception_weighted_random_with(p, [1; 5], 0, u32::MAX), Some(Pos::new(5, 4)));
    assert_eq!(a.perception_weighted_random_with(p, [1; 5], 0, 0), Some(Pos::new(4, 5)));
    // nothing attracts: wanders
    let z = [(Pos::new(0, 0), 0); 5];
    assert_eq!(a.perception_weighted_random_with(z, [0; 5], u32::MAX, u32::MAX / 4 + 1), Some(Pos::new(6, 5)));
    let r = a.perception_weighted_random(p).unwrap();
    assert!(r == Pos::new(4, 5) || r == Pos::new(5, 4) || r == Pos::new(6, 5));
}

#[test]
fn sensing_prefers_the_goal() {
    let mut map = Board::empty();
    map.get_cell_mut(Pos::new(5, 4)).unwrap().set_type(CellType::Food);
    let mut g = ScentGrid::new();
    g.drop_at(Pos::new(4, 5), Scents::Food, 40);
    let a = first_ant(5, 5);
    let s = a.perceive(&map, &g, Scents::Food, CellType::Food);
    assert_eq!(s[1], (Pos::new(4, 5), 40));
    assert_eq!(s[2], (Pos::new(5, 4), 255));
    assert_eq!(s[3], (Pos::new(6, 5), 0));
    assert_eq!(a.sense(Pos::new(-1, 5), &map, &g, Scents::Food, CellType::Food), (Pos::new(-1, 5), 0));
}

#[test]
fn first_ant_dies_attacking() {
    let mut map = Board::empty();
    assert!(map.occupy(Pos::new(5, 4), (2, 0)).is_ok());
    let mut a = first_ant(5, 5);
    assert!(!a.try_move(Pos::new(5, 4), &mut map, 1));
    assert_eq!(map.sight(Pos::new(5, 4)).faction, 1);
    let mut b = first_ant(5, 5);
    assert!(b.try_move(Pos::new(6, 5), &mut map, 1));
    assert_eq!(b.pos, Pos::new(6, 5));
}

#[test]
fn first_ant_takes_food_even_when_carrying() {
    let mut map = Board::empty();
    map.get_cell_mut(Pos::new(5, 5)).unwrap().set_type(CellType::Food);
    let mut a = first_ant(5, 5);
    a.food = Some(());
    let mut food: usize = 0;
    let seeking = a.update_behaviour(&mut map, &mut food, 1);
    assert!(a.food.is_some());
    assert_eq!(a.dir, down());
    assert_eq!(map.get_cell(Pos::new(5, 5)).unwrap().m_type, CellType::Empty);
    assert!(matches!(seeking, (Scents::Nest, CellType::Nest(1))));
}

#[test]
fn first_ant_trail() {
    let mut g = ScentGrid::new();
    let mut a = first_ant(5, 5);
    a.food = Some(());
    a.nest_scent = 215;
    a.update_scents(&mut g);
    // distance 40: 40 + 40 + 10
    assert_eq!(a.food_scent, 90);
    assert_eq!(a.nest_scent, 214);
}

#[test]
fn first_ant_is_killed_by_a_mark() {
    let mut map = Board::empty();
    let mut g = ScentGrid::new();
    assert!(map.occupy(Pos::new(5, 5), (1, 0)).is_ok());
    assert!(map.occupy(Pos::new(5, 5), (2, 0)).is_err());
    let mut a = first_ant(5, 5);
    a.holds = true;
    let mut food: usize = 0;
    assert!(!a.update(&mut map, &mut g, &mut food, 1));
    // the ant puts its faction back on the mark and leaves the board alone
    assert_eq!(map.get_cell(Pos::new(5, 5)).unwrap().occupied, Some((1, 0)));
    assert_eq!(map.get_cell(Pos::new(5, 5)).unwrap().holders, 1);
    assert_eq!(a.pos, Pos::new(5, 5));
    let mut b = first_ant(9, 9);
    assert!(b.update(&mut map, &mut g, &mut food, 1));
    assert_eq!(b.hunger, 99);
}

#[test]
fn first_colony() {
    let mut map = Board::empty();
    let mut c = AntColony::new(Pos::new(30, 30), &mut map, 1);
    assert_eq!(c.ants.len(), 32);
    assert_eq!(c.food, 32);
    c.food = 35;
    c.update(&mut map);
    assert_eq!(c.ants.len(), 33);
    assert_eq!(c.food, 34);
    assert!(c.ants.iter().all(|a| map.is_valid(a.pos)));
}

#[test]
fn first_pillbug_moves_every_other_turn_and_curls_for_good() {
    let mut map = Board::empty();
    let mut p = Pillbug::new(Pos::new(5, 5));
    p.insect.dir = up();
    p.insect.hunger = 100;
    assert_eq!(p.insect.faction, FACTION_PILLBUG);
    assert!(p.update_with(&mut map, u32::MAX));
    assert_eq!(p.insect.pos, Pos::new(5, 5));
    assert_eq!(p.speed, 1);
    assert!(p.update_with(&mut map, u32::MAX));
    assert_eq!(p.insect.pos, Pos::new(5, 4));
    assert_eq!(p.speed, 0);
    assert!(map.occupy(Pos::new(6, 4), (1, 0)).is_ok());
    assert!(p.update_with(&mut map, u32::MAX));
    assert!(p.curled);
    assert!(map.free(Pos::new(6, 4), (1, 0)));
    assert!(p.update_with(&mut map, u32::MAX));
    assert!(p.curled);
    // it ate nothing and stays curled: its cell is marked and it would die,
    // but a curled pillbug lives on
    assert!(map.occupy(p.insect.pos, (1, 0)).is_err());
    assert!(p.update_with(&mut map, u32::MAX));
}

#[test]
fn a_dead_first_ant_lets_go_of_its_cell_but_allies_keep_it() {
    let mut map = Board::empty();
    let mut c = AntColony::new(Pos::new(30, 30), &mut map, 1);
    // two ants of the colony hold the cell (5, 5); an enemy marks it
    assert!(map.occupy(Pos::new(5, 5), (1, 0)).is_ok());
    assert!(map.occupy(Pos::new(5, 5), (1, 0)).is_ok());
    assert!(map.occupy(Pos::new(5, 5), (2, 0)).is_err());
    let mut a = first_ant(5, 5);
    a.holds = true;
    c.ants = vec![a];
    c.food = 0;
    c.update(&mut map);
    // the marked ant died; its ally still holds the cell for faction 1
    assert!(c.ants.is_empty());
    assert_eq!(map.get_cell(Pos::new(5, 5)).unwrap().occupied, Some((1, 0)));
    assert_eq!(map.get_cell(Pos::new(5, 5)).unwrap().holders, 1);
}
