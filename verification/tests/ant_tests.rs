use ant_io::insect::ant::{Ant, AntColony, ScentCell, ScentGrid, Scents};
use ant_io::insect::BaseInsect;
use ant_io::map::{Board, CellType, Sight};
use ant_io::pos::dirs::{down, up};
use ant_io::pos::Pos;

fn ant(x: i16, y: i16, hunger: u16) -> Ant {
    Ant {
        insect: BaseInsect { pos: Pos::new(x, y), dir: up(), hunger, health: 3, faction: 1, id: 0, holds: false },
        food: None,
        nest_scent: 255,
        food_scent: 0,
    }
}

#[test]
fn scent_cell_drop_and_fade() {
    let mut c = ScentCell::default();
    assert_eq!(c.get_scent(Scents::Food), 0);
    assert_eq!(c.drop_scent(Scents::Food, 10), 9);
    assert_eq!(c.drop_scent(Scents::Food, 4), 9);
    assert_eq!(c.get_scent(Scents::Food), 10);
    assert_eq!(c.drop_scent(Scents::Nest, 0), 0);
    assert_eq!(c.get_scent(Scents::Nest), 0);
    c.drop_scent(Scents::Nest, 50);
    c.update();
    assert_eq!(c.get_scent(Scents::Food), 9);
    assert_eq!(c.get_scent(Scents::Nest), 50);
}

#[test]
fn scent_grid() {
    let mut g = ScentGrid::new();
    assert!(g.get(Pos::new(-1, 0)).is_none());
    assert_eq!(g.drop_at(Pos::new(3, 3), Scents::Food, 2), 1);
    g.update();
    assert_eq!(g.get(Pos::new(3, 3)).unwrap().get_scent(Scents::Food), 1);
    assert_eq!(Ant::smell(&g, Pos::new(3, 3), Scents::Food), 1);
    assert_eq!(Ant::smell(&g, Pos::new(300, 3), Scents::Food), 0);
}

#[test]
fn carrying_ant_delivers_at_nest() {
    let mut map = Board::empty();
    map.get_cell_mut(Pos::new(5, 5)).unwrap().set_type(CellType::Nest(1));
    let mut a = ant(5, 5, 100);
    a.food = Some(());
    a.food_scent = 30;
    let mut food: usize = 3;
    let seeking = a.update_behaviour(&mut map, &mut food, 1);
    assert_eq!(food, 4);
    assert!(a.food.is_none());
    assert_eq!(a.nest_scent, 254);
    assert_eq!(a.food_scent, 0);
    assert_eq!(a.insect.dir, down());
    assert!(matches!(seeking, (Scents::Food, CellType::Food)));
}

#[test]
fn ant_picks_up_or_eats_food() {
    let mut map = Board::empty();
    map.get_cell_mut(Pos::new(5, 5)).unwrap().set_type(CellType::Food);
    let mut a = ant(5, 5, 100);
    let mut food: usize = 0;
    let seeking = a.update_behaviour(&mut map, &mut food, 1);
    assert!(a.food.is_some());
    assert_eq!(a.insect.dir, down());
    assert!(matches!(seeking, (Scents::Nest, CellType::Nest(1))));
    assert_eq!(map.get_cell(Pos::new(5, 5)).unwrap().m_type, CellType::Empty);

    map.get_cell_mut(Pos::new(5, 5)).unwrap().set_type(CellType::Food);
    let mut hungry = ant(5, 5, 50);
    let _ = hungry.update_behaviour(&mut map, &mut food, 1);
    assert!(hungry.food.is_none());
    assert_eq!(hungry.insect.hunger, 255);
    assert_eq!(hungry.insect.dir, up());
    assert_eq!(food, 0);
}

#[test]
fn carrying_ant_lays_a_trail() {
    let mut g = ScentGrid::new();
    let mut a = ant(5, 5, 100);
    a.food = Some(());
    a.nest_scent = 200;
    a.update_scents(&mut g);
    // distance 55: 55 + 55 + 5 + 10
    assert_eq!(a.food_scent, 125);
    let c = g.get(Pos::new(5, 5)).unwrap();
    assert_eq!(c.get_scent(Scents::Food), 125);
    assert_eq!(c.get_scent(Scents::Nest), 200);
    assert_eq!(a.nest_scent, 199);
    // an ant with a weaker nest scent picks up the stronger one
    let mut b = ant(5, 5, 100);
    b.nest_scent = 20;
    b.update_scents(&mut g);
    assert_eq!(b.nest_scent, 199);
    assert_eq!(g.get(Pos::new(5, 5)).unwrap().get_scent(Scents::Food), 125);
}

fn empty_perception(a: &Ant, map: &Board) -> [(Pos, Sight); 5] {
    a.insect.perception(map)
}

#[test]
fn movement_choices() {
    let mut map = Board::empty();
    let g0 = ScentGrid::new();
    let a = ant(5, 5, 100);
    // sees food ahead: goes there
    map.get_cell_mut(Pos::new(5, 4)).unwrap().set_type(CellType::Food);
    let mut p = empty_perception(&a, &map);
    let r = a.update_movement_with(&mut p, &g0, (Scents::Food, CellType::Food), u32::MAX, 0);
    assert_eq!(r, Some(Pos::new(5, 4)));
    // nothing seen, low roll: wanders (roll 0 turns left)
    let map2 = Board::empty();
    let mut p = empty_perception(&a, &map2);
    let r = a.update_movement_with(&mut p, &g0, (Scents::Food, CellType::Food), 0, 0);
    assert_eq!(r, Some(Pos::new(4, 5)));
    // no scent: wanders
    let mut p = empty_perception(&a, &map2);
    let r = a.update_movement_with(&mut p, &g0, (Scents::Food, CellType::Food), u32::MAX, u32::MAX);
    assert_eq!(r, Some(Pos::new(5, 4)));
    assert!(p.iter().all(|s| s.1.faction == 0));
    // follows the strongest scent, the later one on a tie
    let mut g = ScentGrid::new();
    g.drop_at(Pos::new(6, 5), Scents::Food, 9);
    g.drop_at(Pos::new(4, 5), Scents::Food, 9);
    g.drop_at(Pos::new(5, 4), Scents::Food, 3);
    let mut p = empty_perception(&a, &map2);
    let r = a.update_movement_with(&mut p, &g, (Scents::Food, CellType::Food), u32::MAX, 0);
    assert_eq!(r, Some(Pos::new(6, 5)));
    assert_eq!(p[1].1.faction, 9);
    assert_eq!(p[2].1.faction, 3);
    assert_eq!(p[3].1.faction, 9);
}

#[test]
fn ant_turn_stays_in_place_on_the_board() {
    let mut map = Board::empty();
    let mut g = ScentGrid::new();
    let mut a = ant(5, 5, 100);
    let mut food: usize = 0;
    assert!(a.update(&mut map, &mut g, &mut food, 1));
    assert_eq!(a.insect.hunger, 99);
    assert!(map.is_valid(a.insect.pos));
    assert_eq!(g.get(Pos::new(5, 5)).unwrap().get_scent(Scents::Nest), 255);
    // a starving ant is fed from the store
    let mut b = ant(50, 50, 20);
    let mut store: usize = 2;
    assert!(b.update(&mut map, &mut g, &mut store, 1));
    assert_eq!(store, 1);
    assert_eq!(b.insect.hunger, 254);
}

#[test]
fn colony_starts_and_ticks() {
    let mut map = Board::empty();
    let mut c = AntColony::new(Pos::new(20, 10), &mut map, 2);
    assert!(map.get_cell(Pos::new(20, 10)).unwrap().is_type(CellType::Nest(2)));
    assert_eq!(c.workers.len(), 32);
    assert_eq!(c.food, 32);
    assert!(c.workers.iter().all(|w| w.insect.pos == Pos::new(20, 10) && w.food.is_none()));
    c.update(&mut map);
    assert_eq!(c.faction, 2);
    assert_eq!(c.workers.len(), 32);
    assert_eq!(c.food, 32);
    assert!(c.workers.iter().all(|w| map.is_valid(w.insect.pos)));
}

#[test]
fn colony_hatches_when_food_exceeds_workers() {
    let mut map = Board::empty();
    let mut c = AntColony::new(Pos::new(20, 10), &mut map, 2);
    c.food = 40;
    c.update(&mut map);
    assert_eq!(c.workers.len(), 33);
    assert_eq!(c.food, 39);
    assert_eq!(c.workers[32].insect.pos, Pos::new(20, 10));
    assert_eq!(c.workers[32].nest_scent, 255);
}

#[test]
fn movement_leaves_the_perception_alone_unless_following_scents() {
    let mut map = Board::empty();
    let mut g = ScentGrid::new();
    g.drop_at(Pos::new(4, 5), Scents::Food, 7);
    let a = ant(5, 5, 100);
    map.get_cell_mut(Pos::new(5, 4)).unwrap().set_type(CellType::Food);
    // a target in sight: the perception is untouched
    let mut p = empty_perception(&a, &map);
    let before: Vec<(Pos, CellType, u8)> = p.iter().map(|s| (s.0, s.1.cell_type, s.1.faction)).collect();
    let r = a.update_movement_with(&mut p, &g, (Scents::Food, CellType::Food), u32::MAX, 0);
    assert_eq!(r, Some(Pos::new(5, 4)));
    let after: Vec<(Pos, CellType, u8)> = p.iter().map(|s| (s.0, s.1.cell_type, s.1.faction)).collect();
    assert_eq!(before, after);
    // wandering: untouched as well
    let map2 = Board::empty();
    let mut p = empty_perception(&a, &map2);
    let before: Vec<(Pos, CellType, u8)> = p.iter().map(|s| (s.0, s.1.cell_type, s.1.faction)).collect();
    let _ = a.update_movement_with(&mut p, &g, (Scents::Food, CellType::Food), 0, 0);
    let after: Vec<(Pos, CellType, u8)> = p.iter().map(|s| (s.0, s.1.cell_type, s.1.faction)).collect();
    assert_eq!(before, after);
    // following scents: each entry carries the smell at its position
    let mut p = empty_perception(&a, &map2);
    let r = a.update_movement_with(&mut p, &g, (Scents::Food, CellType::Food), u32::MAX, 0);
    assert_eq!(r, Some(Pos::new(4, 5)));
    assert_eq!(p[1].0, Pos::new(4, 5));
    assert_eq!(p[1].1.faction, 7);
    assert!(p.iter().enumerate().all(|(k, s)| k == 1 || s.1.faction == 0));
}
