use ant_io::grid::{Cell, Grid};
use ant_io::pos::Pos;

#[test]
fn grid_cell_defaults() {
    let c = Cell::default();
    assert!(!c.is_food());
    assert!(!c.is_nest());
    assert_eq!(c.get_food_scent(), 0);
    assert_eq!(c.get_nest_scent(), 0);
}

#[test]
fn scents_only_grow_when_set() {
    let mut c = Cell::default();
    c.set_food_scent(10);
    assert_eq!(c.get_food_scent(), 10);
    c.set_food_scent(4);
    assert_eq!(c.get_food_scent(), 10);
    c.set_food_scent(200);
    assert_eq!(c.get_food_scent(), 200);
    c.set_nest_scent(7);
    c.set_nest_scent(3);
    assert_eq!(c.get_nest_scent(), 7);
    assert_eq!(c.get_food_scent(), 200);
}

#[test]
fn food_scent_fades_nest_scent_stays() {
    let mut c = Cell::default();
    c.set_food_scent(2);
    c.set_nest_scent(9);
    c.update();
    assert_eq!(c.get_food_scent(), 1);
    c.update();
    c.update();
    assert_eq!(c.get_food_scent(), 0);
    assert_eq!(c.get_nest_scent(), 9);
}

#[test]
fn food_is_taken_once() {
    let mut c = Cell::default();
    assert_eq!(c.take_food(), None);
    c.set_food(true);
    c.set_nest(true);
    assert!(c.is_food() && c.is_nest());
    assert_eq!(c.take_food(), Some(()));
    assert!(!c.is_food());
    assert!(c.is_nest());
    assert_eq!(c.take_food(), None);
}

#[test]
fn grid_cells_and_fading() {
    let mut g = Grid::new();
    assert!(g.is_valid(Pos::new(79, 0)));
    assert!(!g.is_valid(Pos::new(80, 0)));
    assert!(g.get_cell_mut(Pos::new(0, 80)).is_none());
    g.get_cell_mut(Pos::new(4, 5)).unwrap().set_food_scent(3);
    g.update();
    assert_eq!(g.get_cell_mut(Pos::new(4, 5)).unwrap().get_food_scent(), 2);
    assert_eq!(g.get_cell_mut(Pos::new(5, 4)).unwrap().get_food_scent(), 0);
}
