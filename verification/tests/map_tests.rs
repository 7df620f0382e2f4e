use ant_io::map::{
    Board, Cell, CellType, OccupyError, FACTION_NONE, NUM_CELLS, SQUARES,
};
use ant_io::pos::dirs::{down, left, right};
use ant_io::pos::Pos;

fn cell_at(b: &Board, x: i16, y: i16) -> Cell {
    *b.get_cell(Pos::new(x, y)).unwrap()
}

#[test]
fn set_then_take_type() {
    let mut c = Cell::default();
    assert!(c.is_type(CellType::Empty));
    c.set_type(CellType::Food);
    assert!(c.is_type(CellType::Food));
    assert_eq!(c.take_type(CellType::Food), Some(()));
    assert_eq!(c.m_type, CellType::Empty);
    assert_eq!(c.take_type(CellType::Food), None);
}

#[test]
fn set_type_keeps_what_is_there() {
    let mut c = Cell::default();
    c.set_type(CellType::Rock);
    c.set_type(CellType::Food);
    assert_eq!(c.m_type, CellType::Rock);
    assert_eq!(c.take_type(CellType::Food), None);
    assert_eq!(c.m_type, CellType::Rock);
}

#[test]
fn occupy_share_and_mark() {
    let mut c = Cell::default();
    assert_eq!(c.occupied_faction(), FACTION_NONE);
    assert_eq!(c.try_occupy((1, 0)), Some((1, 0)));
    assert_eq!(c.occupied_faction(), 1);
    assert_eq!(c.holders, 1);
    // same faction shares the registration
    assert_eq!(c.try_occupy((1, 5)), Some((1, 0)));
    assert_eq!(c.occupied, Some((1, 0)));
    assert_eq!(c.holders, 2);
    // an enemy is refused and leaves its mark over the occupant's id
    assert_eq!(c.try_occupy((2, 7)), None);
    assert_eq!(c.occupied_faction(), 2);
    assert_eq!(c.occupied, Some((2, 0)));
}

#[test]
fn empty_board() {
    let b = Board::empty();
    assert_eq!(b.cells.len(), NUM_CELLS);
    assert_eq!(b.size, Pos::new(SQUARES, SQUARES));
    assert!(b.cells.iter().all(|c| c.m_type == CellType::Empty && c.occupied.is_none()));
    assert!(b.is_valid(Pos::new(0, 0)));
    assert!(b.is_valid(Pos::new(127, 127)));
    assert!(!b.is_valid(Pos::new(128, 0)));
    assert!(!b.is_valid(Pos::new(0, -1)));
    assert!(b.get_cell(Pos::new(-1, 3)).is_none());
}

#[test]
fn get_cell_mut_changes_one_cell() {
    let mut b = Board::empty();
    b.get_cell_mut(Pos::new(3, 2)).unwrap().set_type(CellType::Food);
    assert_eq!(cell_at(&b, 3, 2).m_type, CellType::Food);
    assert_eq!(b.cells[2 * 128 + 3].m_type, CellType::Food);
    assert_eq!(cell_at(&b, 2, 3).m_type, CellType::Empty);
    assert!(b.get_cell_mut(Pos::new(200, 2)).is_none());
}

#[test]
fn occupy_then_free_restores() {
    let mut b = Board::empty();
    let p = Pos::new(5, 5);
    assert!(b.occupy(p, (1, 0)).is_ok());
    let s = b.sight(p);
    assert_eq!(s.cell_type, CellType::Empty);
    assert_eq!(s.faction, 1);
    assert!(b.free(p, (1, 0)));
    assert_eq!(b.sight(p).faction, FACTION_NONE);
    assert!(!b.free(p, (1, 0)));
    assert!(b.cells.iter().all(|c| c.occupied.is_none()));
}

#[test]
fn occupy_errors() {
    let mut b = Board::empty();
    assert!(matches!(b.occupy(Pos::new(-1, 0), (1, 0)), Err(OccupyError::Solid)));
    b.get_cell_mut(Pos::new(4, 4)).unwrap().set_type(CellType::Rock);
    assert!(matches!(b.occupy(Pos::new(4, 4), (1, 0)), Err(OccupyError::Solid)));
    assert!(b.occupy(Pos::new(6, 6), (1, 9)).is_ok());
    assert!(matches!(b.occupy(Pos::new(6, 6), (2, 3)), Err(OccupyError::Fight(9))));
    assert_eq!(cell_at(&b, 6, 6).occupied, Some((2, 9)));
}

#[test]
fn sight_off_board_is_wall() {
    let b = Board::empty();
    let s = b.sight(Pos::new(-3, 7));
    assert_eq!(s.cell_type, CellType::Wall);
    assert_eq!(s.faction, FACTION_NONE);
}

#[test]
fn walk_skips_steps_off_the_board() {
    let mut b = Board::empty();
    let steps = vec![left(), right(), down()];
    b.drop_bunch_along(CellType::Food, Pos::new(0, 0), &steps);
    assert_eq!(cell_at(&b, 0, 0).m_type, CellType::Food);
    assert_eq!(cell_at(&b, 1, 0).m_type, CellType::Food);
    assert_eq!(cell_at(&b, 1, 1).m_type, CellType::Empty);
    let food = b.cells.iter().filter(|c| c.m_type == CellType::Food).count();
    assert_eq!(food, 2);
}

#[test]
fn walk_does_not_cover_rock() {
    let mut b = Board::empty();
    b.get_cell_mut(Pos::new(1, 0)).unwrap().set_type(CellType::Rock);
    let steps = vec![right(), right(), right()];
    b.drop_bunch_along(CellType::Food, Pos::new(0, 0), &steps);
    assert_eq!(cell_at(&b, 0, 0).m_type, CellType::Food);
    assert_eq!(cell_at(&b, 1, 0).m_type, CellType::Rock);
    assert_eq!(cell_at(&b, 2, 0).m_type, CellType::Food);
    assert_eq!(cell_at(&b, 3, 0).m_type, CellType::Empty);
}

#[test]
fn new_board_is_fresh() {
    let b = Board::new();
    assert_eq!(b.cells.len(), NUM_CELLS);
    assert!(b.cells.iter().all(|c| c.occupied.is_none()
        && matches!(c.m_type, CellType::Empty | CellType::Rock | CellType::Food)));
    assert!(b.cells.iter().any(|c| c.m_type == CellType::Rock));
}

#[test]
fn random_bunch_and_update_keep_board_fresh() {
    let mut b = Board::empty();
    b.drop_rand_bunch(CellType::Food);
    let n = b.cells.iter().filter(|c| c.m_type == CellType::Food).count();
    assert!(n >= 1 && n <= 69);
    for _ in 0..100 {
        b.update();
    }
    assert!(b.cells.iter().all(|c| c.occupied.is_none()
        && matches!(c.m_type, CellType::Empty | CellType::Food)));
}

#[test]
fn random_positions_are_on_the_board() {
    let b = Board::empty();
    for _ in 0..500 {
        assert!(b.is_valid(b.rand_pos()));
    }
}

#[test]
fn a_shared_cell_is_freed_by_its_last_holder() {
    let mut b = Board::empty();
    let p = Pos::new(7, 7);
    assert!(b.occupy(p, (1, 0)).is_ok());
    assert!(b.occupy(p, (1, 0)).is_ok());
    assert!(b.free(p, (1, 0)));
    assert_eq!(b.sight(p).faction, 1);
    assert!(b.free(p, (1, 0)));
    assert_eq!(b.sight(p).faction, FACTION_NONE);
    assert_eq!(cell_at(&b, 7, 7).holders, 0);
}

#[test]
fn reclaim_puts_the_faction_back() {
    let mut b = Board::empty();
    let p = Pos::new(2, 2);
    assert!(b.occupy(p, (1, 4)).is_ok());
    assert!(b.occupy(p, (2, 0)).is_err());
    b.reclaim(p, 1);
    assert_eq!(cell_at(&b, 2, 2).occupied, Some((1, 4)));
    assert_eq!(cell_at(&b, 2, 2).holders, 1);
    b.reclaim(Pos::new(3, 3), 1);
    assert!(cell_at(&b, 3, 3).occupied.is_none());
}

#[test]
fn food_is_dropped_only_on_a_zero_roll() {
    let mut b = Board::empty();
    for roll in [1u32, 7, 49] {
        b.update_with(roll);
        assert!(b.cells.iter().all(|c| c.m_type == CellType::Empty));
    }
    b.update_with(0);
    let n = b.cells.iter().filter(|c| c.m_type == CellType::Food).count();
    assert!(n >= 1 && n <= 69);
}
