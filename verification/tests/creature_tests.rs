use ant_io::insect::pillbug::Pillbug;
use ant_io::insect::spider::Spider;
use ant_io::insect::{BaseInsect, Behaviour, Event, InsectBehaviour};
use ant_io::map::{Board, CellType, FACTION_PILLBUG, FACTION_SPIDER};
use ant_io::pos::dirs::{down, up};
use ant_io::pos::Pos;

fn base(x: i16, y: i16, hunger: u16, faction: u8) -> BaseInsect {
    BaseInsect { pos: Pos::new(x, y), dir: up(), hunger, health: 3, faction, id: 0, holds: false }
}

fn pillbug() -> Pillbug {
    Pillbug { curled: false, speed: 0, reproduce: 0 }
}

#[test]
fn pillbug_heads_for_food() {
    let mut map = Board::empty();
    map.get_cell_mut(Pos::new(5, 4)).unwrap().set_type(CellType::Food);
    let mut b = base(5, 5, 600, FACTION_PILLBUG);
    let mut p = pillbug();
    let e = p.act(&mut b, &mut map, true, 0);
    assert!(e.is_none());
    assert_eq!(b.pos, Pos::new(5, 4));
    assert_eq!(b.hunger, 599);
    assert!(!p.curled);
}

#[test]
fn pillbug_eats_when_hungry() {
    let mut map = Board::empty();
    map.get_cell_mut(Pos::new(5, 5)).unwrap().set_type(CellType::Food);
    let mut b = base(5, 5, 100, FACTION_PILLBUG);
    let mut p = pillbug();
    let _ = p.act(&mut b, &mut map, true, u32::MAX);
    assert_eq!(map.get_cell(Pos::new(5, 5)).unwrap().m_type, CellType::Empty);
    // ate 255, then spent one moving ahead
    assert_eq!(b.hunger, 354);
    assert_eq!(b.pos, Pos::new(5, 4));
}

#[test]
fn full_pillbug_stays_on_food() {
    let mut map = Board::empty();
    map.get_cell_mut(Pos::new(5, 5)).unwrap().set_type(CellType::Food);
    let mut b = base(5, 5, 600, FACTION_PILLBUG);
    let mut p = pillbug();
    let _ = p.act(&mut b, &mut map, true, u32::MAX);
    assert_eq!(b.pos, Pos::new(5, 5));
    assert_eq!(b.hunger, 600);
    assert_eq!(map.get_cell(Pos::new(5, 5)).unwrap().m_type, CellType::Food);
}

#[test]
fn pillbug_curls_at_an_enemy_and_uncurls_later() {
    let mut map = Board::empty();
    assert!(map.occupy(Pos::new(4, 5), (1, 0)).is_ok());
    map.get_cell_mut(Pos::new(5, 5)).unwrap().set_type(CellType::Food);
    let mut b = base(5, 5, 600, FACTION_PILLBUG);
    let mut p = pillbug();
    assert!(p.act(&mut b, &mut map, true, u32::MAX).is_none());
    assert!(p.curled);
    assert_eq!(b.pos, Pos::new(5, 5));
    // the enemy leaves; uncurling clears the pillbug's cell
    assert!(map.free(Pos::new(4, 5), (1, 0)));
    assert!(p.act(&mut b, &mut map, false, u32::MAX).is_none());
    assert!(!p.curled);
    assert_eq!(map.get_cell(Pos::new(5, 5)).unwrap().m_type, CellType::Empty);
}

#[test]
fn pillbug_wanders_by_roll() {
    let mut map = Board::empty();
    let mut b = base(5, 5, 600, FACTION_PILLBUG);
    let mut p = pillbug();
    let _ = p.act(&mut b, &mut map, true, 0);
    assert_eq!(b.pos, Pos::new(4, 5));
    let mut b2 = base(5, 5, 600, FACTION_PILLBUG);
    let _ = p.act(&mut b2, &mut map, false, 0);
    assert_eq!(b2.pos, Pos::new(5, 5));
}

#[test]
fn pillbug_gives_birth() {
    let mut map = Board::empty();
    let mut b = base(5, 5, 300, FACTION_PILLBUG);
    let mut p = Pillbug { curled: false, speed: 0, reproduce: 127 };
    match p.update(&mut b, &mut map) {
        Some(Event::Birth(child)) => {
            assert_eq!(child.base.pos, Pos::new(5, 5));
            assert_eq!(child.base.faction, FACTION_PILLBUG);
            assert!(matches!(child.spec, Behaviour::Pillbug(_)));
        },
        _ => panic!("expected a birth"),
    }
    assert_eq!(b.hunger, 45);
    assert_eq!(p.reproduce, 0);
    assert_eq!(p.speed, 1);
}

#[test]
fn new_pillbug() {
    let i = Pillbug::new(Pos::new(1, 1));
    assert_eq!(i.base.faction, FACTION_PILLBUG);
    match i.spec {
        Behaviour::Pillbug(p) => {
            assert!(!p.curled);
            assert_eq!(p.speed, 0);
            assert!(p.reproduce < 32);
        },
        _ => panic!("a pillbug"),
    }
}

#[test]
fn spider_attacks_the_first_enemy_seen() {
    let mut map = Board::empty();
    assert!(map.occupy(Pos::new(5, 4), (FACTION_PILLBUG, 0)).is_ok());
    map.get_cell_mut(Pos::new(6, 5)).unwrap().set_type(CellType::Food);
    let mut b = base(5, 5, 100, FACTION_SPIDER);
    let mut s = Spider { speed: 0, reproduce: 0 };
    match s.hunt(&mut b, &mut map) {
        Some(Event::Interact(i)) => assert_eq!(i.amt, -1),
        _ => panic!("expected an attack"),
    }
    assert_eq!(b.pos, Pos::new(5, 5));
    assert_eq!(map.sight(Pos::new(5, 4)).faction, FACTION_SPIDER);
    assert_eq!(s.speed, 1);
}

#[test]
fn spider_goes_for_food_on_moving_turns() {
    let mut map = Board::empty();
    map.get_cell_mut(Pos::new(6, 5)).unwrap().set_type(CellType::Food);
    let mut b = base(5, 5, 600, FACTION_SPIDER);
    let mut s = Spider { speed: 1, reproduce: 0 };
    assert!(s.hunt(&mut b, &mut map).is_none());
    assert_eq!(b.pos, Pos::new(5, 5));
    assert_eq!(s.speed, 0);
    assert!(s.hunt(&mut b, &mut map).is_none());
    assert_eq!(b.pos, Pos::new(6, 5));
    assert_eq!(s.speed, 1);
    // now standing on food, hungry: it eats
    b.hunger = 100;
    b.dir = down();
    let _ = s.hunt(&mut b, &mut map);
    assert_eq!(b.hunger, 355);
    assert_eq!(map.get_cell(Pos::new(6, 5)).unwrap().m_type, CellType::Empty);
}

#[test]
fn spider_gives_birth_when_well_fed() {
    let mut map = Board::empty();
    let mut b = base(5, 5, 513, FACTION_SPIDER);
    let mut s = Spider { speed: 0, reproduce: 3 };
    assert!(matches!(s.update(&mut b, &mut map), Some(Event::Birth(_))));
    assert_eq!(b.hunger, 1);
    assert_eq!(s.speed, 0);
    let mut b2 = base(5, 5, 512, FACTION_SPIDER);
    assert!(!matches!(s.update(&mut b2, &mut map), Some(Event::Birth(_))));
}
