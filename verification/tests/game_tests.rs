use ant_io::game::{Game, PlayerInput, Speed, STARTING_PILLBUGS, STARTING_SPIDERS};
use ant_io::insect::spider::Spider;
use ant_io::insect::{BaseInsect, Behaviour, Insect};
use ant_io::map::{CellType, FACTION_PILLBUG, FACTION_SPIDER};
use ant_io::pos::dirs::{none, up};
use ant_io::pos::Pos;

fn no_keys() -> PlayerInput {
    PlayerInput {
        right: false,
        left: false,
        up: false,
        down: false,
        reproduce: false,
        show_scents_1: false,
        show_scents_2: false,
        pause: false,
        toggle_speed: false,
    }
}

#[test]
fn new_game() {
    let g = Game::new();
    assert_eq!(g.pillbugs.len(), STARTING_PILLBUGS);
    assert_eq!(g.spiders.len(), STARTING_SPIDERS);
    assert_eq!(g.ant_colonies.len(), 2);
    assert_eq!(g.ant_colonies[0].faction, 1);
    assert_eq!(g.ant_colonies[0].nest_pos, Pos::new(108, 118));
    assert_eq!(g.ant_colonies[1].faction, 2);
    assert_eq!(g.ant_colonies[1].nest_pos, Pos::new(20, 10));
    assert_eq!(g.ant_colonies[0].workers.len(), 32);
    assert_eq!(g.ant_colonies[0].food, 32);
    // the nest cell became a nest unless a rock pile already covered it
    assert!(g.map.get_cell(Pos::new(20, 10)).unwrap().m_type != CellType::Empty);
    assert_eq!(g.player_dir, none());
    assert!(matches!(g.speed, Speed::SLOW));
    assert!(!g.game_over);
    assert!(g.game_won);
    assert_eq!(g.show_scents, 0);
    assert!(!g.paused);
    assert!(matches!(g.player.spec, Behaviour::Spider(_)));
    assert!(g.pillbugs.iter().all(|b| b.base.faction == FACTION_PILLBUG));
    assert!(g.spiders.iter().all(|b| b.base.faction == FACTION_SPIDER));
}

#[test]
fn keys_steer_and_toggle() {
    let mut g = Game::new();
    let mut keys = no_keys();
    keys.right = true;
    keys.left = true;
    keys.down = true;
    keys.reproduce = true;
    keys.show_scents_1 = true;
    keys.pause = true;
    keys.toggle_speed = true;
    g.update_player_input(&keys);
    assert_eq!(g.player_dir, Pos::new(1, 1));
    assert!(!g.player_dir_is_ok());
    assert_eq!(g.show_scents, 1);
    assert!(g.paused);
    assert!(matches!(g.speed, Speed::FAST));
    match &g.player.spec {
        Behaviour::Spider(s) => assert_eq!(s.reproduce, u8::MAX),
        _ => panic!("the player is a spider"),
    }
    let mut keys = no_keys();
    keys.left = true;
    keys.show_scents_1 = true;
    keys.show_scents_2 = true;
    g.update_player_input(&keys);
    assert_eq!(g.player_dir, Pos::new(-1, 0));
    assert!(g.player_dir_is_ok());
    assert_eq!(g.show_scents, 2);
    assert!(g.paused);
    assert!(matches!(g.speed, Speed::FAST));
    match &g.player.spec {
        Behaviour::Spider(s) => assert_eq!(s.reproduce, 0),
        _ => panic!("the player is a spider"),
    }
    let mut keys = no_keys();
    keys.show_scents_2 = true;
    g.update_player_input(&keys);
    assert_eq!(g.show_scents, 0);
}

#[test]
fn speed_inverts_both_ways() {
    assert!(matches!(Speed::SLOW.invert(), Speed::FAST));
    assert!(matches!(Speed::FAST.invert(), Speed::SLOW));
    assert!(matches!(Speed::SLOW.invert().invert(), Speed::SLOW));
}

#[test]
fn ticks_keep_everyone_in_place() {
    let mut g = Game::new();
    let mut keys = no_keys();
    keys.up = true;
    g.update_player_input(&keys);
    for _ in 0..200 {
        assert!(g.stores_are_fit());
        g.update_sim();
        assert!(g.pillbugs.iter().all(|b| b.base.faction == FACTION_PILLBUG
            && g.map.is_valid(b.base.pos)
            && matches!(b.spec, Behaviour::Pillbug(_))));
        assert!(g.spiders.iter().all(|b| b.base.faction == FACTION_SPIDER
            && g.map.is_valid(b.base.pos)
            && matches!(b.spec, Behaviour::Spider(_))));
        assert!(g.map.is_valid(g.player.base.pos));
        assert_eq!(g.ant_colonies[0].faction, 1);
        assert_eq!(g.ant_colonies[1].nest_pos, Pos::new(20, 10));
        assert_eq!(g.player_dir, Pos::new(0, -1));
    }
}

#[test]
fn player_survives_a_tick_and_keeps_being_a_spider() {
    let mut g = Game::new();
    let mut new_bugs: Vec<Pos> = Vec::new();
    let _ = g.update_player(&mut new_bugs);
    assert!(new_bugs.len() <= 1);
    assert!(matches!(g.player.spec, Behaviour::Spider(_)));
}

#[test]
fn a_well_fed_spider_gives_birth_where_it_stands() {
    let mut g = Game::new();
    let parent = Insect {
        base: BaseInsect { pos: Pos::new(64, 64), dir: up(), hunger: 1000, health: 3, faction: FACTION_SPIDER, id: 0, holds: false },
        spec: Behaviour::Spider(Spider { speed: 0, reproduce: 0 }),
    };
    g.spiders = vec![parent];
    g.pillbugs = Vec::new();
    g.update_sim();
    assert_eq!(g.spiders.len(), 2);
    assert_eq!(g.spiders[0].base.pos, Pos::new(64, 64));
    assert_eq!(g.spiders[0].base.hunger, 1000 - 512);
    assert_eq!(g.spiders[1].base.pos, Pos::new(64, 64));
    assert_eq!(g.spiders[1].base.faction, FACTION_SPIDER);
    assert!(matches!(g.spiders[1].spec, Behaviour::Spider(Spider { speed: 0, .. })));
    assert!(g.pillbugs.is_empty());
}

#[test]
fn held_keys_read_twice_change_nothing_more() {
    let mut g = Game::new();
    let mut keys = no_keys();
    keys.up = true;
    keys.reproduce = true;
    g.update_player_input(&keys);
    let dir = g.player_dir;
    let show = g.show_scents;
    let paused = g.paused;
    let fast = matches!(g.speed, Speed::FAST);
    let base = g.player.base;
    g.update_player_input(&keys);
    assert_eq!(g.player_dir, dir);
    assert_eq!(g.player_dir, Pos::new(0, -1));
    assert_eq!(g.show_scents, show);
    assert_eq!(g.paused, paused);
    assert_eq!(matches!(g.speed, Speed::FAST), fast);
    assert_eq!(g.player.base.pos, base.pos);
    assert_eq!(g.player.base.hunger, base.hunger);
    assert_eq!(g.player.base.dir, base.dir);
    match &g.player.spec {
        Behaviour::Spider(s) => assert_eq!(s.reproduce, u8::MAX),
        _ => panic!("the player is a spider"),
    }
}

#[test]
fn populations_stay_alive_and_bounded() {
    let mut g = Game::new();
    for i in 0..300 {
        assert!(g.player_dir_is_ok());
        assert!(g.stores_are_fit());
        g.update_sim();
        assert!(!g.pillbugs.is_empty(), "Pillbugs died out at gen {}", i);
        assert!(g.pillbugs.len() < 1024, "Pillbugs overpoped at gen {}", i);
        assert!(!g.spiders.is_empty(), "Spiders died out at gen {}", i);
        assert!(g.spiders.len() < 500, "Spiders overpoped at gen {}", i);
        assert!(!g.ant_colonies[0].workers.is_empty(), "Ants[0] died out at gen {}", i);
        assert!(g.ant_colonies[0].workers.len() < 500, "Ants[0] overpoped at gen {}", i);
        assert!(!g.ant_colonies[1].workers.is_empty(), "Ants[1] died out at gen {}", i);
        assert!(g.ant_colonies[1].workers.len() < 500, "Ants[1] overpoped at gen {}", i);
    }
}
