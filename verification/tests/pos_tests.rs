use ant_io::pos::dirs::{self, down, invert, left, none, pick, right, rotate_left, rotate_right, up};
use ant_io::pos::Pos;

#[test]
fn rotations_undo_each_other() {
    for d in [up(), down(), left(), right()] {
        assert_eq!(rotate_left(rotate_right(d)), d);
        assert_eq!(rotate_right(rotate_left(d)), d);
    }
}

#[test]
fn four_quarter_turns_come_back() {
    for d in [up(), down(), left(), right()] {
        assert_eq!(rotate_right(rotate_right(rotate_right(rotate_right(d)))), d);
        assert_eq!(rotate_left(rotate_left(rotate_left(rotate_left(d)))), d);
    }
}

#[test]
fn half_turn_is_invert() {
    for d in [up(), down(), left(), right()] {
        assert_eq!(rotate_right(rotate_right(d)), invert(d));
        assert_eq!(rotate_left(rotate_left(d)), invert(d));
        assert_eq!(invert(invert(d)), d);
    }
    assert_eq!(invert(up()), down());
    assert_eq!(invert(left()), right());
}

#[test]
fn clockwise_order() {
    assert_eq!(rotate_right(up()), right());
    assert_eq!(rotate_right(right()), down());
    assert_eq!(rotate_right(down()), left());
    assert_eq!(rotate_right(left()), up());
    assert_eq!(rotate_left(up()), left());
    assert_eq!(rotate_left(left()), down());
}

#[test]
fn unit_steps() {
    assert_eq!(up(), Pos::new(0, -1));
    assert_eq!(down(), Pos::new(0, 1));
    assert_eq!(right(), Pos::new(1, 0));
    assert_eq!(left(), Pos::new(-1, 0));
    assert_eq!(none(), Pos::new(0, 0));
    assert_eq!(dirs::all(0), up());
    assert_eq!(dirs::all(3), right());
}

#[test]
fn pick_uses_the_roll_modulo_four() {
    assert_eq!(pick(0), up());
    assert_eq!(pick(1), down());
    assert_eq!(pick(2), left());
    assert_eq!(pick(3), right());
    assert_eq!(pick(7), right());
    assert_eq!(pick(u32::MAX), right());
}

#[test]
fn random_dir_is_a_unit_step() {
    for _ in 0..100 {
        let d = dirs::rand();
        assert!(d == up() || d == down() || d == left() || d == right());
    }
}

#[test]
fn add_and_sub() {
    let a = Pos::new(3, 4);
    let b: Pos = (1, -2).into();
    assert_eq!(a + b, Pos::new(4, 2));
    assert_eq!((a + b) - b, a);
    assert_eq!(b + (a - b), a);
    assert_eq!(Pos::from((7, 8)), Pos::new(7, 8));
}

#[test]
fn random_pos_in_rect() {
    for _ in 0..200 {
        let p = Pos::rand(Pos::new(3, 5));
        assert!(p.x >= 0 && p.x < 3 && p.y >= 0 && p.y < 5);
    }
}

#[test]
fn random_positions_vary() {
    let mut seen_x = [false; 3];
    let mut seen_y = [false; 5];
    for _ in 0..500 {
        let p = Pos::rand(Pos::new(3, 5));
        seen_x[p.x as usize] = true;
        seen_y[p.y as usize] = true;
    }
    assert!(seen_x.iter().filter(|b| **b).count() > 1);
    assert!(seen_y.iter().filter(|b| **b).count() > 1);
}

#[test]
fn random_dirs_vary() {
    let first = dirs::rand();
    let mut other = false;
    for _ in 0..200 {
        if dirs::rand() != first {
            other = true;
        }
    }
    assert!(other);
}
