use std::collections::VecDeque;

use snake_game::snake::Direction;
use snake_game::snake::SnakeInfo;

fn occupied_count(s: &SnakeInfo) -> usize {
    s.body_pos.len() + 1
}

#[test]
fn new_snake_starts_fifth_across_half_down() {
    let s = SnakeInfo::new((30, 20));
    assert_eq!(s.head_pos, (6, 10));
    assert!(s.body_pos.is_empty());
    assert_eq!(s.growing, 2);
    assert!(matches!(s.dir, Direction::Right));
}

#[test]
fn growth_invariant_one_cell_per_owed_tick() {
    let mut s = SnakeInfo::new((30, 20));
    // Pay off the initial growth of 2, then reach steady state.
    s.update();
    s.update();
    s.update();
    assert_eq!(s.growing, 0);
    let base = occupied_count(&s);
    s.grow(3);
    for i in 1..=3usize {
        s.update();
        assert_eq!(occupied_count(&s), base + i);
    }
    assert_eq!(s.growing, 0);
    // Steady state again: advancing further changes nothing.
    s.update();
    assert_eq!(occupied_count(&s), base + 3);
    s.update();
    assert_eq!(occupied_count(&s), base + 3);
}

#[test]
fn update_vacates_oldest_trail_cell_first() {
    let mut s = SnakeInfo::new((30, 20));
    assert_eq!(s.update(), None);
    assert_eq!(s.update(), None);
    // Growth is paid off; the trail is [(6,10), (7,10)] and vacates oldest
    // first.
    assert_eq!(s.update(), Some((6, 10)));
    assert_eq!(s.update(), Some((7, 10)));
    assert_eq!(s.head_pos, (10, 10));
}

#[test]
fn opposite_heading_rejected_perpendicular_accepted() {
    let cases = [
        (Direction::Up, Direction::Down, Direction::Left, Direction::Right),
        (Direction::Down, Direction::Up, Direction::Left, Direction::Right),
        (Direction::Left, Direction::Right, Direction::Up, Direction::Down),
        (Direction::Right, Direction::Left, Direction::Up, Direction::Down),
    ];
    for (cur, opposite, perp_a, perp_b) in cases {
        let mut s = SnakeInfo::new((30, 20));
        s.dir = cur;
        s.set_heading(opposite);
        assert_eq!(s.dir, cur);
        s.set_heading(cur);
        assert_eq!(s.dir, cur);
        s.set_heading(perp_a);
        assert_eq!(s.dir, perp_a);
        let mut s2 = SnakeInfo::new((30, 20));
        s2.dir = cur;
        s2.set_heading(perp_b);
        assert_eq!(s2.dir, perp_b);
    }
}

#[test]
fn self_collision_detected_on_exact_tick() {
    // Head (4,10), trail empty, growth 2; drive a small clockwise loop.
    let mut s = SnakeInfo::new((20, 20));
    let ts = (20, 20);
    s.update();
    s.update();
    s.grow(2);
    s.update();
    s.update();
    // Trail is [(4,10), (5,10), (6,10), (7,10)], head (8,10), length >= 3.
    assert_eq!(s.body_pos, VecDeque::from(vec![(4, 10), (5, 10), (6, 10), (7, 10)]));
    assert!(!s.should_be_dead(ts));
    s.set_heading(Direction::Down);
    s.update();
    assert!(!s.should_be_dead(ts));
    s.set_heading(Direction::Left);
    s.update();
    assert!(!s.should_be_dead(ts));
    s.set_heading(Direction::Up);
    s.update();
    // The head re-enters (7,10), still a trail cell on exactly this tick.
    assert_eq!(s.head_pos, (7, 10));
    assert!(s.should_be_dead(ts));
}

#[test]
fn wall_boundary_exactness() {
    let ts = (10, 10);
    let alive = [(1, 5), (8, 5), (5, 1), (5, 8)];
    let dead = [(0, 5), (9, 5), (5, 0), (5, 9)];
    for pos in alive {
        let s = SnakeInfo {
            head_pos: pos,
            body_pos: VecDeque::new(),
            growing: 0,
            dir: Direction::Right,
        };
        assert!(!s.should_be_dead(ts), "expected {:?} alive", pos);
    }
    for pos in dead {
        let s = SnakeInfo {
            head_pos: pos,
            body_pos: VecDeque::new(),
            growing: 0,
            dir: Direction::Right,
        };
        assert!(s.should_be_dead(ts), "expected {:?} dead", pos);
    }
}

#[test]
fn head_on_trail_cell_is_dead_even_inside_walls() {
    let s = SnakeInfo {
        head_pos: (4, 4),
        body_pos: VecDeque::from(vec![(2, 4), (3, 4), (4, 4)]),
        growing: 0,
        dir: Direction::Right,
    };
    assert!(s.should_be_dead((10, 10)));
}
