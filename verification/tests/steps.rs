use langtons_ant::GRID_SIZE;
use langtons_ant::ant::Ant;
use langtons_ant::direction::Direction;
use langtons_ant::grid::Grid;

fn count_black(g: &Grid) -> usize {
    let size = g.size();
    let mut count: usize = 0;
    for x in 0..size {
        for y in 0..size {
            if !g.get(x, y) {
                count += 1;
            }
        }
    }
    count
}

#[test]
fn default_ant_starts_centered_heading_up() {
    let a = Ant::default();
    assert_eq!(a.x, GRID_SIZE / 2);
    assert_eq!(a.y, GRID_SIZE / 2);
    assert_eq!(a.direction, Direction::Up);
}

#[test]
fn step_on_white_turns_right_flips_and_moves() {
    let mut g = Grid::new(5);
    let mut a = Ant::new(2, 2, Direction::Up);
    a.step(&mut g);
    assert_eq!(a.direction, Direction::Right);
    assert_eq!((a.x, a.y), (3, 2));
    assert!(!g.get(2, 2));
    assert_eq!(count_black(&g), 1);
}

#[test]
fn step_on_black_turns_left_flips_and_moves() {
    let mut g = Grid::new(5);
    g.set(2, 2, false);
    let mut a = Ant::new(2, 2, Direction::Up);
    a.step(&mut g);
    assert_eq!(a.direction, Direction::Left);
    assert_eq!((a.x, a.y), (1, 2));
    assert!(g.get(2, 2));
    assert_eq!(count_black(&g), 0);
}

#[test]
fn step_at_origin_heading_left_stays_clamped() {
    let mut g = Grid::new(8);
    let mut a = Ant::new(0, 0, Direction::Left);
    a.step(&mut g);
    assert_eq!(a.x, 0);
    assert_eq!(a.y, 0);
    assert_eq!(a.direction, Direction::Up);
    assert!(!g.get(0, 0));
    assert_eq!(count_black(&g), 1);
}

#[test]
fn step_clamps_at_right_wall() {
    let mut g = Grid::new(3);
    let mut a = Ant::new(2, 1, Direction::Up);
    a.step(&mut g);
    assert_eq!(a.direction, Direction::Right);
    assert_eq!((a.x, a.y), (2, 1));
    assert!(!g.get(2, 1));
}

#[test]
fn step_clamps_at_bottom_wall() {
    let mut g = Grid::new(3);
    let mut a = Ant::new(1, 2, Direction::Right);
    a.step(&mut g);
    assert_eq!(a.direction, Direction::Down);
    assert_eq!((a.x, a.y), (1, 2));
    assert!(!g.get(1, 2));
}

#[test]
fn step_clamps_at_top_wall() {
    let mut g = Grid::new(3);
    let mut a = Ant::new(1, 0, Direction::Left);
    a.step(&mut g);
    assert_eq!(a.direction, Direction::Up);
    assert_eq!((a.x, a.y), (1, 0));
    assert!(!g.get(1, 0));
}

#[test]
fn step_clamps_at_left_wall() {
    let mut g = Grid::new(3);
    let mut a = Ant::new(0, 1, Direction::Down);
    a.step(&mut g);
    assert_eq!(a.direction, Direction::Left);
    assert_eq!((a.x, a.y), (0, 1));
    assert!(!g.get(0, 1));
}

#[test]
fn move_forward_moves_one_cell_in_each_heading() {
    let mut a = Ant::new(2, 2, Direction::Left);
    a.move_forward(5);
    assert_eq!((a.x, a.y), (1, 2));
    let mut a = Ant::new(2, 2, Direction::Right);
    a.move_forward(5);
    assert_eq!((a.x, a.y), (3, 2));
    let mut a = Ant::new(2, 2, Direction::Up);
    a.move_forward(5);
    assert_eq!((a.x, a.y), (2, 1));
    let mut a = Ant::new(2, 2, Direction::Down);
    a.move_forward(5);
    assert_eq!((a.x, a.y), (2, 3));
}

#[test]
fn move_forward_keeps_heading() {
    let mut a = Ant::new(0, 0, Direction::Left);
    a.move_forward(4);
    assert_eq!((a.x, a.y), (0, 0));
    assert_eq!(a.direction, Direction::Left);
}

#[test]
fn first_four_steps_trace_a_clockwise_loop() {
    let mut g = Grid::new(GRID_SIZE);
    let mut a = Ant::default();
    let (cx, cy) = (GRID_SIZE / 2, GRID_SIZE / 2);

    a.step(&mut g);
    assert_eq!((a.x, a.y), (cx + 1, cy));
    assert_eq!(a.direction, Direction::Right);

    a.step(&mut g);
    assert_eq!((a.x, a.y), (cx + 1, cy + 1));
    assert_eq!(a.direction, Direction::Down);

    a.step(&mut g);
    assert_eq!((a.x, a.y), (cx, cy + 1));
    assert_eq!(a.direction, Direction::Left);

    a.step(&mut g);
    assert_eq!((a.x, a.y), (cx, cy));
    assert_eq!(a.direction, Direction::Up);

    assert!(!g.get(cx, cy));
    assert!(!g.get(cx + 1, cy));
    assert!(!g.get(cx + 1, cy + 1));
    assert!(!g.get(cx, cy + 1));
    assert_eq!(count_black(&g), 4);
}

#[test]
fn replaying_the_same_steps_gives_the_same_states() {
    let mut g1 = Grid::new(50);
    let mut a1 = Ant::new(25, 25, Direction::Up);
    let mut g2 = Grid::new(50);
    let mut a2 = Ant::new(25, 25, Direction::Up);
    for _ in 0..500 {
        a1.step(&mut g1);
        a2.step(&mut g2);
        assert_eq!((a1.x, a1.y), (a2.x, a2.y));
        assert_eq!(a1.direction, a2.direction);
    }
    for x in 0..50 {
        for y in 0..50 {
            assert_eq!(g1.get(x, y), g2.get(x, y));
        }
    }
}

#[test]
fn long_run_keeps_the_ant_in_bounds() {
    let mut g = Grid::new(20);
    let mut a = Ant::new(10, 10, Direction::Up);
    for _ in 0..5000 {
        a.step(&mut g);
        assert!(a.x < 20);
        assert!(a.y < 20);
    }
}
