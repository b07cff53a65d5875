use rusnake::chain::{collision_check, move_snake, tail_follow, Collision, EntityVector};
use rusnake::clock::{track_step_time, LastUpdateTime, Tick, TIME_STEP_MS};
use rusnake::food::{find_free_cell, is_occupied, place_food, Food};
use rusnake::game::{
    get_next_move, initialize_food, initialize_snake, Game, PendingGrowth, RunState,
};
use rusnake::grid::{Cell, Direction, DirectionVelocityMap, NextDirection, Velocity, WinSize};

fn cell(x: i64, y: i64) -> Cell {
    Cell { x, y }
}

fn chain(cells: &[(i64, i64)]) -> EntityVector {
    let mut v = EntityVector::new();
    for &(x, y) in cells {
        v.push(cell(x, y));
    }
    v
}

fn game_with(w: u32, h: u32, cells: &[(i64, i64)], dir: Direction, food: (i64, i64)) -> Game {
    let mut g = Game::new(WinSize { w, h }, 0);
    g.entity_vector = chain(cells);
    g.velocity = Velocity { direction: dir };
    g.next_direction = NextDirection { direction: dir };
    g.food = Food { pos: cell(food.0, food.1) };
    g
}

fn all_apart(v: &EntityVector) -> bool {
    for i in 0..v.len() {
        for j in (i + 1)..v.len() {
            if v.position(i) == v.position(j) {
                return false;
            }
        }
    }
    true
}

#[test]
fn opposite_directions() {
    assert_eq!(Direction::UP.opposite(), Direction::DOWN);
    assert_eq!(Direction::DOWN.opposite(), Direction::UP);
    assert_eq!(Direction::LEFT.opposite(), Direction::RIGHT);
    assert_eq!(Direction::RIGHT.opposite(), Direction::LEFT);
    assert_eq!(Direction::NONE.opposite(), Direction::NONE);
}

#[test]
fn velocity_map_units() {
    let m = DirectionVelocityMap::new();
    assert_eq!(m.get(Direction::UP), (0, 1));
    assert_eq!(m.get(Direction::DOWN), (0, -1));
    assert_eq!(m.get(Direction::LEFT), (-1, 0));
    assert_eq!(m.get(Direction::RIGHT), (1, 0));
    assert_eq!(m.get(Direction::NONE), (0, 0));
}

#[test]
fn tick_gate_fires_after_one_step() {
    let mut last = LastUpdateTime { time: 1000 };
    let mut tick = Tick::new();
    assert!(tick.allowed);
    track_step_time(1000 + TIME_STEP_MS - 1, &mut last, &mut tick);
    assert!(!tick.allowed);
    assert_eq!(last.time, 1000);
    track_step_time(1000 + TIME_STEP_MS, &mut last, &mut tick);
    assert!(tick.allowed);
    assert_eq!(last.time, 1250);
    track_step_time(1300, &mut last, &mut tick);
    assert!(!tick.allowed);
    assert_eq!(last.time, 1250);
}

#[test]
fn tick_gate_ignores_clock_going_back() {
    let mut last = LastUpdateTime { time: 5000 };
    let mut tick = Tick::new();
    track_step_time(10, &mut last, &mut tick);
    assert!(!tick.allowed);
    assert_eq!(last.time, 5000);
}

#[test]
fn reversal_is_rejected() {
    for d in [Direction::UP, Direction::DOWN, Direction::LEFT, Direction::RIGHT] {
        let v = Velocity { direction: d };
        let mut next = NextDirection { direction: d };
        get_next_move(&v, &mut next, d.opposite());
        assert_eq!(next.direction, d);
    }
}

#[test]
fn turn_and_no_request() {
    let v = Velocity { direction: Direction::RIGHT };
    let mut next = NextDirection { direction: Direction::RIGHT };
    get_next_move(&v, &mut next, Direction::UP);
    assert_eq!(next.direction, Direction::UP);
    get_next_move(&v, &mut next, Direction::NONE);
    assert_eq!(next.direction, Direction::UP);
    get_next_move(&v, &mut next, Direction::LEFT);
    assert_eq!(next.direction, Direction::UP);
    let still = Velocity { direction: Direction::NONE };
    let mut n2 = NextDirection { direction: Direction::NONE };
    get_next_move(&still, &mut n2, Direction::DOWN);
    assert_eq!(n2.direction, Direction::DOWN);
}

#[test]
fn tail_follow_shifts_by_one() {
    let mut v = chain(&[(0, 0), (1, 0), (2, 0), (2, 1)]);
    tail_follow(&mut v);
    assert_eq!(v.vector, vec![cell(0, 0), cell(0, 0), cell(1, 0), cell(2, 0)]);
    let mut one = chain(&[(3, 3)]);
    tail_follow(&mut one);
    assert_eq!(one.vector, vec![cell(3, 3)]);
}

#[test]
fn move_snake_commits_and_moves_head() {
    let m = DirectionVelocityMap::new();
    let mut vel = Velocity { direction: Direction::RIGHT };
    let next = NextDirection { direction: Direction::UP };
    let mut v = chain(&[(4, 4), (3, 4)]);
    move_snake(&m, &mut vel, &next, &mut v);
    assert_eq!(vel.direction, Direction::UP);
    assert_eq!(v.vector, vec![cell(4, 5), cell(3, 4)]);
}

#[test]
fn truncate_keeps_head() {
    let mut v = chain(&[(1, 1), (1, 2), (1, 3)]);
    v.truncate_to_head();
    assert_eq!(v.vector, vec![cell(1, 1)]);
}

#[test]
fn collision_walls() {
    let win = WinSize { w: 4, h: 3 };
    assert_eq!(collision_check(&win, &chain(&[(0, 0)])), Collision::Clear);
    assert_eq!(collision_check(&win, &chain(&[(3, 2)])), Collision::Clear);
    assert_eq!(collision_check(&win, &chain(&[(4, 0)])), Collision::Wall);
    assert_eq!(collision_check(&win, &chain(&[(-1, 0)])), Collision::Wall);
    assert_eq!(collision_check(&win, &chain(&[(0, 3)])), Collision::Wall);
    assert_eq!(collision_check(&win, &chain(&[(0, -1)])), Collision::Wall);
}

#[test]
fn collision_self_skips_the_neck() {
    let win = WinSize { w: 10, h: 10 };
    // head on the segment at index 3
    let hit = chain(&[(1, 1), (2, 1), (2, 2), (1, 1), (0, 1)]);
    assert_eq!(collision_check(&win, &hit), Collision::SelfHit);
    // head on index 1 or 2 does not count
    assert_eq!(collision_check(&win, &chain(&[(1, 1), (1, 1), (2, 1), (3, 1)])), Collision::Clear);
    assert_eq!(collision_check(&win, &chain(&[(1, 1), (2, 1), (1, 1), (3, 1)])), Collision::Clear);
}

#[test]
fn self_collision_ends_run() {
    // moving down from (1,2) onto (1,1), which the segment at index 3 takes
    let mut g = game_with(10, 10, &[(1, 2), (2, 2), (2, 1), (1, 1), (0, 1), (0, 0)], Direction::DOWN, (8, 8));
    let r = g.advance();
    assert_eq!(r.collision, Collision::SelfHit);
    assert_eq!(g.state, RunState::Terminated);
    assert_eq!(g.entity_vector.vector, vec![cell(1, 1)]);
}

#[test]
fn wall_collision_scenario() {
    let mut g = game_with(10, 10, &[(9, 5), (8, 5), (7, 5)], Direction::RIGHT, (0, 0));
    let f = g.update(250, Direction::NONE);
    assert!(f.ticked);
    assert_eq!(f.report.collision, Collision::Wall);
    assert_eq!(g.state, RunState::Terminated);
    assert_eq!(g.entity_vector.len(), 1);
    assert_eq!(g.entity_vector.position(0), cell(10, 5));
    // the run has ended: later frames change nothing
    let f2 = g.update(500, Direction::UP);
    assert!(!f2.ticked);
    assert_eq!(g.entity_vector.vector, vec![cell(10, 5)]);
}

#[test]
fn growth_after_two_ticks() {
    let mut g = Game::new(WinSize { w: 10, h: 10 }, 0);
    assert_eq!(g.entity_vector.vector, vec![cell(5, 5)]);
    g.food = Food { pos: cell(6, 5) };
    let f = g.update(250, Direction::RIGHT);
    assert!(f.ticked && f.report.ate && !f.report.grew);
    assert_eq!(g.growth, Some(PendingGrowth { spawn: cell(6, 5), wait: true }));
    assert!(!is_occupied(&g.entity_vector, g.food.pos));
    let fp = g.food.pos;
    assert!(fp.x >= 0 && fp.x < 10 && fp.y >= 0 && fp.y < 10);
    g.food = Food { pos: cell(0, 0) };
    let f1 = g.update(500, Direction::NONE);
    assert!(!f1.report.grew);
    assert_eq!(g.entity_vector.len(), 1);
    assert_eq!(g.growth, Some(PendingGrowth { spawn: cell(6, 5), wait: false }));
    let f2 = g.update(750, Direction::UP);
    assert!(f2.report.grew);
    assert_eq!(g.entity_vector.vector, vec![cell(7, 6), cell(6, 5)]);
    assert_eq!(g.growth, None);
}

#[test]
fn no_tick_between_steps() {
    let mut g = Game::new(WinSize { w: 10, h: 10 }, 0);
    g.next_direction = NextDirection { direction: Direction::UP };
    g.velocity = Velocity { direction: Direction::UP };
    let f = g.update(100, Direction::LEFT);
    assert!(!f.ticked);
    assert_eq!(g.entity_vector.vector, vec![cell(5, 5)]);
    assert_eq!(g.next_direction.direction, Direction::LEFT);
    let f = g.update(260, Direction::NONE);
    assert!(f.ticked);
    assert_eq!(g.entity_vector.vector, vec![cell(4, 5)]);
    assert_eq!(g.velocity.direction, Direction::LEFT);
}

#[test]
fn food_not_eaten_while_growth_pending() {
    let mut g = game_with(10, 10, &[(3, 3)], Direction::RIGHT, (9, 9));
    g.growth = Some(PendingGrowth { spawn: cell(3, 3), wait: true });
    g.food = Food { pos: cell(4, 3) };
    let r = g.advance();
    assert!(!r.ate);
    assert_eq!(g.food.pos, cell(4, 3));
    assert_eq!(g.growth, Some(PendingGrowth { spawn: cell(3, 3), wait: false }));
}

#[test]
fn length_never_shrinks_while_running() {
    let mut g = Game::new(WinSize { w: 12, h: 12 }, 0);
    let moves = [
        Direction::RIGHT, Direction::UP, Direction::LEFT, Direction::LEFT, Direction::DOWN,
        Direction::DOWN, Direction::RIGHT, Direction::RIGHT, Direction::RIGHT, Direction::UP,
    ];
    let mut now: u64 = 0;
    let mut prev = g.entity_vector.len();
    for round in 0..60 {
        now += 250;
        // steer the head towards the food, never reversing
        let head = g.entity_vector.position(0);
        let want = if g.food.pos.x > head.x {
            Direction::RIGHT
        } else if g.food.pos.x < head.x {
            Direction::LEFT
        } else if g.food.pos.y > head.y {
            Direction::UP
        } else if g.food.pos.y < head.y {
            Direction::DOWN
        } else {
            moves[round % moves.len()]
        };
        let f = g.update(now, want);
        assert!(f.ticked);
        let len = g.entity_vector.len();
        if g.state == RunState::Terminated {
            assert_eq!(len, 1);
            break;
        }
        assert!(len >= prev);
        if !f.report.grew {
            assert!(all_apart(&g.entity_vector));
        }
        if f.report.ate {
            assert!(!is_occupied(&g.entity_vector, g.food.pos));
        }
        prev = len;
    }
}

#[test]
fn placement_with_one_free_cell() {
    let win = WinSize { w: 3, h: 2 };
    let v = chain(&[(0, 0), (1, 0), (2, 0), (2, 1), (0, 1)]);
    for _ in 0..50 {
        let mut food = Food { pos: cell(0, 0) };
        assert!(place_food(&win, &v, &mut food));
        assert_eq!(food.pos, cell(1, 1));
    }
    assert_eq!(find_free_cell(&win, &v), Some(cell(1, 1)));
}

#[test]
fn placement_on_full_grid_keeps_food() {
    let win = WinSize { w: 2, h: 1 };
    let v = chain(&[(0, 0), (1, 0)]);
    let mut food = Food { pos: cell(1, 0) };
    assert!(!place_food(&win, &v, &mut food));
    assert_eq!(food.pos, cell(1, 0));
    assert_eq!(find_free_cell(&win, &v), None);
    let mut f0 = Food { pos: cell(7, 7) };
    assert!(!place_food(&WinSize { w: 0, h: 5 }, &v, &mut f0));
    assert_eq!(f0.pos, cell(7, 7));
}

#[test]
fn placement_moves_off_chain() {
    let win = WinSize { w: 5, h: 5 };
    let v = chain(&[(2, 2), (2, 1), (2, 0)]);
    for _ in 0..50 {
        let mut food = Food { pos: cell(2, 2) };
        assert!(place_food(&win, &v, &mut food));
        assert!(!is_occupied(&v, food.pos));
        assert!(food.pos.x >= 0 && food.pos.x < 5 && food.pos.y >= 0 && food.pos.y < 5);
    }
}

#[test]
fn occupancy() {
    let v = chain(&[(1, 1), (1, 2)]);
    assert!(is_occupied(&v, cell(1, 2)));
    assert!(!is_occupied(&v, cell(2, 1)));
}

#[test]
fn initial_layout() {
    let win = WinSize { w: 16, h: 12 };
    assert_eq!(initialize_snake(&win).vector, vec![cell(8, 6)]);
    assert_eq!(initialize_food(&win).pos, cell(9, 7));
    let narrow = WinSize { w: 1, h: 2 };
    assert_eq!(initialize_snake(&narrow).vector, vec![cell(0, 1)]);
    assert_eq!(initialize_food(&narrow).pos, cell(0, 0));
    let g = Game::new(win, 42);
    assert_eq!(g.state, RunState::Running);
    assert_eq!(g.velocity.direction, Direction::NONE);
    assert_eq!(g.last_update_time.time, 42);
    assert!(g.tick.allowed);
}
