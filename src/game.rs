use vstd::prelude::*;
use crate::grid::{
    Cell, Direction, WinSize, Velocity, NextDirection, DirectionVelocityMap, step_cell, in_grid, lemma_step_back,
    opposite_of,
};
use crate::chain::{
    EntityVector, Collision, shifted, collision_of, tail_follow, move_snake, collision_check,
};
use crate::clock::{LastUpdateTime, Tick, tick_due, track_step_time};
use crate::food::{Food, is_free, has_free, place_food};

verus! {

/// Whether the run goes on or has ended in a collision.
#[derive(PartialEq, Eq, Structural, Clone, Copy, Debug)]
pub enum RunState {
    Running,
    Terminated,
}

/// A growth event waiting to append a segment at `spawn`. While `wait` holds,
/// the tail has not yet left `spawn`.
#[derive(PartialEq, Eq, Structural, Clone, Copy, Debug)]
pub struct PendingGrowth {
    pub spawn: Cell,
    pub wait: bool,
}

/// What one tick did.
#[derive(PartialEq, Eq, Structural, Clone, Copy, Debug)]
pub struct TickReport {
    /// A segment was appended.
    pub grew: bool,
    /// The head ate the food, which must now be moved.
    pub ate: bool,
    pub collision: Collision,
}

/// What one frame did.
#[derive(PartialEq, Eq, Structural, Clone, Copy, Debug)]
pub struct FrameReport {
    /// A tick was due and the run was going on.
    pub ticked: bool,
    pub report: TickReport,
}

/// The state that a tick reads and writes, as mathematical values.
pub struct Snapshot {
    pub cells: Seq<Cell>,
    pub velocity: Direction,
    pub next: Direction,
    pub growth: Option<PendingGrowth>,
    pub state: RunState,
}

/// The whole simulation state.
pub struct Game {
    pub win_size: WinSize,
    pub direction_map: DirectionVelocityMap,
    pub entity_vector: EntityVector,
    pub velocity: Velocity,
    pub next_direction: NextDirection,
    pub food: Food,
    pub growth: Option<PendingGrowth>,
    pub last_update_time: LastUpdateTime,
    pub tick: Tick,
    pub state: RunState,
}

/// The next direction after a request: a request is taken unless it is no
/// request at all or the exact reverse of the committed direction.
pub open spec fn resolved(committed: Direction, next: Direction, requested: Direction) -> Direction {
    if requested != Direction::NONE && requested != opposite_of(committed) {
        requested
    } else {
        next
    }
}

/// The deferred growth protocol, after the chain has moved to `s`: a waiting
/// event stops waiting once the tail has left the spawn cell; an event that
/// no longer waits appends its segment.
pub open spec fn progressed(s: Seq<Cell>, g: Option<PendingGrowth>) -> (Seq<Cell>, Option<PendingGrowth>) {
    match g {
        None => (s, None),
        Some(p) => if p.wait {
            if s.last() != p.spawn {
                (s, Some(PendingGrowth { spawn: p.spawn, wait: false }))
            } else {
                (s, g)
            }
        } else {
            (s.push(p.spawn), None)
        },
    }
}

/// One tick from a running state `st`, with the food at `food`: commit and
/// advance, carry growth on, check collisions (which cut the chain back to
/// the head and end the run), then check whether the head eats the food.
/// Food is not eaten while a growth event is pending.
pub open spec fn advanced(st: Snapshot, food: Cell, win: WinSize) -> (Snapshot, TickReport) {
    let moved = shifted(st.cells, step_cell(st.cells[0], st.next));
    let (cells, g) = progressed(moved, st.growth);
    let grew = cells.len() > moved.len();
    let col = collision_of(cells, win);
    if col != Collision::Clear {
        (
            Snapshot {
                cells: seq![cells[0]],
                velocity: st.next,
                next: st.next,
                growth: None,
                state: RunState::Terminated,
            },
            TickReport { grew, ate: false, collision: col },
        )
    } else if g is None && cells[0] == food {
        (
            Snapshot {
                cells,
                velocity: st.next,
                next: st.next,
                growth: Some(PendingGrowth { spawn: cells.last(), wait: true }),
                state: RunState::Running,
            },
            TickReport { grew, ate: true, collision: col },
        )
    } else {
        (
            Snapshot { cells, velocity: st.next, next: st.next, growth: g, state: RunState::Running },
            TickReport { grew, ate: false, collision: col },
        )
    }
}

/// Shape of a state: a non-empty chain; while running, every segment and
/// the spawn cell inside the grid; once ended, the head alone and nothing
/// pending.
pub open spec fn snapshot_wf(st: Snapshot, win: WinSize) -> bool {
    &&& st.cells.len() >= 1
    &&& st.state == RunState::Running ==> {
        &&& forall|i: int| 0 <= i < st.cells.len() ==> in_grid(#[trigger] st.cells[i], win)
        &&& st.growth is Some ==> in_grid(st.growth->0.spawn, win)
    }
    &&& st.state == RunState::Terminated ==> st.cells.len() == 1 && st.growth is None
}

/// Takes a requested direction as the next one unless it is no request or
/// reverses the committed direction. Runs every frame, ticking or not.
pub fn get_next_move(velocity: &Velocity, next_direction: &mut NextDirection, requested: Direction)
    ensures
        final(next_direction).direction == resolved(
            velocity.direction,
            old(next_direction).direction,
            requested,
        ),
{
    if requested != Direction::NONE && requested != velocity.direction.opposite() {
        next_direction.direction = requested;
    }
}

/// A chain of one segment, the head, in the middle of the grid.
pub fn initialize_snake(win_size: &WinSize) -> (r: EntityVector)
    ensures
        r.vector@ == seq![initial_head(*win_size)],
{
    let mut entity_vector = EntityVector::new();
    entity_vector.push(Cell { x: (win_size.w / 2) as i64, y: (win_size.h / 2) as i64 });
    entity_vector
}

pub open spec fn initial_head(win: WinSize) -> Cell {
    Cell { x: (win.w / 2) as i64, y: (win.h / 2) as i64 }
}

/// The first food, one cell up and right of the head, wrapping round at
/// the edges.
pub fn initialize_food(win_size: &WinSize) -> (r: Food)
    ensures
        r.pos == initial_food(*win_size),
{
    let x: u32 = if win_size.w / 2 + 1 < win_size.w { win_size.w / 2 + 1 } else { 0 };
    let y: u32 = if win_size.h / 2 + 1 < win_size.h { win_size.h / 2 + 1 } else { 0 };
    Food { pos: Cell { x: x as i64, y: y as i64 } }
}

pub open spec fn initial_food(win: WinSize) -> Cell {
    Cell {
        x: (if win.w / 2 + 1 < win.w { win.w / 2 + 1 } else { 0 }) as i64,
        y: (if win.h / 2 + 1 < win.h { win.h / 2 + 1 } else { 0 }) as i64,
    }
}

impl Game {
    /// A fresh run at time `now`: the head alone in the middle, standing
    /// still, the food next to it, and a tick due on the first frame.
    pub fn new(win_size: WinSize, now: u64) -> (r: Game)
        requires
            win_size.w >= 1,
            win_size.h >= 1,
            win_size.w >= 2 || win_size.h >= 2,
        ensures
            r.wf(),
            steady(r.snapshot()),
            all_apart(r.entity_vector.vector@),
            r.win_size == win_size,
            r.entity_vector.vector@ == seq![initial_head(win_size)],
            r.food.pos == initial_food(win_size),
            is_free(r.food.pos, r.entity_vector.vector@, win_size),
            r.velocity.direction == Direction::NONE,
            r.next_direction.direction == Direction::NONE,
            r.growth is None,
            r.state == RunState::Running,
            r.last_update_time.time == now,
            r.tick.allowed,
    {
        let entity_vector = initialize_snake(&win_size);
        let food = initialize_food(&win_size);
        let g = Game {
            win_size,
            direction_map: DirectionVelocityMap::new(),
            entity_vector,
            velocity: Velocity { direction: Direction::NONE },
            next_direction: NextDirection { direction: Direction::NONE },
            food,
            growth: None,
            last_update_time: LastUpdateTime { time: now },
            tick: Tick::new(),
            state: RunState::Running,
        };
        assert(!g.entity_vector.vector@.contains(food.pos)) by {
            assert(g.entity_vector.vector@[0] != food.pos);
        }
        g
    }

    /// Starts the run over at time `now` on the same grid: everything as in
    /// a fresh game.
    pub fn reset(&mut self, now: u64)
        requires
            old(self).win_size.w >= 1,
            old(self).win_size.h >= 1,
            old(self).win_size.w >= 2 || old(self).win_size.h >= 2,
        ensures
            final(self).wf(),
            steady(final(self).snapshot()),
            all_apart(final(self).entity_vector.vector@),
            final(self).win_size == old(self).win_size,
            final(self).entity_vector.vector@ == seq![initial_head(old(self).win_size)],
            final(self).food.pos == initial_food(old(self).win_size),
            final(self).velocity.direction == Direction::NONE,
            final(self).next_direction.direction == Direction::NONE,
            final(self).growth is None,
            final(self).state == RunState::Running,
            final(self).last_update_time.time == now,
            final(self).tick.allowed,
    {
        *self = Game::new(self.win_size, now);
    }

    /// One frame at time `now` with a requested direction: the tick gate,
    /// then the direction resolver, then, when a tick is due and the run goes
    /// on, one tick, and a new place for the food if it was eaten.
    pub fn update(&mut self, now: u64, requested: Direction) -> (r: FrameReport)
        requires
            old(self).wf(),
        ensures
            final(self).wf(),
            final(self).win_size == old(self).win_size,
            final(self).tick.allowed == tick_due(now, old(self).last_update_time.time),
            final(self).last_update_time.time == if tick_due(now, old(self).last_update_time.time) {
                now
            } else {
                old(self).last_update_time.time
            },
            ({
                let st = Snapshot {
                    next: resolved(
                        old(self).velocity.direction,
                        old(self).next_direction.direction,
                        requested,
                    ),
                    ..old(self).snapshot()
                };
                r.ticked == (tick_due(now, old(self).last_update_time.time) && old(self).state
                    == RunState::Running) && (r.ticked ==> (final(self).snapshot(), r.report)
                    == advanced(st, old(self).food.pos, old(self).win_size)) && (!r.ticked
                    ==> final(self).snapshot() == st)
            }),
            r.ticked && r.report.ate && has_free(final(self).entity_vector.vector@, final(self).win_size)
                ==> is_free(final(self).food.pos, final(self).entity_vector.vector@, final(self).win_size),
            !(r.ticked && r.report.ate && has_free(final(self).entity_vector.vector@, final(self).win_size))
                ==> final(self).food == old(self).food,
            final(self).entity_vector.vector@.len() >= old(self).entity_vector.vector@.len() || (
            final(self).state == RunState::Terminated && final(self).entity_vector.vector@.len()
                == 1),
            steady(old(self).snapshot()) ==> steady(final(self).snapshot()),
            steady(old(self).snapshot()) && all_apart(old(self).entity_vector.vector@)
                && final(self).state == RunState::Running && !r.report.grew ==> all_apart(
                final(self).entity_vector.vector@,
            ),
    {
        let ghost before = self.snapshot();
        track_step_time(now, &mut self.last_update_time, &mut self.tick);
        get_next_move(&self.velocity, &mut self.next_direction, requested);
        proof {
            if steady(before) {
                lemma_resolve_keeps_steady(before, requested);
            }
        }
        if self.tick.allowed && self.state == RunState::Running {
            proof {
                if steady(self.snapshot()) {
                    lemma_tick_keeps_cells_apart(self.snapshot(), self.food.pos, self.win_size);
                }
            }
            let report = self.advance();
            if report.ate {
                place_food(&self.win_size, &self.entity_vector, &mut self.food);
            }
            FrameReport { ticked: true, report }
        } else {
            FrameReport {
                ticked: false,
                report: TickReport { grew: false, ate: false, collision: Collision::Clear },
            }
        }
    }

    pub open spec fn snapshot(&self) -> Snapshot {
        Snapshot {
            cells: self.entity_vector.vector@,
            velocity: self.velocity.direction,
            next: self.next_direction.direction,
            growth: self.growth,
            state: self.state,
        }
    }

    pub open spec fn wf(&self) -> bool {
        self.direction_map.wf() && snapshot_wf(self.snapshot(), self.win_size)
    }

    /// One tick of a running game; the food is left where it is.
    pub fn advance(&mut self) -> (r: TickReport)
        requires
            old(self).wf(),
            old(self).state == RunState::Running,
        ensures
            final(self).wf(),
            (final(self).snapshot(), r) == advanced(
                old(self).snapshot(),
                old(self).food.pos,
                old(self).win_size,
            ),
            final(self).win_size == old(self).win_size,
            final(self).food == old(self).food,
            final(self).direction_map == old(self).direction_map,
            final(self).last_update_time == old(self).last_update_time,
            final(self).tick == old(self).tick,
            final(self).entity_vector.vector@.len() >= old(self).entity_vector.vector@.len() || (
            final(self).state == RunState::Terminated && final(self).entity_vector.vector@.len()
                == 1),
    {
        let ghost st = self.snapshot();
        let ghost moved = shifted(st.cells, step_cell(st.cells[0], st.next));
        assert(in_grid(st.cells[0], self.win_size));
        tail_follow(&mut self.entity_vector);
        move_snake(&self.direction_map, &mut self.velocity, &self.next_direction, &mut self.entity_vector);
        assert(self.entity_vector.vector@ =~= moved);
        let mut grew = false;
        match self.growth {
            Some(p) => {
                if p.wait {
                    let last = self.entity_vector.vector[self.entity_vector.vector.len() - 1];
                    if last != p.spawn {
                        self.growth = Some(PendingGrowth { spawn: p.spawn, wait: false });
                    }
                } else {
                    self.entity_vector.push(p.spawn);
                    self.growth = None;
                    grew = true;
                }
            },
            None => {},
        }
        assert((self.entity_vector.vector@, self.growth) == progressed(moved, st.growth));
        let collision = collision_check(&self.win_size, &self.entity_vector);
        if collision != Collision::Clear {
            self.entity_vector.truncate_to_head();
            self.growth = None;
            self.state = RunState::Terminated;
            return TickReport { grew, ate: false, collision };
        }
        let mut ate = false;
        if self.growth.is_none() && self.entity_vector.vector[0] == self.food.pos {
            let last = self.entity_vector.vector[self.entity_vector.vector.len() - 1];
            self.growth = Some(PendingGrowth { spawn: last, wait: true });
            ate = true;
        }
        TickReport { grew, ate, collision }
    }
}

} // verus!

verus! {

/// No two segments share a cell.
pub open spec fn all_apart(s: Seq<Cell>) -> bool {
    forall|i: int, j: int| 0 <= i < j < s.len() ==> s[i] != s[j]
}

/// Facts about the directions that hold in every state reached from a fresh
/// run: once moving, the next direction is a real one and not a reversal;
/// a chain of two or more has moved; the neck lies one step behind the head
/// in a chain of three or more; a growth event that stopped waiting has
/// seen the head move; and a lone head waiting to grow stands on the spawn
/// cell.
pub open spec fn steady(st: Snapshot) -> bool {
    &&& st.velocity != Direction::NONE ==> st.next != Direction::NONE && st.next != opposite_of(
        st.velocity,
    )
    &&& st.cells.len() >= 2 ==> st.velocity != Direction::NONE
    &&& st.cells.len() >= 3 ==> st.cells[1] == step_cell(st.cells[0], opposite_of(st.velocity))
    &&& (st.growth is Some && !st.growth->0.wait) ==> st.velocity != Direction::NONE
    &&& (st.growth is Some && st.growth->0.wait && st.cells.len() == 1) ==> st.growth->0.spawn
        == st.cells[0]
}

proof fn lemma_step_injective(c: Cell, d1: Direction, d2: Direction)
    requires
        i64::MIN < c.x < i64::MAX,
        i64::MIN < c.y < i64::MAX,
        step_cell(c, d1) == step_cell(c, d2),
    ensures
        d1 == d2,
{
}

/// A fresh run is steady.
pub proof fn lemma_new_is_steady(win: WinSize)
    ensures
        steady(
            Snapshot {
                cells: seq![initial_head(win)],
                velocity: Direction::NONE,
                next: Direction::NONE,
                growth: None,
                state: RunState::Running,
            },
        ),
{
}

/// The direction resolver keeps a state steady.
pub proof fn lemma_resolve_keeps_steady(st: Snapshot, requested: Direction)
    requires
        steady(st),
    ensures
        steady(Snapshot { next: resolved(st.velocity, st.next, requested), ..st }),
{
}

/// A request for the exact reverse of the committed direction is turned
/// down: the next direction stays what it was, and a snake moving in `d`
/// keeps moving in `d`.
pub proof fn lemma_reversal_rejected(d: Direction, next: Direction)
    ensures
        resolved(d, next, opposite_of(d)) == next,
        resolved(d, d, opposite_of(d)) == d,
{
}

/// One tick keeps a running, well-shaped, steady state steady; and where
/// no two segments shared a cell before, none do after it, unless the run
/// ended or a segment was just appended.
pub proof fn lemma_tick_keeps_cells_apart(st: Snapshot, food: Cell, win: WinSize)
    requires
        snapshot_wf(st, win),
        st.state == RunState::Running,
        steady(st),
    ensures
        steady(advanced(st, food, win).0),
        snapshot_wf(advanced(st, food, win).0, win),
        all_apart(st.cells) && advanced(st, food, win).0.state == RunState::Running
            && !advanced(st, food, win).1.grew ==> all_apart(advanced(st, food, win).0.cells),
{
    let s = st.cells;
    let h = step_cell(s[0], st.next);
    let moved = shifted(s, h);
    let (cells, g) = progressed(moved, st.growth);
    let (nst, r) = advanced(st, food, win);
    assert(in_grid(s[0], win));
    assert(moved.len() == s.len());
    assert(forall|k: int| 1 <= k < s.len() ==> moved[k] == s[k - 1]);
    if st.next != Direction::NONE {
        lemma_step_back(h, st.next);
    }
    assert(snapshot_wf(nst, win)) by {
        if nst.state == RunState::Running {
            assert forall|i: int| 0 <= i < nst.cells.len() implies in_grid(#[trigger] nst.cells[i], win) by {
                if i == 0 {
                } else if i < s.len() {
                    assert(nst.cells[i] == s[i - 1]);
                } else {
                    assert(nst.cells[i] == st.growth->0.spawn);
                }
            }
            if nst.growth is Some {
                if st.growth is None || (st.growth->0.wait && cells.last() == st.growth->0.spawn && g == st.growth) {
                    if g is None {
                        assert(nst.growth->0.spawn == cells.last());
                        assert(in_grid(cells[cells.len() - 1], win));
                    }
                } else if g is None {
                    assert(nst.growth->0.spawn == cells[cells.len() - 1]);
                }
            }
        }
    }
    assert(steady(nst)) by {
        if nst.cells.len() >= 3 {
            assert(nst.cells[1] == s[0]);
            lemma_step_injective(s[0], st.next, st.next);
            assert(step_cell(h, opposite_of(st.next)) == s[0]) by {
                lemma_step_back(s[0], st.next);
            }
        }
        if nst.cells.len() >= 2 && s.len() == 1 && nst.state == RunState::Running {
            assert(st.growth is Some);
        }
        if nst.growth is Some && nst.growth->0.wait && nst.cells.len() == 1 {
            if st.growth is Some && st.growth->0.wait && g == st.growth {
                assert(cells.last() == st.growth->0.spawn);
            }
        }
    }
    if all_apart(s) && nst.state == RunState::Running && !r.grew {
        assert(cells == moved);
        assert forall|i: int, j: int| 0 <= i < j < cells.len() implies cells[i] != cells[j] by {
            if i == 0 {
                if j == 1 {
                    assert(st.velocity != Direction::NONE);
                } else if j == 2 {
                    assert(s[1] == step_cell(s[0], opposite_of(st.velocity)));
                    if h == s[1] {
                        lemma_step_injective(s[0], st.next, opposite_of(st.velocity));
                    }
                } else {
                    assert(!crate::chain::hits_self(cells));
                }
            } else {
                assert(cells[i] == s[i - 1]);
                assert(cells[j] == s[j - 1]);
            }
        }
    }
}

} // verus!

verus! {

/// A tick that follows a frame's direction request.
pub open spec fn tick_after_request(st: Snapshot, requested: Direction, food: Cell, win: WinSize) -> (
    Snapshot,
    TickReport,
) {
    advanced(Snapshot { next: resolved(st.velocity, st.next, requested), ..st }, food, win)
}

/// A lone head that moves onto the food eats it, and the two ticks after
/// that, whatever is requested, leave a chain of two whose new segment lies
/// on the cell where the food was eaten; the second of them is the one that
/// appends it.
pub proof fn lemma_growth_after_two_ticks(
    st: Snapshot,
    win: WinSize,
    food: Cell,
    food1: Cell,
    food2: Cell,
    requested1: Direction,
    requested2: Direction,
)
    requires
        snapshot_wf(st, win),
        steady(st),
        st.state == RunState::Running,
        st.cells.len() == 1,
        st.growth is None,
        st.next != Direction::NONE,
        step_cell(st.cells[0], st.next) == food,
        advanced(st, food, win).0.state == RunState::Running,
        tick_after_request(advanced(st, food, win).0, requested1, food1, win).0.state
            == RunState::Running,
        tick_after_request(
            tick_after_request(advanced(st, food, win).0, requested1, food1, win).0,
            requested2,
            food2,
            win,
        ).0.state == RunState::Running,
    ensures
        advanced(st, food, win).1.ate,
        advanced(st, food, win).0.cells == seq![food],
        advanced(st, food, win).0.growth == Some(PendingGrowth { spawn: food, wait: true }),
        !tick_after_request(advanced(st, food, win).0, requested1, food1, win).1.grew,
        tick_after_request(advanced(st, food, win).0, requested1, food1, win).0.cells.len() == 1,
        ({
            let (t3, r3) = tick_after_request(
                tick_after_request(advanced(st, food, win).0, requested1, food1, win).0,
                requested2,
                food2,
                win,
            );
            r3.grew && t3.cells.len() == 2 && t3.cells[1] == food
        }),
{
    let (t1, r1) = advanced(st, food, win);
    let u1 = Snapshot { next: resolved(t1.velocity, t1.next, requested1), ..t1 };
    let (t2, q2) = advanced(u1, food1, win);
    let u2 = Snapshot { next: resolved(t2.velocity, t2.next, requested2), ..t2 };
    let (t3, q3) = advanced(u2, food2, win);
    assert(shifted(st.cells, food) =~= seq![food]);
    assert(t1.cells =~= seq![food]);
    assert(in_grid(food, win));
    assert(u1.next != Direction::NONE);
    lemma_step_back(food, u1.next);
    assert(shifted(u1.cells, step_cell(food, u1.next)) =~= seq![step_cell(food, u1.next)]);
    assert(t2.growth == Some(PendingGrowth { spawn: food, wait: false }));
    assert(t2.cells.len() == 1);
    let h3 = step_cell(t2.cells[0], u2.next);
    assert(shifted(u2.cells, h3) =~= seq![h3]);
}

} // verus!
