use vstd::prelude::*;

verus! {

/// A movement direction; `NONE` stands still.
#[derive(PartialEq, Eq, Structural, Clone, Copy, Debug)]
pub enum Direction {
    UP,
    DOWN,
    LEFT,
    RIGHT,
    NONE,
}

/// The direction the head moved in on the last tick.
#[derive(PartialEq, Eq, Structural, Clone, Copy, Debug)]
pub struct Velocity {
    pub direction: Direction,
}

/// The direction the head will move in on the next tick.
#[derive(PartialEq, Eq, Structural, Clone, Copy, Debug)]
pub struct NextDirection {
    pub direction: Direction,
}

/// One cell of the grid: column `x`, row `y`. Row numbers grow upwards.
#[derive(PartialEq, Eq, Structural, Clone, Copy, Debug)]
pub struct Cell {
    pub x: i64,
    pub y: i64,
}

/// The size of the playing field, counted in cells.
#[derive(PartialEq, Eq, Structural, Clone, Copy, Debug)]
pub struct WinSize {
    pub w: u32,
    pub h: u32,
}

pub open spec fn opposite_of(d: Direction) -> Direction {
    match d {
        Direction::UP => Direction::DOWN,
        Direction::DOWN => Direction::UP,
        Direction::LEFT => Direction::RIGHT,
        Direction::RIGHT => Direction::LEFT,
        Direction::NONE => Direction::NONE,
    }
}

/// Horizontal part of a direction's unit displacement.
pub open spec fn dx_of(d: Direction) -> int {
    match d {
        Direction::LEFT => -1,
        Direction::RIGHT => 1,
        _ => 0,
    }
}

/// Vertical part of a direction's unit displacement.
pub open spec fn dy_of(d: Direction) -> int {
    match d {
        Direction::UP => 1,
        Direction::DOWN => -1,
        _ => 0,
    }
}

/// The cell one step from `c` in direction `d`.
pub open spec fn step_cell(c: Cell, d: Direction) -> Cell {
    Cell { x: (c.x + dx_of(d)) as i64, y: (c.y + dy_of(d)) as i64 }
}

pub open spec fn in_grid(c: Cell, win: WinSize) -> bool {
    0 <= c.x < win.w && 0 <= c.y < win.h
}

/// Stepping away and back again lands on the starting cell, and a real
/// direction never leaves the cell where it is.
pub proof fn lemma_step_back(c: Cell, d: Direction)
    requires
        i64::MIN < c.x < i64::MAX,
        i64::MIN < c.y < i64::MAX,
    ensures
        d != Direction::NONE ==> step_cell(c, d) != c,
        d != Direction::NONE ==> opposite_of(d) != d,
        opposite_of(opposite_of(d)) == d,
{
}

impl Direction {
    /// The reverse direction (`NONE` is its own reverse).
    pub fn opposite(self) -> (r: Direction)
        ensures
            r == opposite_of(self),
    {
        match self {
            Direction::UP => Direction::DOWN,
            Direction::DOWN => Direction::UP,
            Direction::LEFT => Direction::RIGHT,
            Direction::RIGHT => Direction::LEFT,
            Direction::NONE => Direction::NONE,
        }
    }
}

/// The unit displacement of each direction, as a lookup table.
pub struct DirectionVelocityMap {
    pub up: (i64, i64),
    pub down: (i64, i64),
    pub left: (i64, i64),
    pub right: (i64, i64),
    pub none: (i64, i64),
}

impl DirectionVelocityMap {
    pub open spec fn wf(&self) -> bool {
        &&& self.up == (0i64, 1i64)
        &&& self.down == (0i64, -1i64)
        &&& self.left == (-1i64, 0i64)
        &&& self.right == (1i64, 0i64)
        &&& self.none == (0i64, 0i64)
    }

    pub fn new() -> (r: Self)
        ensures
            r.wf(),
    {
        DirectionVelocityMap { up: (0, 1), down: (0, -1), left: (-1, 0), right: (1, 0), none: (0, 0) }
    }

    /// The displacement `(dx, dy)` of one step in direction `d`.
    pub fn get(&self, d: Direction) -> (r: (i64, i64))
        requires
            self.wf(),
        ensures
            r.0 == dx_of(d),
            r.1 == dy_of(d),
    {
        match d {
            Direction::UP => self.up,
            Direction::DOWN => self.down,
            Direction::LEFT => self.left,
            Direction::RIGHT => self.right,
            Direction::NONE => self.none,
        }
    }
}

} // verus!
