use vstd::prelude::*;
use crate::grid::{Cell, Velocity, NextDirection, WinSize, DirectionVelocityMap, step_cell, in_grid};

verus! {

/// The body chain: the cells of the segments, head first, tail last. A
/// segment's identity is its place in the chain, which never changes while
/// it lives, since segments are only appended at the end or cut off at the
/// end.
pub struct EntityVector {
    pub vector: Vec<Cell>,
}

/// The chain after one advance: the head takes `head`, and every other
/// segment takes the cell its predecessor held before.
pub open spec fn shifted(s: Seq<Cell>, head: Cell) -> Seq<Cell>
    recommends
        s.len() >= 1,
{
    seq![head] + s.subrange(0, s.len() - 1)
}

/// Whether the head lies on a segment at index three or later; the two
/// segments right behind the head never count.
pub open spec fn hits_self(s: Seq<Cell>) -> bool {
    exists|i: int| 3 <= i < s.len() && #[trigger] s[i] == s[0]
}

/// What a collision check finds.
#[derive(PartialEq, Eq, Structural, Clone, Copy, Debug)]
pub enum Collision {
    Clear,
    Wall,
    SelfHit,
}

pub open spec fn collision_of(s: Seq<Cell>, win: WinSize) -> Collision
    recommends
        s.len() >= 1,
{
    if !in_grid(s[0], win) {
        Collision::Wall
    } else if hits_self(s) {
        Collision::SelfHit
    } else {
        Collision::Clear
    }
}

impl EntityVector {
    pub fn new() -> (r: Self)
        ensures
            r.vector@ == Seq::<Cell>::empty(),
    {
        EntityVector { vector: Vec::new() }
    }

    /// Appends a segment at `c` behind the current tail.
    pub fn push(&mut self, c: Cell)
        ensures
            final(self).vector@ == old(self).vector@.push(c),
    {
        self.vector.push(c);
    }

    pub fn len(&self) -> (r: usize)
        ensures
            r == self.vector@.len(),
    {
        self.vector.len()
    }

    /// The cell of segment `i` (the head is segment 0).
    pub fn position(&self, i: usize) -> (r: Cell)
        requires
            i < self.vector@.len(),
        ensures
            r == self.vector@[i as int],
    {
        self.vector[i]
    }

    /// Removes every segment but the head.
    pub fn truncate_to_head(&mut self)
        requires
            old(self).vector@.len() >= 1,
        ensures
            final(self).vector@ == seq![old(self).vector@[0]],
    {
        self.vector.truncate(1);
        assert(self.vector@ =~= seq![old(self).vector@[0]]);
    }
}

/// Moves every segment behind the head onto the cell its predecessor held
/// before this step; the head itself stays where it is.
pub fn tail_follow(entity_vector: &mut EntityVector)
    requires
        old(entity_vector).vector@.len() >= 1,
    ensures
        final(entity_vector).vector@ == shifted(old(entity_vector).vector@, old(entity_vector).vector@[0]),
{
    let ghost s = entity_vector.vector@;
    let n = entity_vector.vector.len();
    let mut position_for_next: Cell = entity_vector.vector[0];
    let mut i: usize = 1;
    while i < n
        invariant
            1 <= i <= n,
            n == s.len(),
            entity_vector.vector@.len() == n,
            position_for_next == s[i - 1],
            forall|k: int| 0 <= k < i ==> entity_vector.vector@[k] == shifted(s, s[0])[k],
            forall|k: int| i <= k < n ==> entity_vector.vector@[k] == s[k],
        decreases n - i,
    {
        let current_position = entity_vector.vector[i];
        entity_vector.vector.set(i, position_for_next);
        position_for_next = current_position;
        i = i + 1;
    }
    assert(entity_vector.vector@ =~= shifted(s, s[0]));
}

/// Commits the next direction and moves the head one cell along it.
pub fn move_snake(
    direction_map: &DirectionVelocityMap,
    velocity: &mut Velocity,
    next_direction: &NextDirection,
    entity_vector: &mut EntityVector,
)
    requires
        direction_map.wf(),
        old(entity_vector).vector@.len() >= 1,
        i64::MIN < old(entity_vector).vector@[0].x < i64::MAX,
        i64::MIN < old(entity_vector).vector@[0].y < i64::MAX,
    ensures
        final(velocity).direction == next_direction.direction,
        final(entity_vector).vector@ == old(entity_vector).vector@.update(
            0,
            step_cell(old(entity_vector).vector@[0], next_direction.direction),
        ),
{
    velocity.direction = next_direction.direction;
    let (dx, dy) = direction_map.get(velocity.direction);
    let head = entity_vector.vector[0];
    let moved = Cell { x: head.x + dx, y: head.y + dy };
    entity_vector.vector.set(0, moved);
}

/// Checks the head against the walls and against the body behind the neck.
pub fn collision_check(win_size: &WinSize, entity_vector: &EntityVector) -> (r: Collision)
    requires
        entity_vector.vector@.len() >= 1,
    ensures
        r == collision_of(entity_vector.vector@, *win_size),
{
    let head = entity_vector.vector[0];
    if head.x < 0 || head.x >= win_size.w as i64 || head.y < 0 || head.y >= win_size.h as i64 {
        return Collision::Wall;
    }
    let n = entity_vector.vector.len();
    let mut i: usize = 3;
    while i < n
        invariant
            n == entity_vector.vector@.len(),
            head == entity_vector.vector@[0],
            in_grid(head, *win_size),
            3 <= i,
            forall|k: int| 3 <= k < i && k < n ==> entity_vector.vector@[k] != head,
        decreases n - i,
    {
        if entity_vector.vector[i] == head {
            assert(entity_vector.vector@[i as int] == entity_vector.vector@[0]);
            return Collision::SelfHit;
        }
        i = i + 1;
    }
    Collision::Clear
}

} // verus!
