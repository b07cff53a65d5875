use vstd::prelude::*;
use rand::Rng;
use crate::grid::{Cell, WinSize, in_grid};
use crate::chain::EntityVector;

verus! {

/// How many random cells food placement tries before it scans the grid.
pub const MAX_FOOD_TRIES: u32 = 64;

/// The single food item.
#[derive(PartialEq, Eq, Structural, Clone, Copy, Debug)]
pub struct Food {
    pub pos: Cell,
}

/// A cell inside the grid that no segment of `s` occupies.
pub open spec fn is_free(c: Cell, s: Seq<Cell>, win: WinSize) -> bool {
    in_grid(c, win) && !s.contains(c)
}

/// Whether the grid has a free cell left.
pub open spec fn has_free(s: Seq<Cell>, win: WinSize) -> bool {
    exists|c: Cell| #[trigger] is_free(c, s, win)
}

/// Relies on rand's `thread_rng().gen_range(0..n)`: a value below `n`,
/// drawn at random; it panics on an empty range, which `requires` rules out.
#[verifier::external_body]
fn random_below(n: u32) -> (r: u32)
    requires
        n > 0,
    ensures
        r < n,
{
    rand::thread_rng().gen_range(0..n)
}

/// Whether some segment of the chain lies on `c`.
pub fn is_occupied(entity_vector: &EntityVector, c: Cell) -> (r: bool)
    ensures
        r == entity_vector.vector@.contains(c),
{
    let n = entity_vector.vector.len();
    let mut i: usize = 0;
    while i < n
        invariant
            n == entity_vector.vector@.len(),
            i <= n,
            forall|k: int| 0 <= k < i ==> entity_vector.vector@[k] != c,
        decreases n - i,
    {
        if entity_vector.vector[i] == c {
            return true;
        }
        i = i + 1;
    }
    false
}

/// Scans the grid column by column for a cell that no segment occupies.
pub fn find_free_cell(win_size: &WinSize, entity_vector: &EntityVector) -> (r: Option<Cell>)
    ensures
        r is Some <==> has_free(entity_vector.vector@, *win_size),
        r is Some ==> is_free(r->0, entity_vector.vector@, *win_size),
{
    let ghost s = entity_vector.vector@;
    let mut x: u32 = 0;
    while x < win_size.w
        invariant
            s == entity_vector.vector@,
            x <= win_size.w,
            forall|c: Cell| in_grid(c, *win_size) && c.x < x ==> #[trigger] s.contains(c),
        decreases win_size.w - x,
    {
        let mut y: u32 = 0;
        while y < win_size.h
            invariant
                s == entity_vector.vector@,
                x < win_size.w,
                y <= win_size.h,
                forall|c: Cell| in_grid(c, *win_size) && c.x < x ==> #[trigger] s.contains(c),
                forall|c: Cell| c.x == x && 0 <= c.y < y ==> #[trigger] s.contains(c),
            decreases win_size.h - y,
        {
            let c = Cell { x: x as i64, y: y as i64 };
            if !is_occupied(entity_vector, c) {
                assert(is_free(c, s, *win_size));
                return Some(c);
            }
            y = y + 1;
        }
        x = x + 1;
    }
    assert forall|c: Cell| !is_free(c, s, *win_size) by {
        if in_grid(c, *win_size) {
            assert(s.contains(c));
        }
    }
    None
}

/// Moves the food to a free cell: first by random tries, then by a scan of
/// the grid. Where no free cell is left the food stays and the result is
/// false.
pub fn place_food(win_size: &WinSize, entity_vector: &EntityVector, food: &mut Food) -> (r: bool)
    ensures
        r == has_free(entity_vector.vector@, *win_size),
        r ==> is_free(final(food).pos, entity_vector.vector@, *win_size),
        !r ==> *final(food) == *old(food),
        forall|c: Cell|
            #[trigger] is_free(c, entity_vector.vector@, *win_size) && (forall|c2: Cell|
                is_free(c2, entity_vector.vector@, *win_size) ==> c2 == c) ==> final(food).pos == c,
{
    if win_size.w == 0 || win_size.h == 0 {
        assert forall|c: Cell| !is_free(c, entity_vector.vector@, *win_size) by {}
        return false;
    }
    let mut tries: u32 = 0;
    while tries < MAX_FOOD_TRIES
        invariant
            win_size.w > 0,
            win_size.h > 0,
            *food == *old(food),
        decreases MAX_FOOD_TRIES - tries,
    {
        let x = random_below(win_size.w);
        let y = random_below(win_size.h);
        let c = Cell { x: x as i64, y: y as i64 };
        if !is_occupied(entity_vector, c) {
            assert(is_free(c, entity_vector.vector@, *win_size));
            food.pos = c;
            return true;
        }
        tries = tries + 1;
    }
    match find_free_cell(win_size, entity_vector) {
        Some(c) => {
            food.pos = c;
            true
        },
        None => false,
    }
}

} // verus!
