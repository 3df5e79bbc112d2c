//! Where the food goes: a cell of the playing area drawn at random that
//! the snake does not occupy.

use crate::cells::CellSet;
use crate::utils::{Rectangle, Vec2D};
use rand::Rng;
use vstd::prelude::*;

verus! {

/// The random number generator of the current thread, as `rand` hands it
/// out. Nothing is known of its state.
#[verifier::external_type_specification]
#[verifier::external_body]
pub struct ExThreadRng(rand::rngs::ThreadRng);

/// `rand::thread_rng` hands out the generator of the current thread,
/// seeded by the system on first use. Nothing is claimed of it.
pub assume_specification[ rand::thread_rng ]() -> (rng: rand::rngs::ThreadRng)
;

/// `rand::Rng::gen_range` draws an integer from `low` up to but not
/// including `high`. It panics unless `low < high`. Only the bounds are
/// claimed, nothing of how the draws are spread.
#[verifier::external_body]
fn gen_range(rng: &mut rand::rngs::ThreadRng, low: i64, high: i64) -> (drawn: i64)
    requires
        low < high,
    ensures
        low <= drawn < high,
{
    rng.gen_range(low, high)
}

/// How many cells are drawn at random before the first free cell in
/// reading order is taken instead.
pub const MAX_DRAWS: u32 = 1024;

/// There is no free cell to put food on.
#[derive(Debug, PartialEq, Eq, Clone, Copy, Structural)]
pub struct BoardFull;

/// `cell` lies in `area` and is not occupied.
pub open spec fn is_free(area: Rectangle, occupied: Set<Vec2D>, cell: Vec2D) -> bool {
    area.spec_contains(&cell) && !occupied.contains(cell)
}

/// Every cell of `area` is occupied.
pub open spec fn board_full(area: Rectangle, occupied: Set<Vec2D>) -> bool {
    forall|cell: Vec2D| area.spec_contains(&cell) ==> #[trigger] occupied.contains(cell)
}

/// `a` is read before `b` when the area is read row by row from the top,
/// each row from the left.
pub open spec fn reads_before(a: Vec2D, b: Vec2D) -> bool {
    a.y < b.y || (a.y == b.y && a.x < b.x)
}

/// The first free cell of `area` in reading order, or nothing where every
/// cell is occupied.
pub fn first_free_cell(area: &Rectangle, occupied: &CellSet) -> (found: Option<Vec2D>)
    ensures
        match found {
            Some(cell) => {
                &&& is_free(*area, occupied@, cell)
                &&& forall|other: Vec2D|
                    reads_before(other, cell) && area.spec_contains(&other)
                        ==> #[trigger] occupied@.contains(other)
            },
            None => board_full(*area, occupied@),
        },
{
    let mut y: i64 = area.min.y as i64;
    while y <= area.max.y as i64
        invariant
            area.min.y <= y,
            forall|other: Vec2D|
                other.y < y && area.spec_contains(&other) ==> #[trigger] occupied@.contains(other),
        decreases area.max.y - y + 1,
    {
        let mut x: i64 = area.min.x as i64;
        while x <= area.max.x as i64
            invariant
                area.min.y <= y <= area.max.y,
                area.min.x <= x,
                forall|other: Vec2D|
                    (other.y < y || (other.y == y && other.x < x)) && area.spec_contains(&other)
                        ==> #[trigger] occupied@.contains(other),
            decreases area.max.x - x + 1,
        {
            let cell = Vec2D::new(x as i32, y as i32);
            if !occupied.contains(&cell) {
                return Some(cell);
            }
            x += 1;
        }
        y += 1;
    }
    None
}

/// What becomes of one draw: the cell drawn is taken for the food unless
/// it is occupied.
pub fn take_if_free(occupied: &CellSet, drawn: Vec2D) -> (taken: Option<Vec2D>)
    ensures
        taken == if occupied@.contains(drawn) {
            None
        } else {
            Some(drawn)
        },
{
    if occupied.contains(&drawn) {
        None
    } else {
        Some(drawn)
    }
}

/// Picks a free cell of `area` for the food.
///
/// Cells of the area are drawn at random until one is free. After
/// `MAX_DRAWS` occupied cells in a row the first free cell in reading
/// order is taken, so a free cell is found wherever there is one. Fails
/// exactly when every cell of the area is occupied.
pub fn spawn_food(area: &Rectangle, occupied: &CellSet) -> (spawned: Result<Vec2D, BoardFull>)
    ensures
        match spawned {
            Ok(cell) => is_free(*area, occupied@, cell),
            Err(_) => board_full(*area, occupied@),
        },
        spawned is Err <==> board_full(*area, occupied@),
{
    let fallback = match first_free_cell(area, occupied) {
        Some(cell) => cell,
        None => {
            return Err(BoardFull);
        },
    };
    let mut rng = rand::thread_rng();
    let mut draws: u32 = 0;
    while draws < MAX_DRAWS
        invariant
            area.wf(),
        decreases MAX_DRAWS - draws,
    {
        let x = gen_range(&mut rng, area.min.x as i64, area.max.x as i64 + 1);
        let y = gen_range(&mut rng, area.min.y as i64, area.max.y as i64 + 1);
        if let Some(food_position) = take_if_free(occupied, Vec2D::new(x as i32, y as i32)) {
            return Ok(food_position);
        }
        draws += 1;
    }
    Ok(fallback)
}

} // verus!
