//! From cells to pixels: where on the screen each thing is drawn, and
//! with which sprite.

use crate::constants::CELL_SIZE;
use crate::model::drawable;
use crate::segment::{Rotation, SnakeBodyPart, SpriteType};
use crate::utils::{Rectangle, Vec2D};
use vstd::prelude::*;

verus! {

/// The pixels of the cell `cell` have coordinates that an `i32` can hold.
pub open spec fn on_screen(cell: Vec2D) -> bool {
    &&& i32::MIN <= cell.x * CELL_SIZE
    &&& cell.x * CELL_SIZE + CELL_SIZE / 2 <= i32::MAX
    &&& i32::MIN <= cell.y * CELL_SIZE
    &&& cell.y * CELL_SIZE + CELL_SIZE / 2 <= i32::MAX
}

/// The top left pixel of a cell. The food is drawn from there.
pub fn cell_origin(cell: &Vec2D) -> (pixel: Vec2D)
    requires
        on_screen(*cell),
    ensures
        pixel.x == cell.x * CELL_SIZE,
        pixel.y == cell.y * CELL_SIZE,
{
    Vec2D::new(cell.x * CELL_SIZE as i32, cell.y * CELL_SIZE as i32)
}

/// The pixel in the middle of a cell. A segment's sprite is centred on
/// it.
pub fn cell_center(cell: &Vec2D) -> (pixel: Vec2D)
    requires
        on_screen(*cell),
    ensures
        pixel.x == cell.x * CELL_SIZE + CELL_SIZE / 2,
        pixel.y == cell.y * CELL_SIZE + CELL_SIZE / 2,
{
    Vec2D::new(
        cell.x * CELL_SIZE as i32 + (CELL_SIZE / 2) as i32,
        cell.y * CELL_SIZE as i32 + (CELL_SIZE / 2) as i32,
    )
}

/// Width and height in pixels of a window that shows all of `area`.
pub fn window_size(area: &Rectangle) -> (size: (u32, u32))
    requires
        area.wf(),
        area.columns() * CELL_SIZE <= u32::MAX,
        area.rows() * CELL_SIZE <= u32::MAX,
    ensures
        size.0 == area.columns() * CELL_SIZE,
        size.1 == area.rows() * CELL_SIZE,
{
    (area.width() * CELL_SIZE, area.height() * CELL_SIZE)
}

/// The top left pixel of a text of size `text` that stands in the middle
/// of a window of size `window`, both given as width and height.
pub fn text_position(window: (u32, u32), text: (u32, u32)) -> (pixel: Vec2D)
    requires
        text.0 <= window.0,
        text.1 <= window.1,
    ensures
        pixel.x == (window.0 - text.0) / 2,
        pixel.y == (window.1 - text.1) / 2,
{
    Vec2D::new(((window.0 - text.0) / 2) as i32, ((window.1 - text.1) / 2) as i32)
}

/// What is drawn for one segment.
#[derive(Debug, PartialEq, Eq, Clone, Copy, Structural)]
pub struct Sprite {
    pub shape: SpriteType,
    pub rotation: Rotation,
    /// The segment holds food: its image is the big one.
    pub big: bool,
    /// The pixel that the image is centred on.
    pub center: Vec2D,
}

/// The sprite that draws `part`.
pub open spec fn sprite_of(part: SnakeBodyPart) -> Sprite
    recommends
        part.sprite() is Some,
        on_screen(part.position),
{
    let (shape, rotation) = part.sprite().unwrap();
    Sprite {
        shape,
        rotation,
        big: part.is_big,
        center: Vec2D {
            x: (part.position.x * CELL_SIZE + CELL_SIZE / 2) as i32,
            y: (part.position.y * CELL_SIZE + CELL_SIZE / 2) as i32,
        },
    }
}

/// The sprites that draw `body`, one for each segment, head first.
pub fn sprites(body: &Vec<SnakeBodyPart>) -> (drawn: Vec<Sprite>)
    requires
        drawable(body@),
        forall|i: int| 0 <= i < body@.len() ==> on_screen(#[trigger] body@[i].position),
    ensures
        drawn@ == body@.map_values(|part: SnakeBodyPart| sprite_of(part)),
{
    let mut drawn: Vec<Sprite> = Vec::new();
    let mut i: usize = 0;
    while i < body.len()
        invariant
            i <= body@.len(),
            drawable(body@),
            forall|j: int| 0 <= j < body@.len() ==> on_screen(#[trigger] body@[j].position),
            drawn@ == body@.take(i as int).map_values(|part: SnakeBodyPart| sprite_of(part)),
        decreases body@.len() - i,
    {
        let body_part = &body[i];
        assert(body@[i as int].sprite() is Some);
        match body_part.get_sprite_and_rotation() {
            Ok((shape, rotation)) => {
                let center = cell_center(&body_part.position);
                drawn.push(Sprite { shape, rotation, big: body_part.is_big, center });
            },
            Err(_) => {},
        }
        assert(drawn@ =~= body@.take(i + 1).map_values(|part: SnakeBodyPart| sprite_of(part)));
        i += 1;
    }
    assert(body@.take(i as int) =~= body@);
    drawn
}

} // verus!
