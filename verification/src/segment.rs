//! One segment of the snake's body and the sprite that draws it.

use crate::utils::{Direction, Vec2D};
use vstd::prelude::*;

verus! {

/// The shape of the image that draws a segment. `Left` and `Right` are
/// the two corner pieces.
#[derive(Debug, PartialEq, Eq, Clone, Copy, Structural)]
pub enum SpriteType {
    Head,
    Tail,
    Straight,
    Left,
    Right,
}

/// How far a sprite is turned clockwise from pointing up.
#[derive(Debug, PartialEq, Eq, Clone, Copy, Structural)]
pub enum Rotation {
    /// 0 degrees.
    Zero,
    /// 90 degrees.
    Quarter,
    /// 180 degrees.
    Half,
    /// -90 degrees.
    MinusQuarter,
}

impl Rotation {
    /// The rotation of a sprite that points in direction `d`.
    pub open spec fn facing(d: Direction) -> Rotation {
        match d {
            Direction::Up => Rotation::Zero,
            Direction::Right => Rotation::Quarter,
            Direction::Down => Rotation::Half,
            Direction::Left => Rotation::MinusQuarter,
        }
    }

    pub open spec fn spec_degrees(self) -> i32 {
        match self {
            Rotation::Zero => 0,
            Rotation::Quarter => 90,
            Rotation::Half => 180,
            Rotation::MinusQuarter => -90i32,
        }
    }

    /// The angle in degrees, clockwise.
    #[verifier::when_used_as_spec(spec_degrees)]
    pub fn degrees(self) -> (angle: i32)
        ensures
            angle == self.spec_degrees(),
    {
        match self {
            Rotation::Zero => 0,
            Rotation::Quarter => 90,
            Rotation::Half => 180,
            Rotation::MinusQuarter => -90,
        }
    }
}

/// A segment whose flags and orientation match no sprite.
#[derive(Debug, PartialEq, Eq, Clone, Copy, Structural)]
pub struct InvalidOrientation;

/// One segment of the snake. `orientation` holds the direction towards
/// the segment in front and the direction this segment last moved in; the
/// head has only the second, the tail only the first.
#[derive(Debug, PartialEq, Eq, Clone, Copy)]
pub struct SnakeBodyPart {
    pub is_head: bool,
    pub is_tail: bool,
    /// Set on a segment that has food in it: when it reaches the tail the
    /// snake grows by one.
    pub is_big: bool,
    pub position: Vec2D,
    pub orientation: (Option<Direction>, Option<Direction>),
}

impl SnakeBodyPart {
    /// The sprite and rotation that draw this segment, where there is one.
    ///
    /// A tail or a head points the way of its single direction. A body
    /// segment is straight where both directions agree; where the second
    /// is a quarter turn clockwise from the first it is the `Left` corner,
    /// a quarter turn the other way the `Right` corner, turned to the
    /// first direction. Two opposite directions, or a direction missing
    /// or too many for the segment's role, draw nothing.
    pub open spec fn sprite(&self) -> Option<(SpriteType, Rotation)> {
        if self.is_tail {
            match self.orientation {
                (Some(d), None) => Some((SpriteType::Tail, Rotation::facing(d))),
                _ => None,
            }
        } else if self.is_head {
            match self.orientation {
                (None, Some(d)) => Some((SpriteType::Head, Rotation::facing(d))),
                _ => None,
            }
        } else {
            match self.orientation {
                (Some(a), Some(b)) => if a == b {
                    Some((SpriteType::Straight, Rotation::facing(a)))
                } else if b == a.clockwise() {
                    Some((SpriteType::Left, Rotation::facing(a)))
                } else if a == b.clockwise() {
                    Some((SpriteType::Right, Rotation::facing(a)))
                } else {
                    None
                },
                _ => None,
            }
        }
    }

    /// A body segment at `(x, y)`, not big, with no orientation yet.
    pub fn new(x: i32, y: i32) -> (part: SnakeBodyPart)
        ensures
            part == (SnakeBodyPart {
                is_head: false,
                is_tail: false,
                is_big: false,
                position: Vec2D { x, y },
                orientation: (None, None),
            }),
    {
        SnakeBodyPart {
            is_head: false,
            is_tail: false,
            is_big: false,
            position: Vec2D::new(x, y),
            orientation: (None, None),
        }
    }

    pub fn new_head(x: i32, y: i32) -> (part: SnakeBodyPart)
        ensures
            part == (SnakeBodyPart {
                is_head: true,
                is_tail: false,
                is_big: false,
                position: Vec2D { x, y },
                orientation: (None, None),
            }),
    {
        let mut body_part = SnakeBodyPart::new(x, y);
        body_part.is_head = true;
        body_part
    }

    pub fn new_tail(x: i32, y: i32) -> (part: SnakeBodyPart)
        ensures
            part == (SnakeBodyPart {
                is_head: false,
                is_tail: true,
                is_big: false,
                position: Vec2D { x, y },
                orientation: (None, None),
            }),
    {
        let mut body_part = SnakeBodyPart::new(x, y);
        body_part.is_tail = true;
        body_part
    }

    pub fn new_with_orientation(
        x: i32,
        y: i32,
        in_orientation: Option<Direction>,
        out_orientation: Option<Direction>,
    ) -> (part: SnakeBodyPart)
        ensures
            part == (SnakeBodyPart {
                is_head: false,
                is_tail: false,
                is_big: false,
                position: Vec2D { x, y },
                orientation: (in_orientation, out_orientation),
            }),
    {
        let mut body_part = SnakeBodyPart::new(x, y);
        body_part.orientation = (in_orientation, out_orientation);
        body_part
    }

    pub fn new_head_with_orientation(x: i32, y: i32, orientation: Option<Direction>) -> (part:
        SnakeBodyPart)
        ensures
            part == (SnakeBodyPart {
                is_head: true,
                is_tail: false,
                is_big: false,
                position: Vec2D { x, y },
                orientation: (None, orientation),
            }),
    {
        let mut body_part = SnakeBodyPart::new_with_orientation(x, y, None, orientation);
        body_part.is_head = true;
        body_part
    }

    pub fn new_tail_with_orientation(x: i32, y: i32, orientation: Option<Direction>) -> (part:
        SnakeBodyPart)
        ensures
            part == (SnakeBodyPart {
                is_head: false,
                is_tail: true,
                is_big: false,
                position: Vec2D { x, y },
                orientation: (orientation, None),
            }),
    {
        let mut body_part = SnakeBodyPart::new_with_orientation(x, y, orientation, None);
        body_part.is_tail = true;
        body_part
    }

    /// Looks up the sprite and rotation that draw this segment. Fails for
    /// exactly the segments that `sprite` gives nothing for.
    pub fn get_sprite_and_rotation(&self) -> (found: Result<(SpriteType, Rotation), InvalidOrientation>)
        ensures
            match found {
                Ok(drawn) => self.sprite() == Some(drawn),
                Err(_) => self.sprite() is None,
            },
    {
        if self.is_tail {
            match self.orientation {
                (Some(Direction::Up), None) => Ok((SpriteType::Tail, Rotation::Zero)),
                (Some(Direction::Right), None) => Ok((SpriteType::Tail, Rotation::Quarter)),
                (Some(Direction::Down), None) => Ok((SpriteType::Tail, Rotation::Half)),
                (Some(Direction::Left), None) => Ok((SpriteType::Tail, Rotation::MinusQuarter)),
                _ => Err(InvalidOrientation),
            }
        } else if self.is_head {
            match self.orientation {
                (None, Some(Direction::Up)) => Ok((SpriteType::Head, Rotation::Zero)),
                (None, Some(Direction::Right)) => Ok((SpriteType::Head, Rotation::Quarter)),
                (None, Some(Direction::Down)) => Ok((SpriteType::Head, Rotation::Half)),
                (None, Some(Direction::Left)) => Ok((SpriteType::Head, Rotation::MinusQuarter)),
                _ => Err(InvalidOrientation),
            }
        } else {
            match self.orientation {
                (Some(Direction::Up), Some(Direction::Up)) => Ok(
                    (SpriteType::Straight, Rotation::Zero),
                ),
                (Some(Direction::Right), Some(Direction::Right)) => Ok(
                    (SpriteType::Straight, Rotation::Quarter),
                ),
                (Some(Direction::Down), Some(Direction::Down)) => Ok(
                    (SpriteType::Straight, Rotation::Half),
                ),
                (Some(Direction::Left), Some(Direction::Left)) => Ok(
                    (SpriteType::Straight, Rotation::MinusQuarter),
                ),
                (Some(Direction::Up), Some(Direction::Left)) => Ok(
                    (SpriteType::Right, Rotation::Zero),
                ),
                (Some(Direction::Up), Some(Direction::Right)) => Ok(
                    (SpriteType::Left, Rotation::Zero),
                ),
                (Some(Direction::Right), Some(Direction::Down)) => Ok(
                    (SpriteType::Left, Rotation::Quarter),
                ),
                (Some(Direction::Right), Some(Direction::Up)) => Ok(
                    (SpriteType::Right, Rotation::Quarter),
                ),
                (Some(Direction::Down), Some(Direction::Left)) => Ok(
                    (SpriteType::Left, Rotation::Half),
                ),
                (Some(Direction::Down), Some(Direction::Right)) => Ok(
                    (SpriteType::Right, Rotation::Half),
                ),
                (Some(Direction::Left), Some(Direction::Up)) => Ok(
                    (SpriteType::Left, Rotation::MinusQuarter),
                ),
                (Some(Direction::Left), Some(Direction::Down)) => Ok(
                    (SpriteType::Right, Rotation::MinusQuarter),
                ),
                _ => Err(InvalidOrientation),
            }
        }
    }
}

/// The sprite table is total on the segments that a snake is made of and
/// on no others: a tail has a sprite exactly with a first direction and
/// no second, a head exactly with a second and no first, a body segment
/// exactly with two directions that are not opposite. That is four
/// tails, four heads, four straight pieces and eight corners.
pub proof fn lemma_sprite_defined(part: SnakeBodyPart)
    ensures
        part.sprite() is Some <==> if part.is_tail {
            part.orientation.0 is Some && part.orientation.1 is None
        } else if part.is_head {
            part.orientation.0 is None && part.orientation.1 is Some
        } else {
            &&& part.orientation.0 matches Some(a)
            &&& part.orientation.1 matches Some(b)
            &&& a != b.opposite()
        },
        part.sprite() matches Some(drawn) ==> {
            &&& drawn.0 is Tail <==> part.is_tail
            &&& drawn.0 is Head <==> !part.is_tail && part.is_head
            &&& drawn.0 is Straight <==> !part.is_tail && !part.is_head && part.orientation.0
                == part.orientation.1
        },
{
}

} // verus!
