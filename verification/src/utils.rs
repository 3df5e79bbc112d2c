//! Grid geometry: cells, directions and the rectangular playing area.

use vstd::prelude::*;
use vstd::std_specs::ops::AddSpecImpl;

verus! {

/// A cell of the grid, or a displacement between two cells.
#[derive(Debug, Hash, Eq, PartialEq, Clone, Copy, Structural)]
pub struct Vec2D {
    pub x: i32,
    pub y: i32,
}

impl Vec2D {
    pub fn new(x: i32, y: i32) -> (v: Vec2D)
        ensures
            v == (Vec2D { x, y }),
    {
        Vec2D { x, y }
    }

    /// The origin.
    pub fn default() -> (v: Vec2D)
        ensures
            v == (Vec2D { x: 0, y: 0 }),
    {
        Vec2D::new(0, 0)
    }

    /// Whether the cell one step from this one in direction `d` has
    /// coordinates that an `i32` can hold.
    pub open spec fn step_fits(self, d: Direction) -> bool {
        &&& i32::MIN <= self.x + d.dx() <= i32::MAX
        &&& i32::MIN <= self.y + d.dy() <= i32::MAX
    }

    /// The cell one step from this one in direction `d`.
    pub open spec fn stepped(self, d: Direction) -> Vec2D
        recommends
            self.step_fits(d),
    {
        Vec2D { x: (self.x + d.dx()) as i32, y: (self.y + d.dy()) as i32 }
    }
}

/// Component-wise sum. Defined where both sums fit in an `i32`.
impl core::ops::Add<Vec2D> for Vec2D {
    type Output = Vec2D;

    fn add(self, rhs: Vec2D) -> (sum: Vec2D) {
        Vec2D { x: self.x + rhs.x, y: self.y + rhs.y }
    }
}

impl AddSpecImpl<Vec2D> for Vec2D {
    open spec fn obeys_add_spec() -> bool {
        true
    }

    open spec fn add_req(self, rhs: Vec2D) -> bool {
        &&& i32::MIN <= self.x + rhs.x <= i32::MAX
        &&& i32::MIN <= self.y + rhs.y <= i32::MAX
    }

    open spec fn add_spec(self, rhs: Vec2D) -> Vec2D {
        Vec2D { x: (self.x + rhs.x) as i32, y: (self.y + rhs.y) as i32 }
    }
}

/// Component-wise sum through a reference to the left operand.
impl core::ops::Add<Vec2D> for &Vec2D {
    type Output = Vec2D;

    fn add(self, rhs: Vec2D) -> (sum: Vec2D) {
        Vec2D { x: self.x + rhs.x, y: self.y + rhs.y }
    }
}

impl AddSpecImpl<Vec2D> for &Vec2D {
    open spec fn obeys_add_spec() -> bool {
        true
    }

    open spec fn add_req(self, rhs: Vec2D) -> bool {
        &&& i32::MIN <= self.x + rhs.x <= i32::MAX
        &&& i32::MIN <= self.y + rhs.y <= i32::MAX
    }

    open spec fn add_spec(self, rhs: Vec2D) -> Vec2D {
        Vec2D { x: (self.x + rhs.x) as i32, y: (self.y + rhs.y) as i32 }
    }
}

/// One of the four ways the snake can face.
#[derive(Debug, PartialEq, Eq, Clone, Copy, Structural)]
pub enum Direction {
    Up,
    Down,
    Left,
    Right,
}

impl Direction {
    /// The direction that points the other way.
    pub open spec fn spec_opposite(self) -> Direction {
        match self {
            Direction::Up => Direction::Down,
            Direction::Down => Direction::Up,
            Direction::Left => Direction::Right,
            Direction::Right => Direction::Left,
        }
    }

    /// Horizontal component of the unit step: `Right` is +1, `Left` is -1.
    pub open spec fn dx(self) -> int {
        match self {
            Direction::Right => 1,
            Direction::Left => -1,
            _ => 0,
        }
    }

    /// Vertical component of the unit step: `Down` is +1, `Up` is -1.
    pub open spec fn dy(self) -> int {
        match self {
            Direction::Down => 1,
            Direction::Up => -1,
            _ => 0,
        }
    }

    /// The direction a quarter turn clockwise from this one, with `Up`
    /// pointing to the top of the screen.
    pub open spec fn clockwise(self) -> Direction {
        match self {
            Direction::Up => Direction::Right,
            Direction::Right => Direction::Down,
            Direction::Down => Direction::Left,
            Direction::Left => Direction::Up,
        }
    }

    #[verifier::when_used_as_spec(spec_opposite)]
    pub fn opposite(self) -> (d: Direction)
        ensures
            d == self.spec_opposite(),
    {
        match self {
            Direction::Up => Direction::Down,
            Direction::Down => Direction::Up,
            Direction::Left => Direction::Right,
            Direction::Right => Direction::Left,
        }
    }

    /// The displacement of one step in this direction.
    pub fn unit(self) -> (v: Vec2D)
        ensures
            v.x == self.dx(),
            v.y == self.dy(),
    {
        match self {
            Direction::Up => Vec2D::new(0, -1),
            Direction::Down => Vec2D::new(0, 1),
            Direction::Right => Vec2D::new(1, 0),
            Direction::Left => Vec2D::new(-1, 0),
        }
    }
}

/// An axis-aligned rectangle of cells, both corners included.
#[derive(Debug, PartialEq, Eq, Clone, Copy, Structural)]
pub struct Rectangle {
    pub min: Vec2D,
    pub max: Vec2D,
}

impl Rectangle {
    /// The corners are ordered on both axes, so the rectangle holds at
    /// least one cell.
    pub open spec fn wf(&self) -> bool {
        &&& self.min.x <= self.max.x
        &&& self.min.y <= self.max.y
    }

    /// Whether the point `(x, y)` of the unbounded plane lies in the
    /// rectangle.
    pub open spec fn covers(&self, x: int, y: int) -> bool {
        &&& self.min.x <= x <= self.max.x
        &&& self.min.y <= y <= self.max.y
    }

    pub open spec fn spec_contains(&self, point: &Vec2D) -> bool {
        self.covers(point.x as int, point.y as int)
    }

    /// Number of columns.
    pub open spec fn columns(&self) -> int {
        self.max.x - self.min.x + 1
    }

    /// Number of rows.
    pub open spec fn rows(&self) -> int {
        self.max.y - self.min.y + 1
    }

    pub fn new(x_min: i32, y_min: i32, x_max: i32, y_max: i32) -> (r: Rectangle)
        ensures
            r.min == (Vec2D { x: x_min, y: y_min }),
            r.max == (Vec2D { x: x_max, y: y_max }),
            r.wf() <==> x_min <= x_max && y_min <= y_max,
    {
        Rectangle { min: Vec2D::new(x_min, y_min), max: Vec2D::new(x_max, y_max) }
    }

    #[verifier::when_used_as_spec(spec_contains)]
    pub fn contains(&self, point: &Vec2D) -> (inside: bool)
        ensures
            inside == self.spec_contains(point),
    {
        point.x >= self.min.x && point.x <= self.max.x && point.y >= self.min.y && point.y
            <= self.max.y
    }

    /// Number of columns, for a rectangle whose column count fits in a
    /// `u32`.
    pub fn width(&self) -> (w: u32)
        requires
            self.wf(),
            self.columns() <= u32::MAX,
        ensures
            w == self.columns(),
    {
        let span: i64 = self.max.x as i64 - self.min.x as i64;
        span as u32 + 1
    }

    /// Number of rows, for a rectangle whose row count fits in a `u32`.
    pub fn height(&self) -> (h: u32)
        requires
            self.wf(),
            self.rows() <= u32::MAX,
        ensures
            h == self.rows(),
    {
        let span: i64 = self.max.y as i64 - self.min.y as i64;
        span as u32 + 1
    }
}

} // verus!
