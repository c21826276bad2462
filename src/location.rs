//! Grid positions on the electrode board and droplet footprints.
use vstd::prelude::*;

verus! {

/// A grid position, or a size when used as the dimensions of a rectangle.
#[derive(Clone, Copy, Debug, PartialEq, Eq, Structural)]
pub struct Location {
    pub x: i32,
    pub y: i32,
}

/// A direction of one step on the grid; `Up` decreases `y`, `Left` decreases `x`.
#[derive(Clone, Copy, Debug, PartialEq, Eq, Structural)]
pub enum Direction {
    Up,
    Down,
    Left,
    Right,
}

/// The change of `x` and of `y` made by one step in `dir`.
pub open spec fn step_of(dir: Direction) -> (int, int) {
    match dir {
        Direction::Up => (0, -1),
        Direction::Down => (0, 1),
        Direction::Left => (-1, 0),
        Direction::Right => (1, 0),
    }
}

/// A value fits in an `i32`.
pub open spec fn fits_i32(v: int) -> bool {
    i32::MIN <= v <= i32::MAX
}

impl Location {
    /// The location one step away in `dir`, or `None` where that leaves the
    /// range of the coordinates.
    pub fn move_one(&self, dir: Direction) -> (r: Option<Location>)
        ensures
            fits_i32(self.x + step_of(dir).0) && fits_i32(self.y + step_of(dir).1) <==> r is Some,
            r matches Some(l) ==> l.x == self.x + step_of(dir).0 && l.y == self.y + step_of(dir).1,
    {
        match dir {
            Direction::Up => if self.y > i32::MIN {
                Some(Location { x: self.x, y: self.y - 1 })
            } else {
                None
            },
            Direction::Down => if self.y < i32::MAX {
                Some(Location { x: self.x, y: self.y + 1 })
            } else {
                None
            },
            Direction::Left => if self.x > i32::MIN {
                Some(Location { x: self.x - 1, y: self.y })
            } else {
                None
            },
            Direction::Right => if self.x < i32::MAX {
                Some(Location { x: self.x + 1, y: self.y })
            } else {
                None
            },
        }
    }
}

/// A rectangle of electrodes: its top-left corner and its width and height.
#[derive(Clone, Copy, Debug, PartialEq, Eq, Structural)]
pub struct Rectangle {
    pub location: Location,
    pub dimensions: Location,
}

} // verus!
