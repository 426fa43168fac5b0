//! The rover's state: a position on the toroidal grid and a heading.

use vstd::prelude::*;

verus! {

/// A location on the 256 x 256 toroidal grid: x coordinate, then y coordinate.
pub type Position = (u8, u8);

/// The four cardinal headings a rover can face.
#[derive(Clone, Copy, PartialEq, Eq, Debug)]
pub enum Direction {
    North,
    East,
    West,
    South,
}

/// The heading after a quarter turn to the left (counterclockwise).
pub open spec fn left_of(d: Direction) -> Direction {
    match d {
        Direction::East => Direction::North,
        Direction::North => Direction::West,
        Direction::West => Direction::South,
        Direction::South => Direction::East,
    }
}

/// The heading after a quarter turn to the right (clockwise).
pub open spec fn right_of(d: Direction) -> Direction {
    match d {
        Direction::East => Direction::South,
        Direction::South => Direction::West,
        Direction::West => Direction::North,
        Direction::North => Direction::East,
    }
}

/// The coordinate one step up, wrapping 255 back to 0.
pub open spec fn wrap_inc(v: u8) -> u8 {
    if v == 255 {
        0
    } else {
        (v + 1) as u8
    }
}

/// The coordinate one step down, wrapping 0 back to 255.
pub open spec fn wrap_dec(v: u8) -> u8 {
    if v == 0 {
        255
    } else {
        (v - 1) as u8
    }
}

/// The rover's full state. A value is never changed in place: every update
/// builds a new `Rover`.
#[derive(Clone, Copy, PartialEq, Eq, Debug)]
pub struct Rover {
    pub position: Position,
    pub direction: Direction,
}

impl Rover {
    /// Builds a rover at `position`, facing `direction`.
    pub fn new(position: Position, direction: Direction) -> (r: Rover)
        ensures
            r.position == position,
            r.direction == direction,
    {
        Rover { position, direction }
    }

    /// A copy of this rover standing at `new_position`, heading unchanged.
    pub fn update_position(&self, new_position: Position) -> (r: Rover)
        ensures
            r.position == new_position,
            r.direction == self.direction,
    {
        Rover { position: new_position, direction: self.direction }
    }

    /// A copy of this rover with the x coordinate replaced by `new_x`.
    pub fn update_x_position(&self, new_x: u8) -> (r: Rover)
        ensures
            r.position == (new_x, self.position.1),
            r.direction == self.direction,
    {
        self.update_position((new_x, self.position.1))
    }

    /// A copy of this rover with the y coordinate replaced by `new_y`.
    pub fn update_y_position(&self, new_y: u8) -> (r: Rover)
        ensures
            r.position == (self.position.0, new_y),
            r.direction == self.direction,
    {
        self.update_position((self.position.0, new_y))
    }

    /// A copy of this rover facing `new_direction`, position unchanged.
    pub fn update_direction(&self, new_direction: Direction) -> (r: Rover)
        ensures
            r.position == self.position,
            r.direction == new_direction,
    {
        Rover { position: self.position, direction: new_direction }
    }
}

} // verus!
