//! The four headings, and the guard against turning straight back.

use vstd::prelude::*;

verus! {

/// A heading on the grid.
#[derive(Clone, Copy, Debug, PartialEq, Eq, Structural)]
pub enum Direction {
    Up,
    Down,
    Left,
    Right,
}

/// The heading that an arrow key's code asks for, if it is one.
pub open spec fn key_heading(key: i32) -> Option<Direction> {
    if key == 37 {
        Some(Direction::Left)
    } else if key == 38 {
        Some(Direction::Up)
    } else if key == 39 {
        Some(Direction::Right)
    } else if key == 40 {
        Some(Direction::Down)
    } else {
        None
    }
}

/// The heading that a snake takes when it heads `current` and `key` comes in:
/// the key's heading, unless the key is no arrow key or asks for the exact
/// reverse of `current`.
pub open spec fn steered(current: Direction, key: i32) -> Direction {
    match key_heading(key) {
        Some(wanted) => if current.opposes(wanted) {
            current
        } else {
            wanted
        },
        None => current,
    }
}

impl Direction {
    /// The two headings lie on one axis and point against each other.
    pub open spec fn opposes(self, other: Direction) -> bool {
        match self {
            Direction::Up => other == Direction::Down,
            Direction::Down => other == Direction::Up,
            Direction::Left => other == Direction::Right,
            Direction::Right => other == Direction::Left,
        }
    }

    /// Tells whether `other` is the exact reverse of this heading.
    pub fn opposite(&self, other: &Direction) -> (r: bool)
        ensures
            r == self.opposes(*other),
    {
        match *self {
            Direction::Up => *other == Direction::Down,
            Direction::Down => *other == Direction::Up,
            Direction::Left => *other == Direction::Right,
            Direction::Right => *other == Direction::Left,
        }
    }

    /// Maps an arrow key's code to its heading.
    pub fn from_key(key: i32) -> (r: Option<Direction>)
        ensures
            r == key_heading(key),
    {
        if key == 37 {
            Some(Direction::Left)
        } else if key == 38 {
            Some(Direction::Up)
        } else if key == 39 {
            Some(Direction::Right)
        } else if key == 40 {
            Some(Direction::Down)
        } else {
            None
        }
    }

    /// Applies a key to this heading: the key's heading is taken unless it is
    /// the reverse of this one; another key changes nothing.
    pub fn steer(&self, key: i32) -> (r: Direction)
        ensures
            r == steered(*self, key),
            !self.opposes(r),
    {
        match Direction::from_key(key) {
            Some(wanted) => if self.opposite(&wanted) {
                *self
            } else {
                wanted
            },
            None => *self,
        }
    }
}

/// Opposition is symmetric.
pub proof fn opposite_is_symmetric(a: Direction, b: Direction)
    ensures
        a.opposes(b) == b.opposes(a),
{
}

/// No heading opposes itself.
pub proof fn opposite_is_irreflexive(a: Direction)
    ensures
        !a.opposes(a),
{
}

/// A key that asks for the reverse of the current heading is ignored: the
/// heading stays as it was.
pub proof fn reversal_is_ignored(current: Direction, key: i32)
    requires
        match key_heading(key) {
            Some(wanted) => current.opposes(wanted),
            None => false,
        },
    ensures
        steered(current, key) == current,
{
}

/// A key that is no arrow key leaves the heading as it was.
pub proof fn other_keys_keep_heading(current: Direction, key: i32)
    requires
        key_heading(key).is_none(),
    ensures
        steered(current, key) == current,
{
}

} // verus!
