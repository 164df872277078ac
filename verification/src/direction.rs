//! The ant's heading: a closed four-variant enumeration with two symmetric
//! quarter-turn transitions.

use vstd::prelude::*;

verus! {

/// One of the four cardinal headings. The clockwise rotation order is
/// Up → Right → Down → Left → Up.
#[derive(Clone, Copy, Debug, PartialEq, Eq, Structural)]
pub enum Direction {
    Left,
    Right,
    Up,
    Down,
}

impl Direction {
    /// The clockwise neighbor of a heading: one quarter turn to the right.
    pub open spec fn clockwise(self) -> Direction {
        match self {
            Direction::Left => Direction::Up,
            Direction::Up => Direction::Right,
            Direction::Right => Direction::Down,
            Direction::Down => Direction::Left,
        }
    }

    /// The counter-clockwise neighbor of a heading: one quarter turn to the
    /// left.
    pub open spec fn counter_clockwise(self) -> Direction {
        match self {
            Direction::Left => Direction::Down,
            Direction::Down => Direction::Right,
            Direction::Right => Direction::Up,
            Direction::Up => Direction::Left,
        }
    }

    /// The canonical angle of a heading in degrees, measured clockwise with
    /// Up at zero. Consumed only by a presentation layer; it has no bearing
    /// on the automaton itself.
    pub open spec fn canonical_degrees(self) -> int {
        match self {
            Direction::Up => 0,
            Direction::Right => 90,
            Direction::Down => 180,
            Direction::Left => 270,
        }
    }

    /// Rotate one quarter turn counter-clockwise: Left → Down → Right → Up →
    /// Left.
    pub fn turn_left(&mut self)
        ensures
            *final(self) == old(self).counter_clockwise(),
    {
        *self = match *self {
            Direction::Left => Direction::Down,
            Direction::Down => Direction::Right,
            Direction::Right => Direction::Up,
            Direction::Up => Direction::Left,
        }
    }

    /// Rotate one quarter turn clockwise: Left → Up → Right → Down → Left.
    pub fn turn_right(&mut self)
        ensures
            *final(self) == old(self).clockwise(),
    {
        *self = match *self {
            Direction::Left => Direction::Up,
            Direction::Up => Direction::Right,
            Direction::Right => Direction::Down,
            Direction::Down => Direction::Left,
        }
    }

    /// The canonical angle of this heading in whole degrees.
    pub fn in_degrees(&self) -> (deg: u32)
        ensures
            deg as int == self.canonical_degrees(),
    {
        match *self {
            Direction::Up => 0,
            Direction::Right => 90,
            Direction::Down => 180,
            Direction::Left => 270,
        }
    }
}

/// Cycle closure: four quarter turns in either direction return any heading
/// to itself.
pub proof fn lemma_quarter_turn_cycle(d: Direction)
    ensures
        d.clockwise().clockwise().clockwise().clockwise() == d,
        d.counter_clockwise().counter_clockwise().counter_clockwise().counter_clockwise() == d,
{
}

/// The two quarter turns are mutual inverses: a right turn undoes a left
/// turn and a left turn undoes a right turn.
pub proof fn lemma_turns_inverse(d: Direction)
    ensures
        d.clockwise().counter_clockwise() == d,
        d.counter_clockwise().clockwise() == d,
{
}

} // verus!
