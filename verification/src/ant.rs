//! The agent: a position and a heading, advanced one tick at a time against
//! a grid by the classical Langton's Ant rule.

use crate::GRID_SIZE;
use crate::direction::Direction;
use crate::grid::Grid;
use vstd::prelude::*;

verus! {

/// The ant: a grid coordinate and one of four cardinal headings. Both fields
/// are mutated in place by every step.
#[derive(Clone, Copy, Debug, PartialEq, Eq, Structural)]
pub struct Ant {
    pub x: usize,
    pub y: usize,
    pub direction: Direction,
}

/// The x coordinate after one forward move on a grid of the given side:
/// one cell left or right of `x`, clamped so it never leaves [0, side).
pub open spec fn forward_x(d: Direction, x: int, side: int) -> int {
    match d {
        Direction::Left => if x > 0 { x - 1 } else { x },
        Direction::Right => if x < side - 1 { x + 1 } else { x },
        Direction::Up => x,
        Direction::Down => x,
    }
}

/// The y coordinate after one forward move on a grid of the given side:
/// one cell up or down of `y`, clamped so it never leaves [0, side).
/// Up decreases y, Down increases it.
pub open spec fn forward_y(d: Direction, y: int, side: int) -> int {
    match d {
        Direction::Up => if y > 0 { y - 1 } else { y },
        Direction::Down => if y < side - 1 { y + 1 } else { y },
        Direction::Left => y,
        Direction::Right => y,
    }
}

/// A square cell field of positive side, as a step model: a sequence of
/// columns, each column as long as there are columns.
pub open spec fn square_cells(cells: Seq<Seq<bool>>) -> bool {
    &&& 0 < cells.len()
    &&& forall|x: int| 0 <= x < cells.len() ==> (#[trigger] cells[x]).len() == cells.len()
}

/// Whether the ant stands on a cell of the field.
pub open spec fn ant_on_cells(a: Ant, cells: Seq<Seq<bool>>) -> bool {
    a.x < cells.len() && a.y < cells.len()
}

/// The heading after the turn decision of one step: the clockwise neighbor
/// if the cell under the ant is white, the counter-clockwise neighbor if it
/// is black.
pub open spec fn turned_direction(a: Ant, cells: Seq<Seq<bool>>) -> Direction {
    if cells[a.x as int][a.y as int] {
        a.direction.clockwise()
    } else {
        a.direction.counter_clockwise()
    }
}

/// The full state transition of one step, as a function of the pre-step ant
/// and cells alone: turn by the cell's color, flip that cell, then move one
/// cell forward in the new heading with boundary clamping.
pub open spec fn step_state(a: Ant, cells: Seq<Seq<bool>>) -> (Ant, Seq<Seq<bool>>) {
    let side = cells.len() as int;
    let d = turned_direction(a, cells);
    let flipped = cells.update(
        a.x as int,
        cells[a.x as int].update(a.y as int, !cells[a.x as int][a.y as int]),
    );
    let moved = Ant {
        x: forward_x(d, a.x as int, side) as usize,
        y: forward_y(d, a.y as int, side) as usize,
        direction: d,
    };
    (moved, flipped)
}

/// The state after `n` steps from a given ant and cell field.
pub open spec fn run_steps(a: Ant, cells: Seq<Seq<bool>>, n: nat) -> (Ant, Seq<Seq<bool>>)
    decreases n,
{
    if n == 0 {
        (a, cells)
    } else {
        let prev = run_steps(a, cells, (n - 1) as nat);
        step_state(prev.0, prev.1)
    }
}

impl Ant {
    /// Whether the ant's position lies on a grid of the given side length.
    pub open spec fn in_bounds(&self, side: int) -> bool {
        (self.x as int) < side && (self.y as int) < side
    }

    /// An ant at an explicit start position and heading.
    pub fn new(x: usize, y: usize, direction: Direction) -> (a: Ant)
        ensures
            a == (Ant { x, y, direction }),
    {
        Ant { x, y, direction }
    }

    /// Move one cell forward in the current heading on a grid of side
    /// `size`, clamping at the boundary: a move that would leave [0, size)
    /// leaves the position on that axis unchanged. Never wraps, never
    /// bounces.
    pub fn move_forward(&mut self, size: usize)
        requires
            old(self).in_bounds(size as int),
        ensures
            final(self).direction == old(self).direction,
            final(self).x as int == forward_x(old(self).direction, old(self).x as int, size as int),
            final(self).y as int == forward_y(old(self).direction, old(self).y as int, size as int),
            final(self).in_bounds(size as int),
    {
        match self.direction {
            Direction::Left => {
                if self.x > 0 {
                    self.x = self.x - 1;
                }
            },
            Direction::Right => {
                if self.x < size - 1 {
                    self.x = self.x + 1;
                }
            },
            Direction::Up => {
                if self.y > 0 {
                    self.y = self.y - 1;
                }
            },
            Direction::Down => {
                if self.y < size - 1 {
                    self.y = self.y + 1;
                }
            },
        }
    }

    /// Advance the automaton by exactly one tick. Reads the cell under the
    /// ant; on white turns right, on black turns left; flips that cell; then
    /// moves one cell forward in the new heading with boundary clamping.
    ///
    /// Exactly one cell changes — the one the ant occupied before moving —
    /// and the whole post-state is a function of the pre-state alone.
    pub fn step(&mut self, grid: &mut Grid)
        requires
            old(grid).wf(),
            old(self).in_bounds(old(grid).side()),
        ensures
            final(grid).wf(),
            final(grid).side() == old(grid).side(),
            final(self).in_bounds(final(grid).side()),
            final(self).direction == turned_direction(*old(self), old(grid)@),
            final(grid).cell(old(self).x as int, old(self).y as int)
                == !old(grid).cell(old(self).x as int, old(self).y as int),
            forall|i: int, j: int|
                old(grid).in_bounds(i, j) && !(i == old(self).x as int && j == old(self).y as int)
                    ==> final(grid).cell(i, j) == old(grid).cell(i, j),
            final(self).x as int == forward_x(
                final(self).direction,
                old(self).x as int,
                old(grid).side(),
            ),
            final(self).y as int == forward_y(
                final(self).direction,
                old(self).y as int,
                old(grid).side(),
            ),
            (*final(self), final(grid)@) == step_state(*old(self), old(grid)@),
    {
        let white = grid.get(self.x, self.y);
        if white {
            self.direction.turn_right();
        } else {
            self.direction.turn_left();
        }
        grid.set(self.x, self.y, !white);
        let size = grid.size();
        self.move_forward(size);
    }
}

/// One step preserves the shape of the state: the cell field stays square
/// with the same side, and the ant stays on it.
pub proof fn lemma_step_state_preserves_shape(a: Ant, cells: Seq<Seq<bool>>)
    requires
        square_cells(cells),
        ant_on_cells(a, cells),
        cells.len() <= usize::MAX,
    ensures
        step_state(a, cells).1.len() == cells.len(),
        square_cells(step_state(a, cells).1),
        ant_on_cells(step_state(a, cells).0, step_state(a, cells).1),
{
}

/// Reachable-state invariant: starting from an ant on a square cell field,
/// after any number of steps the field is still square with the same side
/// and the ant's position still satisfies 0 <= x, y < side.
pub proof fn lemma_reachable_in_bounds(a: Ant, cells: Seq<Seq<bool>>, n: nat)
    requires
        square_cells(cells),
        ant_on_cells(a, cells),
        cells.len() <= usize::MAX,
    ensures
        run_steps(a, cells, n).1.len() == cells.len(),
        square_cells(run_steps(a, cells, n).1),
        ant_on_cells(run_steps(a, cells, n).0, run_steps(a, cells, n).1),
    decreases n,
{
    if n > 0 {
        lemma_reachable_in_bounds(a, cells, (n - 1) as nat);
        let prev = run_steps(a, cells, (n - 1) as nat);
        lemma_step_state_preserves_shape(prev.0, prev.1);
    }
}

/// Determinism: the automaton hides no randomness. The state after any
/// number of steps is a function of the initial ant and cell field alone,
/// so replaying the same steps from equal initial states yields the same
/// sequence of states.
pub proof fn lemma_run_deterministic(
    a1: Ant,
    cells1: Seq<Seq<bool>>,
    a2: Ant,
    cells2: Seq<Seq<bool>>,
    n: nat,
)
    requires
        a1 == a2,
        cells1 == cells2,
    ensures
        run_steps(a1, cells1, n) == run_steps(a2, cells2, n),
{
}

impl Default for Ant {
    /// An ant at the center of the default-sized grid, heading Up. Center
    /// placement maximizes the room for the pattern to grow before it
    /// reaches a boundary.
    fn default() -> (a: Ant)
        ensures
            a == (Ant { x: GRID_SIZE / 2, y: GRID_SIZE / 2, direction: Direction::Up }),
    {
        Ant { x: GRID_SIZE / 2, y: GRID_SIZE / 2, direction: Direction::Up }
    }
}

} // verus!
