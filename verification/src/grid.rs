//! A fixed-size square field of binary cells, owning all cell data, with
//! bounds-checked read and write access.

use vstd::prelude::*;

verus! {

/// The grid of cells. `true` is a white (unvisited) cell, `false` a black
/// (visited) one. The side length is fixed at construction; the cell buffer
/// is the sole mutable state of the simulation.
pub struct Grid {
    size: usize,
    cells: Vec<Vec<bool>>,
}

impl View for Grid {
    type V = Seq<Seq<bool>>;

    /// The grid as a sequence of columns, each a sequence of cell states, so
    /// that `self@[x][y]` is the cell at coordinate (x, y).
    closed spec fn view(&self) -> Seq<Seq<bool>> {
        self.cells@.map_values(|column: Vec<bool>| column@)
    }
}

impl Grid {
    /// The side length of the grid.
    pub closed spec fn side(&self) -> int {
        self.size as int
    }

    /// Well-formedness: a positive side length, and a square cell buffer of
    /// exactly that side.
    pub open spec fn wf(&self) -> bool {
        &&& 0 < self.side()
        &&& self@.len() == self.side()
        &&& forall|x: int| 0 <= x < self@.len() ==> (#[trigger] self@[x]).len() == self.side()
    }

    /// Whether the coordinate (x, y) addresses a cell of the grid.
    pub open spec fn in_bounds(&self, x: int, y: int) -> bool {
        0 <= x < self.side() && 0 <= y < self.side()
    }

    /// The state of the cell at (x, y).
    pub open spec fn cell(&self, x: int, y: int) -> bool {
        self@[x][y]
    }

    /// A grid of the given side length with every cell white.
    pub fn new(size: usize) -> (g: Grid)
        requires
            0 < size,
        ensures
            g.wf(),
            g.side() == size,
            forall|x: int, y: int| g.in_bounds(x, y) ==> g.cell(x, y) == true,
    {
        let mut cells: Vec<Vec<bool>> = Vec::new();
        let mut x: usize = 0;
        while x < size
            invariant
                x <= size,
                cells@.len() == x,
                forall|i: int| 0 <= i < x ==> (#[trigger] cells@[i])@.len() == size,
                forall|i: int, j: int|
                    0 <= i < x && 0 <= j < size ==> (#[trigger] cells@[i]@[j]) == true,
            decreases size - x,
        {
            let mut column: Vec<bool> = Vec::new();
            let mut y: usize = 0;
            while y < size
                invariant
                    y <= size,
                    column@.len() == y,
                    forall|j: int| 0 <= j < y ==> (#[trigger] column@[j]) == true,
                decreases size - y,
            {
                column.push(true);
                y = y + 1;
            }
            cells.push(column);
            x = x + 1;
        }
        Grid { size, cells }
    }

    /// The side length of the grid.
    pub fn size(&self) -> (s: usize)
        ensures
            s == self.side(),
    {
        self.size
    }

    /// Read the cell at (x, y). Bounds are the caller's obligation: the
    /// ant's clamped movement guarantees them.
    pub fn get(&self, x: usize, y: usize) -> (b: bool)
        requires
            self.wf(),
            self.in_bounds(x as int, y as int),
        ensures
            b == self.cell(x as int, y as int),
    {
        proof {
            assert(self.cells@.len() == self@.len());
            assert(self.cells@[x as int]@ == self@[x as int]);
        }
        self.cells[x][y]
    }

    /// Overwrite the cell at (x, y): the sole mutation point of the whole
    /// simulation. Every other cell, and the side length, are unchanged.
    pub fn set(&mut self, x: usize, y: usize, value: bool)
        requires
            old(self).wf(),
            old(self).in_bounds(x as int, y as int),
        ensures
            final(self).wf(),
            final(self).side() == old(self).side(),
            final(self)@ == old(self)@.update(
                x as int,
                old(self)@[x as int].update(y as int, value),
            ),
            final(self).cell(x as int, y as int) == value,
            forall|i: int, j: int|
                old(self).in_bounds(i, j) && !(i == x as int && j == y as int)
                    ==> final(self).cell(i, j) == old(self).cell(i, j),
    {
        proof {
            assert(self.cells@.len() == self@.len());
            assert(self.cells@[x as int]@ == self@[x as int]);
        }
        self.cells[x][y] = value;
        proof {
            assert(self@ =~~= old(self)@.update(
                x as int,
                old(self)@[x as int].update(y as int, value),
            ));
        }
    }
}

} // verus!
