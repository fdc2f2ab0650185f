use vstd::prelude::*;

verus! {

/// Row-major position of cell `(x, y)` in a grid `width` cells wide.
pub open spec fn index_of(width: int, x: int, y: int) -> int {
    y * width + x
}

/// The dimensions of a rectangular simulation grid. Every grid of one run
/// (noise, flow field, both density buffers) has the same shape.
#[derive(Clone, Copy, PartialEq, Eq, Structural, Debug)]
pub struct GridShape {
    pub width: usize,
    pub height: usize,
}

impl GridShape {
    /// The cell count fits in `usize`, so every index of the grid does too.
    pub open spec fn wf(&self) -> bool {
        self.width * self.height <= usize::MAX
    }

    pub open spec fn cells(&self) -> int {
        self.width * self.height
    }

    pub open spec fn in_grid(&self, x: int, y: int) -> bool {
        0 <= x < self.width && 0 <= y < self.height
    }

    /// Interior cells have a neighbour on all four sides; only they are
    /// computed by the finite-difference stencils.
    pub open spec fn interior(&self, x: int, y: int) -> bool {
        1 <= x <= self.width - 2 && 1 <= y <= self.height - 2
    }

    /// Builds a shape whose cell count fits in `usize`; `None` where it does not.
    pub fn new(width: usize, height: usize) -> (r: Option<GridShape>)
        ensures
            r is Some <==> width * height <= usize::MAX,
            r matches Some(s) ==> s.width == width && s.height == height && s.wf(),
    {
        match width.checked_mul(height) {
            Some(_) => Some(GridShape { width, height }),
            None => None,
        }
    }

    /// Number of cells, the length of every buffer of this shape.
    pub fn cell_count(&self) -> (r: usize)
        requires
            self.wf(),
        ensures
            r == self.cells(),
    {
        self.width * self.height
    }

    /// Whether `(x, y)` is an interior cell.
    pub fn is_interior(&self, x: usize, y: usize) -> (r: bool)
        ensures
            r == self.interior(x as int, y as int),
    {
        1 <= x && self.width >= 1 && x < self.width - 1 && self.height >= 1 && y < self.height - 1 && 1 <= y
    }

    /// Row-major index of cell `(x, y)`.
    pub fn index(&self, x: usize, y: usize) -> (r: usize)
        requires
            self.wf(),
            self.in_grid(x as int, y as int),
        ensures
            r == index_of(self.width as int, x as int, y as int),
            r < self.cells(),
    {
        proof {
            lemma_index_in_range(self.width as int, self.height as int, x as int, y as int);
        }
        y * self.width + x
    }
}

/// A cell inside a `width` by `height` grid has an index below the cell count.
pub proof fn lemma_index_in_range(width: int, height: int, x: int, y: int)
    requires
        0 <= x < width,
        0 <= y < height,
    ensures
        0 <= index_of(width, x, y) < width * height,
{
    assert(y * width + x < width * height) by (nonlinear_arith)
        requires
            0 <= x < width,
            0 <= y < height,
    ;
    assert(0 <= y * width) by (nonlinear_arith)
        requires
            0 <= y,
            0 <= width,
    ;
}

/// Distinct cells of one grid have distinct indices, and each index names
/// one cell: `x` is the index modulo the width, `y` the quotient.
pub proof fn lemma_index_unique(width: int, x: int, y: int)
    requires
        0 <= x < width,
        0 <= y,
    ensures
        index_of(width, x, y) / width == y,
        index_of(width, x, y) % width == x,
{
    vstd::arithmetic::div_mod::lemma_fundamental_div_mod_converse(
        index_of(width, x, y),
        width,
        y,
        x,
    );
}

} // verus!
