use vstd::prelude::*;
use crate::grid::{GridShape, index_of, lemma_index_in_range, lemma_index_unique};

verus! {

/// Whether flat index `i` of a grid of `shape` is an interior cell.
pub open spec fn interior_at(shape: GridShape, i: int) -> bool {
    shape.interior(i % shape.width as int, i / shape.width as int)
}

/// `after` is `before` with every interior cell replaced by what the cell
/// rule `rule` gives for that cell's index and its five-cell neighbourhood
/// in `src` (centre, left, right, up, down); boundary cells are untouched.
pub open spec fn stencil_applied<S, T, F: Fn(usize, S, S, S, S, S) -> T>(
    shape: GridShape,
    src: Seq<S>,
    before: Seq<T>,
    after: Seq<T>,
    rule: F,
) -> bool {
    let w = shape.width as int;
    &&& after.len() == before.len()
    &&& forall|i: int|
        0 <= i < after.len() ==> if interior_at(shape, i) {
            rule.ensures(
                (i as usize, src[i], src[i - 1], src[i + 1], src[i - w], src[i + w]),
                #[trigger] after[i],
            )
        } else {
            after[i] == before[i]
        }
}

/// Flat index `i` of a grid with `x` and `y` its column and row.
proof fn lemma_coords(shape: GridShape, i: int, x: int, y: int)
    requires
        shape.wf(),
        0 <= x < shape.width,
        0 <= y < shape.height,
        i == index_of(shape.width as int, x, y),
    ensures
        i % shape.width as int == x,
        i / shape.width as int == y,
        0 <= i < shape.cells(),
{
    lemma_index_unique(shape.width as int, x, y);
    lemma_index_in_range(shape.width as int, shape.height as int, x, y);
}

/// The four neighbours of an interior cell lie inside the grid.
proof fn lemma_neighbours(shape: GridShape, i: int)
    requires
        shape.wf(),
        0 <= i < shape.cells(),
        interior_at(shape, i),
    ensures
        0 <= i - shape.width,
        i + shape.width < shape.cells(),
        1 <= i,
        i + 1 < shape.cells(),
{
    let w = shape.width as int;
    let x = i % w;
    let y = i / w;
    vstd::arithmetic::div_mod::lemma_fundamental_div_mod(i, w);
    assert(i == y * w + x);
    assert(i - w == (y - 1) * w + x) by (nonlinear_arith)
        requires
            i == y * w + x,
    ;
    assert(i + w == (y + 1) * w + x) by (nonlinear_arith)
        requires
            i == y * w + x,
    ;
    lemma_index_in_range(w, shape.height as int, x, y - 1);
    lemma_index_in_range(w, shape.height as int, x, y + 1);
}

/// Computes every interior cell of `out` with `rule`, from the cell's index
/// and its five-cell neighbourhood in `src`; boundary cells of `out` keep
/// their values.
pub fn apply_stencil<S: Copy, T, F: Fn(usize, S, S, S, S, S) -> T>(
    shape: &GridShape,
    src: &Vec<S>,
    out: &mut Vec<T>,
    rule: F,
)
    requires
        shape.wf(),
        src@.len() == shape.cells(),
        old(out)@.len() == shape.cells(),
        forall|i: usize, c: S, l: S, r: S, u: S, d: S| rule.requires((i, c, l, r, u, d)),
    ensures
        stencil_applied(*shape, src@, old(out)@, final(out)@, rule),
{
    let n = shape.cell_count();
    let w = shape.width;
    let ghost w_int = w as int;
    let mut i: usize = 0;
    let mut x: usize = 0;
    let mut y: usize = 0;
    proof {
        if n > 0 {
            assert(w > 0 && shape.height > 0) by (nonlinear_arith)
                requires
                    n == w * shape.height,
                    n > 0,
            ;
        }
    }
    while i < n
        invariant
            shape.wf(),
            n == shape.cells(),
            w == shape.width,
            w_int == w as int,
            src@.len() == n,
            out@.len() == n,
            i <= n,
            i < n ==> x < w && y < shape.height && i == index_of(w as int, x as int, y as int),
            forall|i: usize, c: S, l: S, r: S, u: S, d: S| rule.requires((i, c, l, r, u, d)),
            forall|j: int|
                0 <= j < i ==> if interior_at(*shape, j) {
                    rule.ensures(
                        (j as usize, src@[j], src@[j - 1], src@[j + 1], src@[j - w_int], src@[j + w_int]),
                        #[trigger] out@[j],
                    )
                } else {
                    out@[j] == old(out)@[j]
                },
            forall|j: int| i <= j < n ==> #[trigger] out@[j] == old(out)@[j],
        decreases n - i,
    {
        proof {
            lemma_coords(*shape, i as int, x as int, y as int);
        }
        if shape.is_interior(x, y) {
            proof {
                lemma_neighbours(*shape, i as int);
            }
            let v = rule(i, src[i], src[i - 1], src[i + 1], src[i - w], src[i + w]);
            out.set(i, v);
        }
        let ghost pi = i as int;
        let ghost py = y as int;
        i = i + 1;
        if x + 1 == w {
            x = 0;
            if i < n {
                proof {
                    assert(i == (py + 1) * w) by (nonlinear_arith)
                        requires
                            i == pi + 1,
                            pi == py * w + (w - 1),
                    ;
                    assert(py + 1 < shape.height) by (nonlinear_arith)
                        requires
                            i == (py + 1) * w,
                            i < n,
                            n == w * shape.height,
                            w > 0,
                    ;
                }
                y = y + 1;
            }
        } else {
            x = x + 1;
        }
    }
}

/// The two values whose difference is the upwind gradient of a cell along
/// one axis, given its neighbours before and after it on that axis. Where
/// the flow component along the axis is negative the forward difference is
/// taken (`next - center`), otherwise the backward one (`center - previous`):
/// the gradient is always read from the side the flow comes from.
pub fn upwind<T: Copy>(flow_negative: bool, previous: T, center: T, next: T) -> (r: (T, T))
    ensures
        r == (if flow_negative {
            (next, center)
        } else {
            (center, previous)
        }),
{
    if flow_negative {
        (next, center)
    } else {
        (center, previous)
    }
}

/// Boundary cells of `a` and `b` hold the same values.
pub open spec fn same_boundary<T>(shape: GridShape, a: Seq<T>, b: Seq<T>) -> bool {
    forall|i: int| 0 <= i < a.len() && !interior_at(shape, i) ==> #[trigger] a[i] == b[i]
}

/// The two density buffers of a run: the current field, and scratch space
/// that the next step is written into before the two trade places. Both
/// always hold the same boundary values, so a boundary cell keeps its value
/// however many steps are taken.
pub struct DoubleBuffer<T> {
    shape: GridShape,
    current: Vec<T>,
    scratch: Vec<T>,
}

impl<T: Copy> DoubleBuffer<T> {
    pub closed spec fn shape_view(&self) -> GridShape {
        self.shape
    }

    /// The current field.
    pub closed spec fn values(&self) -> Seq<T> {
        self.current@
    }

    /// What the scratch buffer holds.
    pub closed spec fn scratch_values(&self) -> Seq<T> {
        self.scratch@
    }

    pub open spec fn wf(&self) -> bool {
        &&& self.shape_view().wf()
        &&& self.values().len() == self.shape_view().cells()
        &&& self.scratch_values().len() == self.shape_view().cells()
        &&& same_boundary(self.shape_view(), self.values(), self.scratch_values())
    }

    /// Both buffers start as copies of `initial`.
    pub fn new(shape: GridShape, initial: Vec<T>) -> (r: Self)
        requires
            shape.wf(),
            initial@.len() == shape.cells(),
        ensures
            r.wf(),
            r.shape_view() == shape,
            r.values() == initial@,
            r.scratch_values() == initial@,
    {
        let n = initial.len();
        let mut scratch: Vec<T> = Vec::with_capacity(n);
        let mut i: usize = 0;
        while i < n
            invariant
                n == initial@.len(),
                i <= n,
                scratch@ == initial@.subrange(0, i as int),
            decreases n - i,
        {
            scratch.push(initial[i]);
            i = i + 1;
            proof {
                assert(scratch@ =~= initial@.subrange(0, i as int));
            }
        }
        proof {
            assert(scratch@ =~= initial@);
        }
        DoubleBuffer { shape, current: initial, scratch }
    }

    pub fn shape(&self) -> (r: GridShape)
        ensures
            r == self.shape_view(),
    {
        self.shape
    }

    /// The current field.
    pub fn current(&self) -> (r: &Vec<T>)
        ensures
            r@ == self.values(),
    {
        &self.current
    }

    /// One step: every interior cell of the new field is what `rule` gives
    /// for the cell's neighbourhood in the current field; every boundary
    /// cell keeps its value. The old field becomes the scratch buffer.
    pub fn advance<F: Fn(usize, T, T, T, T, T) -> T>(&mut self, rule: F)
        requires
            old(self).wf(),
            forall|i: usize, c: T, l: T, r: T, u: T, d: T| rule.requires((i, c, l, r, u, d)),
        ensures
            final(self).wf(),
            final(self).shape_view() == old(self).shape_view(),
            stencil_applied(
                old(self).shape_view(),
                old(self).values(),
                old(self).values(),
                final(self).values(),
                rule,
            ),
            final(self).scratch_values() == old(self).values(),
    {
        let ghost before = self.current@;
        let ghost scratch_before = self.scratch@;
        apply_stencil(&self.shape, &self.current, &mut self.scratch, rule);
        std::mem::swap(&mut self.current, &mut self.scratch);
        proof {
            let shape = self.shape;
            assert forall|i: int|
                0 <= i < self.current@.len() && !interior_at(shape, i) implies #[trigger] self.current@[i]
                == before[i] by {
                assert(self.current@[i] == scratch_before[i]);
            }
        }
    }
}

/// A stencil pass over a buffer filled with one value, such as a freshly
/// zeroed flow field, leaves that value on every boundary cell.
pub proof fn lemma_boundary_keeps_fill<S, T, F: Fn(usize, S, S, S, S, S) -> T>(
    shape: GridShape,
    src: Seq<S>,
    before: Seq<T>,
    after: Seq<T>,
    rule: F,
    fill: T,
)
    requires
        stencil_applied(shape, src, before, after, rule),
        forall|i: int| 0 <= i < before.len() ==> #[trigger] before[i] == fill,
    ensures
        forall|i: int| 0 <= i < after.len() && !interior_at(shape, i) ==> #[trigger] after[i] == fill,
{
    assert forall|i: int| 0 <= i < after.len() && !interior_at(shape, i) implies #[trigger] after[i]
        == fill by {
        assert(after[i] == before[i]);
    }
}

/// A step whose cell rule returns the cell's own value, as advection along
/// a zero flow does, leaves the field exactly as it was.
pub proof fn lemma_still_rule<T, F: Fn(usize, T, T, T, T, T) -> T>(
    shape: GridShape,
    field: Seq<T>,
    after: Seq<T>,
    rule: F,
)
    requires
        stencil_applied(shape, field, field, after, rule),
        forall|i: usize, c: T, l: T, r: T, u: T, d: T, v: T| #[trigger]
            rule.ensures((i, c, l, r, u, d), v) ==> v == c,
    ensures
        after == field,
{
    assert forall|i: int| 0 <= i < after.len() implies #[trigger] after[i] == field[i] by {
        if interior_at(shape, i) {
            let w = shape.width as int;
            assert(rule.ensures(
                (i as usize, field[i], field[i - 1], field[i + 1], field[i - w], field[i + w]),
                after[i],
            ));
        }
    }
    assert(after =~= field);
}

} // verus!
