use vstd::prelude::*;
use crate::grid::{GridShape, index_of, lemma_index_in_range, lemma_index_unique};

verus! {

/// Where an initial density image sits inside the simulation grid: centred,
/// with the remaining cells left empty.
pub struct Placement {
    pub shape: GridShape,
    pub image_width: usize,
    pub image_height: usize,
    pub pad_x: usize,
    pub pad_y: usize,
}

/// Why an initial density image cannot be used.
#[derive(PartialEq, Eq, Structural, Debug, Clone, Copy)]
pub enum AssetError {
    ImageLargerThanTarget,
}

impl Placement {
    pub open spec fn wf(&self) -> bool {
        &&& self.shape.wf()
        &&& self.image_width <= self.shape.width
        &&& self.image_height <= self.shape.height
        &&& self.pad_x == (self.shape.width - self.image_width) / 2
        &&& self.pad_y == (self.shape.height - self.image_height) / 2
    }

    /// The grid cell that image pixel `(x, y)` lands on.
    pub open spec fn target_of(&self, x: int, y: int) -> int {
        index_of(self.shape.width as int, self.pad_x + x, self.pad_y + y)
    }

    /// Centres an `image_width` by `image_height` image in a grid of `shape`;
    /// an image wider or taller than the grid is rejected.
    pub fn center(shape: GridShape, image_width: usize, image_height: usize) -> (r: Result<
        Placement,
        AssetError,
    >)
        requires
            shape.wf(),
        ensures
            r is Ok <==> image_width <= shape.width && image_height <= shape.height,
            r matches Ok(p) ==> p.wf() && p.shape == shape && p.image_width == image_width
                && p.image_height == image_height,
            r matches Err(e) ==> e == AssetError::ImageLargerThanTarget,
    {
        if image_width <= shape.width && image_height <= shape.height {
            let pad_x = (shape.width - image_width) / 2;
            let pad_y = (shape.height - image_height) / 2;
            Ok(Placement { shape, image_width, image_height, pad_x, pad_y })
        } else {
            Err(AssetError::ImageLargerThanTarget)
        }
    }

    /// Index of the grid cell that image pixel `(x, y)` is written to.
    pub fn target_index(&self, x: usize, y: usize) -> (r: usize)
        requires
            self.wf(),
            x < self.image_width,
            y < self.image_height,
        ensures
            r == self.target_of(x as int, y as int),
            r < self.shape.cells(),
    {
        proof {
            self.lemma_inside(x as int, y as int);
        }
        self.shape.index(self.pad_x + x, self.pad_y + y)
    }

    /// Every pixel of the image lands inside the grid.
    pub proof fn lemma_inside(&self, x: int, y: int)
        requires
            self.wf(),
            0 <= x < self.image_width,
            0 <= y < self.image_height,
        ensures
            self.shape.in_grid(self.pad_x + x, self.pad_y + y),
            0 <= self.target_of(x, y) < self.shape.cells(),
    {
        lemma_index_in_range(
            self.shape.width as int,
            self.shape.height as int,
            self.pad_x + x,
            self.pad_y + y,
        );
    }

    /// Distinct pixels land on distinct cells, so no pixel overwrites another.
    pub proof fn lemma_pixels_distinct(&self, x1: int, y1: int, x2: int, y2: int)
        requires
            self.wf(),
            0 <= x1 < self.image_width,
            0 <= y1 < self.image_height,
            0 <= x2 < self.image_width,
            0 <= y2 < self.image_height,
            x1 != x2 || y1 != y2,
        ensures
            self.target_of(x1, y1) != self.target_of(x2, y2),
    {
        lemma_index_unique(self.shape.width as int, self.pad_x + x1, self.pad_y + y1);
        lemma_index_unique(self.shape.width as int, self.pad_x + x2, self.pad_y + y2);
    }

    /// The image is centred: the empty margins on opposite sides differ by
    /// at most one cell, the larger one on the right and at the bottom.
    pub proof fn lemma_centered(&self)
        requires
            self.wf(),
        ensures
            self.pad_x <= self.shape.width - self.image_width - self.pad_x <= self.pad_x + 1,
            self.pad_y <= self.shape.height - self.image_height - self.pad_y <= self.pad_y + 1,
    {
    }
}

} // verus!
