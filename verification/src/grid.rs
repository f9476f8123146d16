//! Grid model: a rectangular array of cells of fixed extent, addressed by
//! signed coordinates and holding at most one tile kind per cell. The grid
//! is a pure container: it never decides content itself.

use vstd::prelude::*;

use crate::error::CoreError;
use crate::tiles::TileKind;

verus! {

/// A bounded 2D world of `width x height` cells. A cell starts unset and
/// holds exactly one `TileKind` once terrain generation has reached it.
pub struct Grid {
    width: usize,
    height: usize,
    cells: Vec<Option<TileKind>>,
}

impl Grid {
    /// The grid's width, in cells.
    pub closed spec fn spec_width(self) -> int {
        self.width as int
    }

    /// The grid's height, in cells.
    pub closed spec fn spec_height(self) -> int {
        self.height as int
    }

    /// Well-formed: at least one cell in each direction, and storage for
    /// exactly `width * height` cells.
    pub closed spec fn wf(self) -> bool {
        &&& 1 <= self.width
        &&& 1 <= self.height
        &&& self.cells@.len() == self.width * self.height
    }

    /// Whether `(x, y)` addresses a cell of this grid.
    pub open spec fn spec_in_bounds(self, x: int, y: int) -> bool {
        0 <= x < self.spec_width() && 0 <= y < self.spec_height()
    }

    /// The content of cell `(x, y)`: `None` while unset, `Some(kind)` once
    /// assigned.
    pub closed spec fn cell(self, x: int, y: int) -> Option<TileKind>
        recommends
            self.wf(),
            self.spec_in_bounds(x, y),
    {
        self.cells@[y * self.width + x]
    }

    /// The row-major storage index of an in-bounds cell lies inside the
    /// storage.
    proof fn lemma_index_in_storage(self, x: int, y: int)
        requires
            self.wf(),
            self.spec_in_bounds(x, y),
        ensures
            0 <= y * self.width + x < self.cells@.len(),
    {
        assert(y * self.width + x < self.width * self.height) by (nonlinear_arith)
            requires
                0 <= x < self.width,
                0 <= y < self.height,
        ;
    }

    /// A well-formed grid's extent is at least one cell in each direction
    /// and fits the machine's address space.
    pub proof fn lemma_wf_bounds(self)
        requires
            self.wf(),
        ensures
            1 <= self.spec_width() <= usize::MAX,
            1 <= self.spec_height() <= usize::MAX,
    {
    }

    /// Allocates a grid of the given extent with every cell unset.
    pub fn create(width: usize, height: usize) -> (g: Grid)
        requires
            1 <= width,
            1 <= height,
            width * height <= usize::MAX,
        ensures
            g.wf(),
            g.spec_width() == width,
            g.spec_height() == height,
            forall|x: int, y: int| g.spec_in_bounds(x, y) ==> g.cell(x, y) is None,
    {
        let mut cells: Vec<Option<TileKind>> = Vec::new();
        let total: usize = width * height;
        let mut i: usize = 0;
        while i < total
            invariant
                i <= total,
                cells@.len() == i,
                forall|j: int| 0 <= j < i ==> cells@[j] is None,
            decreases total - i,
        {
            cells.push(None);
            i = i + 1;
        }
        let g = Grid { width, height, cells };
        proof {
            assert forall|x: int, y: int| g.spec_in_bounds(x, y) implies g.cell(x, y) is None by {
                g.lemma_index_in_storage(x, y);
            }
        }
        g
    }

    /// The grid's width, in cells.
    pub fn width(&self) -> (w: usize)
        ensures
            w == self.spec_width(),
    {
        self.width
    }

    /// The grid's height, in cells.
    pub fn height(&self) -> (h: usize)
        ensures
            h == self.spec_height(),
    {
        self.height
    }

    /// Assigns `kind` to the in-bounds cell `(x, y)`, leaving every other
    /// cell and the grid's extent unchanged. Callers that have already
    /// validated the coordinate use this directly; `set` adds the check.
    pub(crate) fn set_cell(&mut self, x: usize, y: usize, kind: TileKind)
        requires
            old(self).wf(),
            old(self).spec_in_bounds(x as int, y as int),
        ensures
            final(self).wf(),
            final(self).spec_width() == old(self).spec_width(),
            final(self).spec_height() == old(self).spec_height(),
            final(self).cell(x as int, y as int) == Some(kind),
            forall|a: int, b: int|
                old(self).spec_in_bounds(a, b) && (a != x || b != y) ==> final(self).cell(a, b)
                    == old(self).cell(a, b),
    {
        proof {
            self.lemma_index_in_storage(x as int, y as int);
            assert(self.cells.len() <= usize::MAX);
        }
        let idx: usize = y * self.width + x;
        self.cells.set(idx, Some(kind));
        proof {
            assert forall|a: int, b: int|
                old(self).spec_in_bounds(a, b) && (a != x || b != y) implies final(self).cell(a, b)
                == old(self).cell(a, b) by {
                old(self).lemma_index_in_storage(a, b);
                assert(b * self.width + a != y * self.width + x) by (nonlinear_arith)
                    requires
                        0 <= a < self.width,
                        0 <= b,
                        0 <= x < self.width,
                        0 <= y,
                        a != x || b != y,
                ;
            }
        }
    }

    /// Reads the in-bounds cell `(x, y)`.
    pub(crate) fn cell_at(&self, x: usize, y: usize) -> (c: Option<TileKind>)
        requires
            self.wf(),
            self.spec_in_bounds(x as int, y as int),
        ensures
            c == self.cell(x as int, y as int),
    {
        proof {
            self.lemma_index_in_storage(x as int, y as int);
            assert(self.cells.len() <= usize::MAX);
        }
        let idx: usize = y * self.width + x;
        self.cells[idx]
    }

    /// Assigns a tile kind to a cell. Fails with `OutOfBounds`, and changes
    /// nothing, when `(x, y)` lies outside the grid's extent.
    pub fn set(&mut self, x: isize, y: isize, kind: TileKind) -> (r: Result<(), CoreError>)
        requires
            old(self).wf(),
        ensures
            final(self).wf(),
            final(self).spec_width() == old(self).spec_width(),
            final(self).spec_height() == old(self).spec_height(),
            old(self).spec_in_bounds(x as int, y as int) ==> {
                &&& r == Ok::<(), CoreError>(())
                &&& final(self).cell(x as int, y as int) == Some(kind)
                &&& forall|a: int, b: int|
                    old(self).spec_in_bounds(a, b) && (a != x || b != y) ==> final(self).cell(a, b)
                        == old(self).cell(a, b)
            },
            !old(self).spec_in_bounds(x as int, y as int) ==> {
                &&& r == Err::<(), CoreError>(CoreError::OutOfBounds)
                &&& *final(self) == *old(self)
            },
    {
        if x < 0 || y < 0 {
            return Err(CoreError::OutOfBounds);
        }
        let ux: usize = x as usize;
        let uy: usize = y as usize;
        if ux >= self.width || uy >= self.height {
            return Err(CoreError::OutOfBounds);
        }
        self.set_cell(ux, uy, kind);
        Ok(())
    }

    /// Reads the tile kind of a cell. Fails with `OutOfBounds` when
    /// `(x, y)` lies outside the grid's extent, and with `UninitializedCell`
    /// when the cell has never been assigned a kind.
    pub fn get(&self, x: isize, y: isize) -> (r: Result<TileKind, CoreError>)
        requires
            self.wf(),
        ensures
            !self.spec_in_bounds(x as int, y as int) ==> r == Err::<TileKind, CoreError>(
                CoreError::OutOfBounds,
            ),
            self.spec_in_bounds(x as int, y as int) ==> r == match self.cell(x as int, y as int) {
                Some(k) => Ok::<TileKind, CoreError>(k),
                None => Err::<TileKind, CoreError>(CoreError::UninitializedCell),
            },
    {
        if x < 0 || y < 0 {
            return Err(CoreError::OutOfBounds);
        }
        let ux: usize = x as usize;
        let uy: usize = y as usize;
        if ux >= self.width || uy >= self.height {
            return Err(CoreError::OutOfBounds);
        }
        match self.cell_at(ux, uy) {
            Some(k) => Ok(k),
            None => Err(CoreError::UninitializedCell),
        }
    }
}

} // verus!
