//! Terrain generator: fills a grid with empty ground and overwrites the
//! boundary ring of the full extent with walls. The ring-membership
//! predicate is written over an arbitrary rectangle so that future
//! features (rooms, obstacles) can reuse it for sub-rectangles.

use vstd::prelude::*;

use crate::grid::Grid;
use crate::tiles::TileKind;

verus! {

/// An axis-aligned rectangle of cells, both corners inclusive.
#[derive(Clone, Copy, Debug, PartialEq, Eq, Structural)]
pub struct Rect {
    pub min_x: usize,
    pub min_y: usize,
    pub max_x: usize,
    pub max_y: usize,
}

impl Rect {
    /// Well-formed: the minimum corner does not pass the maximum corner.
    pub open spec fn wf(self) -> bool {
        self.min_x <= self.max_x && self.min_y <= self.max_y
    }

    /// Whether `(x, y)` lies inside the rectangle, boundary included.
    pub open spec fn spec_contains_cell(self, x: int, y: int) -> bool {
        self.min_x <= x <= self.max_x && self.min_y <= y <= self.max_y
    }

    /// Whether `(x, y)` is strictly interior: at least one cell away from
    /// every edge of the rectangle.
    pub open spec fn spec_interior(self, x: int, y: int) -> bool {
        self.min_x + 1 <= x <= self.max_x - 1 && self.min_y + 1 <= y <= self.max_y - 1
    }

    /// Whether `(x, y)` is a ring cell: in the rectangle but not strictly
    /// interior, i.e. on an edge or corner. A rectangle narrower than
    /// three cells in either axis has no interior, so every cell of it is
    /// a ring cell.
    pub open spec fn spec_ring(self, x: int, y: int) -> bool {
        self.spec_contains_cell(x, y) && !self.spec_interior(x, y)
    }

    /// The rectangle spanning a full grid extent, corners `(0, 0)` and
    /// `(width - 1, height - 1)`.
    pub open spec fn spec_full(width: int, height: int) -> Rect
        recommends
            1 <= width,
            1 <= height,
    {
        Rect {
            min_x: 0,
            min_y: 0,
            max_x: (width - 1) as usize,
            max_y: (height - 1) as usize,
        }
    }

    /// The rectangle spanning a full grid extent.
    pub fn full(width: usize, height: usize) -> (r: Rect)
        requires
            1 <= width,
            1 <= height,
        ensures
            r == Rect::spec_full(width as int, height as int),
            r.wf(),
    {
        Rect { min_x: 0, min_y: 0, max_x: width - 1, max_y: height - 1 }
    }

    /// Whether `(x, y)` is a ring cell of this rectangle.
    pub fn ring_cell(&self, x: usize, y: usize) -> (b: bool)
        ensures
            b == self.spec_ring(x as int, y as int),
    {
        let inside = self.min_x <= x && x <= self.max_x && self.min_y <= y && y <= self.max_y;
        let interior = self.min_x < x && x < self.max_x && self.min_y < y && y < self.max_y;
        inside && !interior
    }

    /// On the full-grid rectangle, a cell in bounds is a ring cell exactly
    /// when it touches the grid's first or last column or row.
    pub proof fn lemma_full_ring_is_edge(width: int, height: int, x: int, y: int)
        requires
            1 <= width <= usize::MAX,
            1 <= height <= usize::MAX,
            0 <= x < width,
            0 <= y < height,
        ensures
            Rect::spec_full(width, height).spec_ring(x, y) <==> (x == 0 || x == width - 1 || y == 0
                || y == height - 1),
    {
    }

    /// A rectangle a single cell wide or tall in either axis has no
    /// strictly interior cells: every cell of it is a ring cell.
    pub proof fn lemma_degenerate_all_ring(self, x: int, y: int)
        requires
            self.wf(),
            self.max_x - self.min_x < 2 || self.max_y - self.min_y < 2,
            self.spec_contains_cell(x, y),
        ensures
            self.spec_ring(x, y),
    {
    }
}

/// The ring coordinates of a rectangle: every cell of the rectangle that
/// is not strictly interior, each listed exactly once.
pub fn box_coords(rect: Rect) -> (coords: Vec<(usize, usize)>)
    requires
        rect.wf(),
        rect.max_x < usize::MAX,
        rect.max_y < usize::MAX,
    ensures
        forall|p: (usize, usize)| #[trigger]
            coords@.contains(p) <==> rect.spec_ring(p.0 as int, p.1 as int),
        forall|i: int, j: int| 0 <= i < j < coords@.len() ==> coords@[i] != coords@[j],
{
    let mut coords: Vec<(usize, usize)> = Vec::new();
    let mut x: usize = rect.min_x;
    while x <= rect.max_x
        invariant
            rect.wf(),
            rect.max_x < usize::MAX,
            rect.max_y < usize::MAX,
            rect.min_x <= x <= rect.max_x + 1,
            forall|p: (usize, usize)| #[trigger]
                coords@.contains(p) <==> (p.0 < x && rect.spec_ring(p.0 as int, p.1 as int)),
            forall|i: int, j: int| 0 <= i < j < coords@.len() ==> coords@[i] != coords@[j],
        decreases rect.max_x + 1 - x,
    {
        let mut y: usize = rect.min_y;
        while y <= rect.max_y
            invariant
                rect.wf(),
                rect.max_x < usize::MAX,
                rect.max_y < usize::MAX,
                rect.min_x <= x <= rect.max_x,
                rect.min_y <= y <= rect.max_y + 1,
                forall|p: (usize, usize)| #[trigger]
                    coords@.contains(p) <==> ((p.0 < x || (p.0 == x && p.1 < y))
                        && rect.spec_ring(p.0 as int, p.1 as int)),
                forall|i: int, j: int| 0 <= i < j < coords@.len() ==> coords@[i] != coords@[j],
            decreases rect.max_y + 1 - y,
        {
            if rect.ring_cell(x, y) {
                let ghost before = coords@;
                coords.push((x, y));
                proof {
                    assert forall|p: (usize, usize)| #[trigger] coords@.contains(p) implies ((p.0
                        < x || (p.0 == x && p.1 < y + 1)) && rect.spec_ring(
                        p.0 as int,
                        p.1 as int,
                    )) by {
                        let i = choose|i: int| 0 <= i < coords@.len() && coords@[i] == p;
                        if i < before.len() {
                            assert(before.contains(p));
                        }
                    }
                    assert forall|p: (usize, usize)|
                        ((p.0 < x || (p.0 == x && p.1 < y + 1)) && rect.spec_ring(
                            p.0 as int,
                            p.1 as int,
                        )) implies #[trigger] coords@.contains(p) by {
                        if p.0 < x || (p.0 == x && p.1 < y) {
                            assert(before.contains(p));
                            let i = choose|i: int| 0 <= i < before.len() && before[i] == p;
                            assert(coords@[i] == p);
                        } else {
                            assert(coords@[coords@.len() - 1] == p);
                        }
                    }
                    assert(!before.contains((x, y)));
                    assert forall|i: int, j: int|
                        0 <= i < j < coords@.len() implies coords@[i] != coords@[j] by {
                        if j == coords@.len() - 1 {
                            assert(before.contains(before[i]));
                        }
                    }
                }
            }
            y = y + 1;
        }
        x = x + 1;
    }
    coords
}

/// A grid holding exactly the generated initial layout for its extent:
/// walls on the ring of the full extent, empty ground everywhere else.
pub open spec fn spec_generated(g: Grid) -> bool {
    forall|x: int, y: int|
        g.spec_in_bounds(x, y) ==> g.cell(x, y) == Some(
            if Rect::spec_full(g.spec_width(), g.spec_height()).spec_ring(x, y) {
                TileKind::Wall
            } else {
                TileKind::Empty
            },
        )
}

/// After generation every cell holds a defined tile kind, and the
/// sprite-sheet code of that kind lies in `[0, 5]`: the generated world
/// only ever hands the rendering collaborator indices the sprite sheet
/// covers.
pub proof fn lemma_generated_world_complete(g: Grid)
    requires
        g.wf(),
        spec_generated(g),
    ensures
        forall|x: int, y: int| g.spec_in_bounds(x, y) ==> g.cell(x, y) is Some,
        forall|x: int, y: int|
            g.spec_in_bounds(x, y) ==> 0 <= crate::tiles::spec_kind_index(g.cell(x, y)->Some_0)
                <= 5,
{
}

/// On a generated world, a cell is a wall exactly when it touches the
/// world's first or last column or row, and empty ground otherwise.
pub proof fn lemma_generated_wall_iff_edge(g: Grid, x: int, y: int)
    requires
        g.wf(),
        spec_generated(g),
        g.spec_in_bounds(x, y),
    ensures
        g.cell(x, y) == Some(TileKind::Wall) <==> (x == 0 || x == g.spec_width() - 1 || y == 0
            || y == g.spec_height() - 1),
        g.cell(x, y) == Some(TileKind::Wall) || g.cell(x, y) == Some(TileKind::Empty),
{
    g.lemma_wf_bounds();
    Rect::lemma_full_ring_is_edge(g.spec_width(), g.spec_height(), x, y);
}

/// A generated world a single cell wide or tall has no interior: every
/// cell of it is a wall.
pub proof fn lemma_degenerate_world_all_wall(g: Grid, x: int, y: int)
    requires
        g.wf(),
        spec_generated(g),
        g.spec_width() == 1 || g.spec_height() == 1,
        g.spec_in_bounds(x, y),
    ensures
        g.cell(x, y) == Some(TileKind::Wall),
{
    g.lemma_wf_bounds();
    Rect::spec_full(g.spec_width(), g.spec_height()).lemma_degenerate_all_ring(x, y);
}

/// Produces the complete initial world: every cell of a fresh
/// `width x height` grid is set to empty ground, then every ring cell of
/// the full extent is overwritten with a wall. After it returns, every
/// cell holds a defined tile kind.
pub fn gen_terrain(width: usize, height: usize) -> (g: Grid)
    requires
        1 <= width,
        1 <= height,
        width * height <= usize::MAX,
    ensures
        g.wf(),
        g.spec_width() == width,
        g.spec_height() == height,
        spec_generated(g),
{
    let mut g = Grid::create(width, height);
    // Fill pass: every cell becomes empty ground.
    let mut x: usize = 0;
    while x < width
        invariant
            g.wf(),
            g.spec_width() == width,
            g.spec_height() == height,
            x <= width,
            forall|a: int, b: int|
                g.spec_in_bounds(a, b) && a < x ==> g.cell(a, b) == Some(TileKind::Empty),
        decreases width - x,
    {
        let mut y: usize = 0;
        while y < height
            invariant
                g.wf(),
                g.spec_width() == width,
                g.spec_height() == height,
                x < width,
                y <= height,
                forall|a: int, b: int|
                    g.spec_in_bounds(a, b) && (a < x || (a == x && b < y)) ==> g.cell(a, b) == Some(
                        TileKind::Empty,
                    ),
            decreases height - y,
        {
            g.set_cell(x, y, TileKind::Empty);
            y = y + 1;
        }
        x = x + 1;
    }
    // Border pass: every ring cell of the full extent becomes a wall.
    let rect = Rect::full(width, height);
    let coords = box_coords(rect);
    let mut i: usize = 0;
    while i < coords.len()
        invariant
            g.wf(),
            g.spec_width() == width,
            g.spec_height() == height,
            1 <= width,
            1 <= height,
            i <= coords@.len(),
            rect == Rect::spec_full(width as int, height as int),
            forall|p: (usize, usize)| #[trigger]
                coords@.contains(p) <==> rect.spec_ring(p.0 as int, p.1 as int),
            forall|a: int, b: int|
                g.spec_in_bounds(a, b) ==> g.cell(a, b) == Some(
                    if exists|j: int| 0 <= j < i && coords@[j] == ((a as usize, b as usize)) {
                        TileKind::Wall
                    } else {
                        TileKind::Empty
                    },
                ),
        decreases coords@.len() - i,
    {
        let (cx, cy) = coords[i];
        proof {
            assert(coords@.contains(coords@[i as int]));
            assert(g.spec_in_bounds(cx as int, cy as int));
        }
        g.set_cell(cx, cy, TileKind::Wall);
        i = i + 1;
        proof {
            assert forall|a: int, b: int| g.spec_in_bounds(a, b) implies g.cell(a, b) == Some(
                if exists|j: int| 0 <= j < i && coords@[j] == ((a as usize, b as usize)) {
                    TileKind::Wall
                } else {
                    TileKind::Empty
                },
            ) by {
                if a == cx && b == cy {
                    assert(coords@[i - 1] == ((a as usize, b as usize)));
                } else {
                    assert(forall|j: int|
                        0 <= j < i - 1 && coords@[j] == ((a as usize, b as usize)) ==> coords@[j]
                            != ((cx, cy)));
                }
            }
        }
    }
    proof {
        assert forall|x: int, y: int| g.spec_in_bounds(x, y) implies g.cell(x, y) == Some(
            if rect.spec_ring(x, y) {
                TileKind::Wall
            } else {
                TileKind::Empty
            },
        ) by {
            let p = (x as usize, y as usize);
            if rect.spec_ring(x, y) {
                assert(coords@.contains(p));
                let j = choose|j: int| 0 <= j < coords@.len() && coords@[j] == p;
                assert(exists|j: int| 0 <= j < i && coords@[j] == p);
            } else {
                assert(!coords@.contains(p));
                assert(forall|j: int| 0 <= j < i ==> coords@[j] != p) by {
                    assert(forall|j: int|
                        0 <= j < coords@.len() && coords@[j] == p ==> coords@.contains(p));
                }
            }
        }
    }
    g
}

} // verus!
