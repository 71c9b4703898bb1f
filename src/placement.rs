//! Build-zone selection: which tile the cursor points at, whether a tower
//! may go there, and building it.
use vstd::prelude::*;
use crate::combat::{Tower, TowerType};
use crate::geom::{Vec2i, COORD_MAX};
use crate::level::PlacedTile;
use crate::seqs::{first_where, lemma_first_where_stable};

verus! {

/// Largest side of a tile, in position units.
pub const TILE_SIZE_MAX: i64 = 1_000_000_000;

/// Largest number of tiles along a side of the grid.
pub const GRID_SIDE_MAX: u32 = 1_000_000;

/// Largest extent of the grid along an axis, and largest absolute coordinate
/// of its origin, in position units.
pub const GRID_EXTENT_MAX: i64 = 500_000_000_000;

/// An axis-aligned rectangle, borders included, where towers may be built.
#[derive(Clone, Copy, Debug, PartialEq, Eq, Structural)]
pub struct BuildZone {
    pub min: Vec2i,
    pub max: Vec2i,
}

impl BuildZone {
    pub open spec fn contains(self, p: Vec2i) -> bool {
        self.min.x <= p.x <= self.max.x && self.min.y <= p.y <= self.max.y
    }

    /// The rectangle with corners `(x0, y0)` and `(x1, y1)`, in any order.
    pub fn from_corners(x0: i64, y0: i64, x1: i64, y1: i64) -> (r: BuildZone)
        ensures
            r.min.x == (if x0 <= x1 { x0 } else { x1 }),
            r.max.x == (if x0 <= x1 { x1 } else { x0 }),
            r.min.y == (if y0 <= y1 { y0 } else { y1 }),
            r.max.y == (if y0 <= y1 { y1 } else { y0 }),
    {
        let (lx, hx) = if x0 <= x1 { (x0, x1) } else { (x1, x0) };
        let (ly, hy) = if y0 <= y1 { (y0, y1) } else { (y1, y0) };
        BuildZone { min: Vec2i::new(lx, ly), max: Vec2i::new(hx, hy) }
    }

    pub fn contains_point(&self, p: Vec2i) -> (r: bool)
        ensures
            r == self.contains(p),
    {
        self.min.x <= p.x && p.x <= self.max.x && self.min.y <= p.y && p.y <= self.max.y
    }
}

/// Whether some zone contains the point.
pub open spec fn in_some_zone(zones: Seq<BuildZone>, p: Vec2i) -> bool {
    exists|i: int| 0 <= i < zones.len() && zones[i].contains(p)
}

pub fn in_build_zone(zones: &Vec<BuildZone>, p: Vec2i) -> (r: bool)
    ensures
        r == in_some_zone(zones@, p),
{
    let mut i: usize = 0;
    while i < zones.len()
        invariant
            i <= zones@.len(),
            forall|j: int| 0 <= j < i ==> !zones@[j].contains(p),
        decreases zones@.len() - i,
    {
        if zones[i].contains_point(p) {
            return true;
        }
        i = i + 1;
    }
    false
}

/// The state of a grid cell: no tile, or a tile that is free, selected for
/// building, or built on.
#[derive(Clone, Copy, Debug, PartialEq, Eq, Structural)]
pub enum TileMark {
    Empty,
    Selectable,
    Selected,
    Built,
}

#[derive(Clone, Copy, Debug, PartialEq, Eq, Structural)]
pub enum MouseButton {
    Left,
    Right,
    Middle,
    Other,
}

/// A mouse button changed state.
#[derive(Clone, Copy, Debug, PartialEq, Eq, Structural)]
pub struct MouseClick {
    pub button: MouseButton,
    pub released: bool,
}

/// A square grid of `width` by `height` tiles of `tile_width` by
/// `tile_height` position units, whose tile (0, 0) is centred on `origin`.
/// `marks[y * width + x]` is the state of tile `(x, y)`.
#[derive(Debug)]
pub struct BuildGrid {
    pub width: u32,
    pub height: u32,
    pub tile_width: i64,
    pub tile_height: i64,
    pub origin: Vec2i,
    pub marks: Vec<TileMark>,
}

/// Tile coordinate along one axis of the point at `c`, for tiles of size `s`
/// centred on multiples of `s`: `floor(c / s + 1/2)`.
pub open spec fn tile_coord(c: int, s: int) -> int {
    (2 * c + s) / (2 * s)
}

/// At most one tile is selected.
pub open spec fn single_selection(marks: Seq<TileMark>) -> bool {
    forall|i: int, j: int|
        0 <= i < marks.len() && 0 <= j < marks.len() && marks[i] == TileMark::Selected
            && marks[j] == TileMark::Selected ==> i == j
}

/// Every selection cleared.
pub open spec fn cleared(marks: Seq<TileMark>) -> Seq<TileMark> {
    marks.map_values(
        |m: TileMark|
            if m == TileMark::Selected {
                TileMark::Selectable
            } else {
                m
            },
    )
}

pub open spec fn selected_tile(marks: Seq<TileMark>) -> Option<int> {
    first_where(marks, |m: TileMark| m == TileMark::Selected, marks.len() as int)
}

impl BuildGrid {
    pub open spec fn wf(self) -> bool {
        &&& 0 < self.width <= GRID_SIDE_MAX
        &&& 0 < self.height <= GRID_SIDE_MAX
        &&& 0 < self.tile_width <= TILE_SIZE_MAX
        &&& 0 < self.tile_height <= TILE_SIZE_MAX
        &&& self.width * self.tile_width <= GRID_EXTENT_MAX
        &&& self.height * self.tile_height <= GRID_EXTENT_MAX
        &&& self.origin.bounded_by(GRID_EXTENT_MAX as int)
        &&& self.marks@.len() == self.width * self.height
        &&& single_selection(self.marks@)
    }

    /// The tile under the point `p` of the world, if the grid has one there.
    pub open spec fn tile_at(self, p: Vec2i) -> Option<(int, int)> {
        let x = tile_coord(p.x - self.origin.x, self.tile_width as int);
        let y = tile_coord(p.y - self.origin.y, self.tile_height as int);
        if 0 <= x < self.width && 0 <= y < self.height {
            Some((x, y))
        } else {
            None
        }
    }

    /// Centre of tile `(x, y)` relative to the corner of the grid, where
    /// build zones are given.
    pub open spec fn tile_center(self, x: int, y: int) -> Vec2i {
        Vec2i {
            x: (self.tile_width * x + self.tile_width / 2) as i64,
            y: (self.tile_height * y + self.tile_height / 2) as i64,
        }
    }

    /// Where a tower built on tile `(x, y)` stands in the world.
    pub open spec fn tile_world(self, x: int, y: int) -> Vec2i {
        Vec2i {
            x: (self.tile_width * x + self.origin.x) as i64,
            y: (self.tile_height * y + self.origin.y) as i64,
        }
    }

    /// The marks after a cursor move to `cursor`: any selection cleared, then
    /// the tile under the cursor selected if its centre lies in a build zone
    /// and it holds a tile that is not built on.
    pub open spec fn selected_after(self, cursor: Vec2i, zones: Seq<BuildZone>) -> Seq<TileMark> {
        let base = cleared(self.marks@);
        match self.tile_at(cursor) {
            Some((x, y)) => {
                let i = y * self.width + x;
                if in_some_zone(zones, self.tile_center(x, y)) && base[i] == TileMark::Selectable {
                    base.update(i, TileMark::Selected)
                } else {
                    base
                }
            },
            None => base,
        }
    }

    /// A grid of the given shape with no tiles yet.
    pub fn new(width: u32, height: u32, tile_width: i64, tile_height: i64, origin: Vec2i) -> (r:
        BuildGrid)
        requires
            0 < width <= GRID_SIDE_MAX,
            0 < height <= GRID_SIDE_MAX,
            0 < tile_width <= TILE_SIZE_MAX,
            0 < tile_height <= TILE_SIZE_MAX,
            width * tile_width <= GRID_EXTENT_MAX,
            height * tile_height <= GRID_EXTENT_MAX,
            origin.bounded_by(GRID_EXTENT_MAX as int),
        ensures
            r.wf(),
            r.width == width,
            r.height == height,
            r.tile_width == tile_width,
            r.tile_height == tile_height,
            r.origin == origin,
            forall|i: int| 0 <= i < r.marks@.len() ==> r.marks@[i] == TileMark::Empty,
    {
        assert(width * height <= 1_000_000_000_000) by (nonlinear_arith)
            requires
                0 < width <= 1_000_000,
                0 < height <= 1_000_000,
        ;
        let n: u64 = width as u64 * height as u64;
        let mut marks: Vec<TileMark> = Vec::new();
        let mut i: u64 = 0;
        while i < n
            invariant
                i <= n,
                marks@.len() == i,
                forall|j: int| 0 <= j < i ==> marks@[j] == TileMark::Empty,
            decreases n - i,
        {
            marks.push(TileMark::Empty);
            i = i + 1;
        }
        BuildGrid { width, height, tile_width, tile_height, origin, marks }
    }

    /// Position in `marks` of tile `(x, y)`.
    pub fn cell_index(&self, x: u32, y: u32) -> (r: usize)
        requires
            self.wf(),
            x < self.width,
            y < self.height,
        ensures
            r == y * self.width + x,
            r < self.marks@.len(),
    {
        assert(y * self.width + x < self.width * self.height) by (nonlinear_arith)
            requires
                x < self.width,
                y < self.height,
        ;
        assert(y * self.width <= 1_000_000_000_000) by (nonlinear_arith)
            requires
                y < self.height <= 1_000_000,
                self.width <= 1_000_000,
        ;
        let n = self.marks.len();
        (y as u64 * self.width as u64 + x as u64) as usize
    }

    /// Records that tile `(x, y)` holds a tile that can be built on.
    pub fn place_tile(&mut self, x: u32, y: u32)
        requires
            old(self).wf(),
        ensures
            final(self).wf(),
            final(self).width == old(self).width,
            final(self).height == old(self).height,
            final(self).tile_width == old(self).tile_width,
            final(self).tile_height == old(self).tile_height,
            final(self).origin == old(self).origin,
            final(self).marks@ == (if x < old(self).width && y < old(self).height
                && old(self).marks@[y * old(self).width + x] == TileMark::Empty {
                old(self).marks@.update(y * old(self).width + x, TileMark::Selectable)
            } else {
                old(self).marks@
            }),
    {
        if x < self.width && y < self.height {
            let i = self.cell_index(x, y);
            if self.marks[i] == TileMark::Empty {
                self.marks.set(i, TileMark::Selectable);
            }
        }
    }

    /// Clears any selection.
    pub fn unselect_build_zone(&mut self)
        requires
            old(self).wf(),
        ensures
            final(self).wf(),
            final(self).width == old(self).width,
            final(self).height == old(self).height,
            final(self).tile_width == old(self).tile_width,
            final(self).tile_height == old(self).tile_height,
            final(self).origin == old(self).origin,
            final(self).marks@ == cleared(old(self).marks@),
            forall|i: int| 0 <= i < final(self).marks@.len() ==> final(self).marks@[i] != TileMark::Selected,
    {
        let ghost before = self.marks@;
        let mut i: usize = 0;
        while i < self.marks.len()
            invariant
                i <= self.marks@.len(),
                self.marks@.len() == before.len(),
                before == old(self).marks@,
                self.width == old(self).width,
                self.height == old(self).height,
                self.tile_width == old(self).tile_width,
                self.tile_height == old(self).tile_height,
                self.origin == old(self).origin,
                forall|j: int| 0 <= j < i ==> self.marks@[j] == cleared(before)[j],
                forall|j: int| i <= j < self.marks@.len() ==> self.marks@[j] == before[j],
            decreases self.marks@.len() - i,
        {
            if self.marks[i] == TileMark::Selected {
                self.marks.set(i, TileMark::Selectable);
            }
            i = i + 1;
        }
        assert(self.marks@ =~= cleared(before));
    }

    /// The tile under the world point `p`, if any.
    pub fn tile_at_point(&self, p: Vec2i) -> (r: Option<(u32, u32)>)
        requires
            self.wf(),
            p.in_world(),
        ensures
            r matches Some((x, y)) ==> self.tile_at(p) == Some((x as int, y as int)),
            r is None ==> self.tile_at(p) is None,
    {
        let nx: i64 = 2 * (p.x - self.origin.x) + self.tile_width;
        let ny: i64 = 2 * (p.y - self.origin.y) + self.tile_height;
        if nx < 0 || ny < 0 {
            proof {
                assert(nx < 0 ==> tile_coord(p.x - self.origin.x, self.tile_width as int) < 0)
                    by (nonlinear_arith)
                    requires
                        nx == 2 * (p.x - self.origin.x) + self.tile_width,
                        self.tile_width > 0,
                ;
                assert(ny < 0 ==> tile_coord(p.y - self.origin.y, self.tile_height as int) < 0)
                    by (nonlinear_arith)
                    requires
                        ny == 2 * (p.y - self.origin.y) + self.tile_height,
                        self.tile_height > 0,
                ;
            }
            return None;
        }
        let x: i64 = nx / (2 * self.tile_width);
        let y: i64 = ny / (2 * self.tile_height);
        if x < self.width as i64 && y < self.height as i64 {
            Some((x as u32, y as u32))
        } else {
            None
        }
    }

    /// Re-selects for a cursor at the world point `cursor`; see
    /// `selected_after`.
    pub fn select_build_zone(&mut self, cursor: Vec2i, zones: &Vec<BuildZone>)
        requires
            old(self).wf(),
            cursor.in_world(),
        ensures
            final(self).wf(),
            final(self).width == old(self).width,
            final(self).height == old(self).height,
            final(self).tile_width == old(self).tile_width,
            final(self).tile_height == old(self).tile_height,
            final(self).origin == old(self).origin,
            final(self).marks@ == old(self).selected_after(cursor, zones@),
    {
        self.unselect_build_zone();
        match self.tile_at_point(cursor) {
            None => {},
            Some((x, y)) => {
                proof {
                    assert(self.tile_width * x + self.tile_width / 2 <= COORD_MAX) by (nonlinear_arith)
                        requires
                            x < self.width,
                            0 < self.tile_width,
                            self.width * self.tile_width <= GRID_EXTENT_MAX,
                    ;
                    assert(self.tile_height * y + self.tile_height / 2 <= COORD_MAX) by (nonlinear_arith)
                        requires
                            y < self.height,
                            0 < self.tile_height,
                            self.height * self.tile_height <= GRID_EXTENT_MAX,
                    ;
                }
                let center = Vec2i::new(
                    self.tile_width * x as i64 + self.tile_width / 2,
                    self.tile_height * y as i64 + self.tile_height / 2,
                );
                if in_build_zone(zones, center) {
                    let i = self.cell_index(x, y);
                    if self.marks[i] == TileMark::Selectable {
                        self.marks.set(i, TileMark::Selected);
                    }
                }
            },
        }
    }

    /// Position in `marks` of the selected tile, if any.
    pub fn find_selected(&self) -> (r: Option<usize>)
        ensures
            r matches Some(i) ==> selected_tile(self.marks@) == Some(i as int) && i
                < self.marks@.len(),
            r is None ==> selected_tile(self.marks@) is None,
    {
        let mut i: usize = 0;
        while i < self.marks.len()
            invariant
                i <= self.marks@.len(),
                first_where(self.marks@, |m: TileMark| m == TileMark::Selected, i as int) is None,
            decreases self.marks@.len() - i,
        {
            if self.marks[i] == TileMark::Selected {
                proof {
                    lemma_first_where_stable(
                        self.marks@,
                        |m: TileMark| m == TileMark::Selected,
                        i + 1,
                        self.marks@.len() as int,
                    );
                }
                return Some(i);
            }
            i = i + 1;
        }
        None
    }
}

/// A left-button release.
pub open spec fn is_build_click(c: MouseClick) -> bool {
    c.button == MouseButton::Left && c.released
}

pub open spec fn has_build_click(clicks: Seq<MouseClick>) -> bool {
    exists|i: int| 0 <= i < clicks.len() && is_build_click(clicks[i])
}

impl BuildGrid {
    /// On a left-button release while a tile is selected, marks that tile
    /// built and returns the tower of the chosen type standing on it.
    pub fn build_tower_at_click(&mut self, clicks: &Vec<MouseClick>, tower_type: TowerType) -> (r:
        Option<Tower>)
        requires
            old(self).wf(),
        ensures
            final(self).wf(),
            final(self).width == old(self).width,
            final(self).height == old(self).height,
            final(self).tile_width == old(self).tile_width,
            final(self).tile_height == old(self).tile_height,
            final(self).origin == old(self).origin,
            match selected_tile(old(self).marks@) {
                Some(i) => if has_build_click(clicks@) {
                    &&& final(self).marks@ == old(self).marks@.update(i, TileMark::Built)
                    &&& r == Some(
                        Tower::of_type(
                            tower_type,
                            old(self).tile_world(i % old(self).width as int, i / old(self).width as int),
                        ),
                    )
                } else {
                    final(self).marks@ == old(self).marks@ && r is None
                },
                None => final(self).marks@ == old(self).marks@ && r is None,
            },
            r matches Some(t) ==> t.wf(),
    {
        let mut found = false;
        let mut i: usize = 0;
        while i < clicks.len()
            invariant
                i <= clicks@.len(),
                found ==> has_build_click(clicks@),
                !found ==> forall|j: int| 0 <= j < i ==> !is_build_click(#[trigger] clicks@[j]),
            decreases clicks@.len() - i,
        {
            if clicks[i].button == MouseButton::Left && clicks[i].released {
                assert(is_build_click(clicks@[i as int]));
                found = true;
            }
            i = i + 1;
        }
        if !found {
            return None;
        }
        match self.find_selected() {
            None => None,
            Some(k) => {
                let xs: u64 = k as u64 % self.width as u64;
                let ys: u64 = k as u64 / self.width as u64;
                proof {
                    assert(xs < self.width && ys < self.height) by (nonlinear_arith)
                        requires
                            xs == (k as int) % (self.width as int),
                            ys == (k as int) / (self.width as int),
                            0 <= k < self.width * self.height,
                            self.width > 0,
                    ;
                }
                let x: u32 = xs as u32;
                let y: u32 = ys as u32;
                proof {
                    assert(0 <= self.tile_width * x <= GRID_EXTENT_MAX) by (nonlinear_arith)
                        requires
                            x < self.width,
                            0 < self.tile_width,
                            self.width * self.tile_width <= GRID_EXTENT_MAX,
                    ;
                    assert(0 <= self.tile_height * y <= GRID_EXTENT_MAX) by (nonlinear_arith)
                        requires
                            y < self.height,
                            0 < self.tile_height,
                            self.height * self.tile_height <= GRID_EXTENT_MAX,
                    ;
                }
                self.marks.set(k, TileMark::Built);
                let pos = Vec2i::new(
                    self.tile_width * x as i64 + self.origin.x,
                    self.tile_height * y as i64 + self.origin.y,
                );
                assert(pos == old(self).tile_world(
                    (k as int) % (old(self).width as int),
                    (k as int) / (old(self).width as int),
                ));
                Some(Tower::build(tower_type, pos))
            },
        }
    }
}

/// Whether one of the first `n` tiles stands on grid cell `i` of a grid
/// `w` tiles wide and `h` tiles high.
pub open spec fn covers(tiles: Seq<PlacedTile>, n: int, w: int, h: int, i: int) -> bool {
    exists|k: int|
        0 <= k < n && (#[trigger] tiles[k]).x < w && tiles[k].y < h && tiles[k].y * w + tiles[k].x
            == i
}

impl BuildGrid {
    /// The grid of the given shape whose cells that hold one of `tiles` can
    /// be built on; tiles off the grid are ignored.
    pub fn with_tiles(
        width: u32,
        height: u32,
        tile_width: i64,
        tile_height: i64,
        origin: Vec2i,
        tiles: &Vec<PlacedTile>,
    ) -> (r: BuildGrid)
        requires
            0 < width <= GRID_SIDE_MAX,
            0 < height <= GRID_SIDE_MAX,
            0 < tile_width <= TILE_SIZE_MAX,
            0 < tile_height <= TILE_SIZE_MAX,
            width * tile_width <= GRID_EXTENT_MAX,
            height * tile_height <= GRID_EXTENT_MAX,
            origin.bounded_by(GRID_EXTENT_MAX as int),
        ensures
            r.wf(),
            r.width == width,
            r.height == height,
            r.tile_width == tile_width,
            r.tile_height == tile_height,
            r.origin == origin,
            forall|i: int|
                0 <= i < r.marks@.len() ==> #[trigger] r.marks@[i] == (if covers(
                    tiles@,
                    tiles@.len() as int,
                    width as int,
                    height as int,
                    i,
                ) {
                    TileMark::Selectable
                } else {
                    TileMark::Empty
                }),
    {
        let mut g = BuildGrid::new(width, height, tile_width, tile_height, origin);
        let mut k: usize = 0;
        while k < tiles.len()
            invariant
                k <= tiles@.len(),
                g.wf(),
                g.width == width,
                g.height == height,
                g.tile_width == tile_width,
                g.tile_height == tile_height,
                g.origin == origin,
                forall|i: int|
                    0 <= i < g.marks@.len() ==> #[trigger] g.marks@[i] == (if covers(
                        tiles@,
                        k as int,
                        width as int,
                        height as int,
                        i,
                    ) {
                        TileMark::Selectable
                    } else {
                        TileMark::Empty
                    }),
            decreases tiles@.len() - k,
        {
            let t = tiles[k];
            let ghost before = g.marks@;
            g.place_tile(t.x, t.y);
            let ghost q = t.y * width + t.x;
            assert(t.x < width && t.y < height ==> 0 <= q < width * height) by (nonlinear_arith)
                requires
                    q == t.y * width + t.x,
                    0 <= t.x,
                    0 <= t.y,
            ;
            assert(g.marks@ == before || (t.x < width && t.y < height && g.marks@ == before.update(
                q,
                TileMark::Selectable,
            )));
            assert forall|i: int| 0 <= i < g.marks@.len() implies #[trigger] g.marks@[i] == (if covers(
                tiles@,
                k + 1,
                width as int,
                height as int,
                i,
            ) {
                TileMark::Selectable
            } else {
                TileMark::Empty
            }) by {
                let here = t.x < width && t.y < height && t.y * width + t.x == i;
                if here {
                    assert(tiles@[k as int] == t);
                    assert(covers(tiles@, k + 1, width as int, height as int, i));
                } else {
                    if covers(tiles@, k + 1, width as int, height as int, i) {
                        let m = choose|m: int|
                            0 <= m < k + 1 && (#[trigger] tiles@[m]).x < width && tiles@[m].y
                                < height && tiles@[m].y * width + tiles@[m].x == i;
                        assert(m < k);
                        assert(covers(tiles@, k as int, width as int, height as int, i));
                    }
                    if covers(tiles@, k as int, width as int, height as int, i) {
                        let m = choose|m: int|
                            0 <= m < k && (#[trigger] tiles@[m]).x < width && tiles@[m].y < height
                                && tiles@[m].y * width + tiles@[m].x == i;
                        assert(covers(tiles@, k + 1, width as int, height as int, i));
                    }
                    assert(!(t.x < width && t.y < height) || i != q);
                    assert(g.marks@[i] == before[i]);
                }
            }
            k = k + 1;
        }
        g
    }
}

} // verus!
