//! Level loading: turns a level description (a grid of tile layers and
//! layers of named objects) into placed tiles and gameplay markers.
use vstd::prelude::*;
use crate::creep::{Waypoint, EnemyFinish, EnemySpawner, SPAWN_PERIOD_MS};
use crate::geom::{Vec2i, COORD_MAX};
use crate::placement::BuildZone;
use crate::seqs::{kept, survivors, first_where, lemma_first_where_stable};
use crate::timer::RepeatingTimer;

verus! {

/// A cell of a tile layer: which tile of which tileset, and how it is
/// flipped (horizontally, vertically, diagonally).
#[derive(Clone, Copy, Debug, PartialEq, Eq, Structural)]
pub struct TileCell {
    pub tileset: usize,
    pub id: u32,
    pub flip_h: bool,
    pub flip_v: bool,
    pub flip_d: bool,
}

/// A tileset: one image cut into tiles (`image_tiles` is none, and a tile's
/// id is its texture index), or one image per tile, for the tiles listed in
/// `image_tiles`, whose texture index is their place in that list.
#[derive(Debug)]
pub struct Tileset {
    pub image_tiles: Option<Vec<u32>>,
}

/// A layer of tiles: `cells[row * width + column]`, rows from the top.
#[derive(Debug)]
pub struct TileLayer {
    pub offset_x: i64,
    pub offset_y: i64,
    pub cells: Vec<Option<TileCell>>,
}

#[derive(Clone, Copy, Debug, PartialEq, Eq, Structural)]
pub enum ObjectShape {
    Rect { width: i64, height: i64 },
    Other,
}

/// An object of an object layer, at `(x, y)` measured from the top-left
/// corner of the map, downward; `waypoint` is its integer `waypoint`
/// property, if it has one.
#[derive(Debug)]
pub struct LevelObject {
    pub name: String,
    pub user_type: String,
    pub x: i64,
    pub y: i64,
    pub shape: ObjectShape,
    pub waypoint: Option<i32>,
}

#[derive(Debug)]
pub struct ObjectLayer {
    pub offset_x: i64,
    pub offset_y: i64,
    pub objects: Vec<LevelObject>,
}

#[derive(Debug)]
pub enum Layer {
    Tiles(TileLayer),
    Objects(ObjectLayer),
    Unsupported,
}

/// A level: `width` by `height` tiles of `tile_width` by `tile_height`
/// position units.
#[derive(Debug)]
pub struct Level {
    pub width: u32,
    pub height: u32,
    pub tile_width: i64,
    pub tile_height: i64,
    pub tilesets: Vec<Tileset>,
    pub layers: Vec<Layer>,
}

/// A tile placed on the grid, at column `x` and row `y` counted from the
/// bottom.
#[derive(Clone, Copy, Debug, PartialEq, Eq, Structural)]
pub struct PlacedTile {
    pub layer: usize,
    pub tileset: usize,
    pub x: u32,
    pub y: u32,
    pub texture_index: usize,
    pub flip_h: bool,
    pub flip_v: bool,
    pub flip_d: bool,
}

/// A gameplay object of the level, at a position measured from the
/// bottom-left corner of the map, upward.
#[derive(Clone, Copy, Debug, PartialEq, Eq, Structural)]
pub enum Marker {
    Waypoint(Waypoint),
    Finish(EnemyFinish),
    Spawner(EnemySpawner),
    Zone(BuildZone),
}

#[derive(Clone, Copy, Debug, PartialEq, Eq, Structural)]
pub enum ObjectKind {
    Waypoint,
    EnemyFinish,
    EnemySpawner,
    BuildZone,
    Unknown,
}

/// The kind named by an object's type.
pub open spec fn kind_named(t: Seq<char>) -> ObjectKind {
    if t == "Waypoint"@ {
        ObjectKind::Waypoint
    } else if t == "EnemyFinish"@ {
        ObjectKind::EnemyFinish
    } else if t == "EnemySpawner"@ {
        ObjectKind::EnemySpawner
    } else if t == "BuildZone"@ {
        ObjectKind::BuildZone
    } else {
        ObjectKind::Unknown
    }
}

pub fn object_kind(t: &String) -> (r: ObjectKind)
    ensures
        r == kind_named(t@),
{
    if *t == "Waypoint".to_owned() {
        ObjectKind::Waypoint
    } else if *t == "EnemyFinish".to_owned() {
        ObjectKind::EnemyFinish
    } else if *t == "EnemySpawner".to_owned() {
        ObjectKind::EnemySpawner
    } else if *t == "BuildZone".to_owned() {
        ObjectKind::BuildZone
    } else {
        ObjectKind::Unknown
    }
}

pub open spec fn in_world(x: int, y: int) -> bool {
    -COORD_MAX <= x <= COORD_MAX && -COORD_MAX <= y <= COORD_MAX
}

pub open spec fn min_of(a: int, b: int) -> int {
    if a <= b {
        a
    } else {
        b
    }
}

pub open spec fn max_of(a: int, b: int) -> int {
    if a <= b {
        b
    } else {
        a
    }
}

/// The marker an object stands for, its position flipped from top-down to
/// bottom-up. Objects of an unknown type, waypoints without an index, and
/// objects that fall outside the world are skipped. A build zone spans the
/// object's rectangle (a point, for another shape).
pub open spec fn marker_of(level: Level, ox: int, oy: int, o: LevelObject) -> Option<Marker> {
    let mx = o.x + ox;
    let my = level.height * level.tile_height - (o.y + oy);
    let p = Vec2i { x: mx as i64, y: my as i64 };
    if !in_world(mx, my) {
        None
    } else {
        match kind_named(o.user_type@) {
            ObjectKind::Waypoint => match o.waypoint {
                Some(i) => Some(Marker::Waypoint(Waypoint { index: i, position: p })),
                None => None,
            },
            ObjectKind::EnemyFinish => Some(Marker::Finish(EnemyFinish { position: p })),
            ObjectKind::EnemySpawner => Some(
                Marker::Spawner(
                    EnemySpawner {
                        timer: RepeatingTimer { duration_ms: SPAWN_PERIOD_MS, elapsed_ms: 0 },
                        position: p,
                    },
                ),
            ),
            ObjectKind::BuildZone => {
                let (w, h) = match o.shape {
                    ObjectShape::Rect { width, height } => (width as int, height as int),
                    ObjectShape::Other => (0, 0),
                };
                if !in_world(mx + w, my - h) {
                    None
                } else {
                    Some(
                        Marker::Zone(
                            BuildZone {
                                min: Vec2i {
                                    x: min_of(mx, mx + w) as i64,
                                    y: min_of(my, my - h) as i64,
                                },
                                max: Vec2i {
                                    x: max_of(mx, mx + w) as i64,
                                    y: max_of(my, my - h) as i64,
                                },
                            },
                        ),
                    )
                }
            },
            ObjectKind::Unknown => None,
        }
    }
}

/// Texture index of a cell; none when its tileset is missing or has no image
/// for it.
pub open spec fn texture_of(level: Level, cell: TileCell) -> Option<usize> {
    if cell.tileset >= level.tilesets@.len() {
        None
    } else {
        match level.tilesets@[cell.tileset as int].image_tiles {
            None => Some(cell.id as usize),
            Some(ids) => match first_where(ids@, |t: u32| t == cell.id, ids@.len() as int) {
                Some(k) => Some(k as usize),
                None => None,
            },
        }
    }
}

/// Number of cells of a tile layer that lie on the grid.
pub open spec fn cell_count(level: Level, t: TileLayer) -> int {
    min_of(t.cells@.len() as int, level.width * level.height)
}

/// The tile placed for cell `i` of tile layer `l`, if any.
pub open spec fn placed(level: Level, l: int, t: TileLayer, i: int) -> Option<PlacedTile> {
    match t.cells@[i] {
        None => None,
        Some(cell) => match texture_of(level, cell) {
            None => None,
            Some(tex) => Some(
                PlacedTile {
                    layer: l as usize,
                    tileset: cell.tileset,
                    x: (i % (level.width as int)) as u32,
                    y: (level.height - 1 - i / (level.width as int)) as u32,
                    texture_index: tex,
                    flip_h: cell.flip_h,
                    flip_v: cell.flip_v,
                    flip_d: cell.flip_d,
                },
            ),
        },
    }
}

/// The tiles of layer `l`, in cell order.
pub open spec fn layer_tiles(level: Level, l: int) -> Seq<PlacedTile> {
    match level.layers@[l] {
        Layer::Tiles(t) => survivors(
            Seq::new(cell_count(level, t) as nat, |i: int| placed(level, l, t, i)),
        ),
        _ => Seq::empty(),
    }
}

/// The markers of layer `l`, in object order.
pub open spec fn layer_markers(level: Level, l: int) -> Seq<Marker> {
    match level.layers@[l] {
        Layer::Objects(ol) => survivors(
            ol.objects@.map_values(
                |o: LevelObject| marker_of(level, ol.offset_x as int, ol.offset_y as int, o),
            ),
        ),
        _ => Seq::empty(),
    }
}

pub open spec fn tiles_upto(level: Level, n: int) -> Seq<PlacedTile>
    decreases n,
{
    if n <= 0 || n > level.layers@.len() {
        Seq::empty()
    } else {
        tiles_upto(level, n - 1) + layer_tiles(level, n - 1)
    }
}

pub open spec fn markers_upto(level: Level, n: int) -> Seq<Marker>
    decreases n,
{
    if n <= 0 || n > level.layers@.len() {
        Seq::empty()
    } else {
        markers_upto(level, n - 1) + layer_markers(level, n - 1)
    }
}

/// All tiles of the level, layer by layer.
pub open spec fn level_tiles(level: Level) -> Seq<PlacedTile> {
    tiles_upto(level, level.layers@.len() as int)
}

/// All markers of the level, layer by layer.
pub open spec fn level_markers(level: Level) -> Seq<Marker> {
    markers_upto(level, level.layers@.len() as int)
}

/// What loading a level produces.
#[derive(Debug)]
pub struct LoadedLevel {
    pub tiles: Vec<PlacedTile>,
    pub markers: Vec<Marker>,
}

impl Level {
    /// See `texture_of`.
    pub fn texture_index(&self, cell: TileCell) -> (r: Option<usize>)
        ensures
            r == texture_of(*self, cell),
    {
        if cell.tileset >= self.tilesets.len() {
            return None;
        }
        match &self.tilesets[cell.tileset].image_tiles {
            None => Some(cell.id as usize),
            Some(ids) => {
                let mut k: usize = 0;
                while k < ids.len()
                    invariant
                        k <= ids@.len(),
                        cell.tileset < self.tilesets@.len(),
                        self.tilesets@[cell.tileset as int].image_tiles == Some(*ids),
                        first_where(ids@, |t: u32| t == cell.id, k as int) is None,
                    decreases ids@.len() - k,
                {
                    if ids[k] == cell.id {
                        proof {
                            lemma_first_where_stable(ids@, |t: u32| t == cell.id, k + 1, ids@.len() as int);
                        }
                        return Some(k);
                    }
                    k = k + 1;
                }
                None
            },
        }
    }

    /// See `marker_of`.
    pub fn marker(&self, ox: i64, oy: i64, o: &LevelObject) -> (r: Option<Marker>)
        ensures
            r == marker_of(*self, ox as int, oy as int, *o),
    {
        assert(-0x8000_0000_0000_0000_0000_0000 <= self.height * self.tile_height
            <= 0x8000_0000_0000_0000_0000_0000) by (nonlinear_arith)
            requires
                0 <= self.height <= 0xffff_ffff,
                -0x8000_0000_0000_0000 <= self.tile_height < 0x8000_0000_0000_0000,
        ;
        let mx: i128 = o.x as i128 + ox as i128;
        let my: i128 = self.height as i128 * self.tile_height as i128 - (o.y as i128 + oy as i128);
        let lim: i128 = COORD_MAX as i128;
        if mx < -lim || mx > lim || my < -lim || my > lim {
            return None;
        }
        let p = Vec2i::new(mx as i64, my as i64);
        match object_kind(&o.user_type) {
            ObjectKind::Waypoint => match o.waypoint {
                Some(i) => Some(Marker::Waypoint(Waypoint { index: i, position: p })),
                None => None,
            },
            ObjectKind::EnemyFinish => Some(Marker::Finish(EnemyFinish { position: p })),
            ObjectKind::EnemySpawner => Some(Marker::Spawner(EnemySpawner::new(p))),
            ObjectKind::BuildZone => {
                let (w, h): (i64, i64) = match o.shape {
                    ObjectShape::Rect { width, height } => (width, height),
                    ObjectShape::Other => (0, 0),
                };
                let ex: i128 = mx + w as i128;
                let ey: i128 = my - h as i128;
                if ex < -lim || ex > lim || ey < -lim || ey > lim {
                    return None;
                }
                Some(Marker::Zone(BuildZone::from_corners(mx as i64, my as i64, ex as i64, ey as i64)))
            },
            ObjectKind::Unknown => None,
        }
    }
}

/// Places the tiles of one tile layer, appending them to `out`.
fn place_layer_tiles(level: &Level, l: usize, t: &TileLayer, out: &mut Vec<PlacedTile>)
    ensures
        final(out)@ == old(out)@ + survivors(
            Seq::new(cell_count(*level, *t) as nat, |i: int| placed(*level, l as int, *t, i)),
        ),
{
    let ghost steps = Seq::new(cell_count(*level, *t) as nat, |i: int| placed(*level, l as int, *t, i));
    let ghost start = out@;
    assert(level.width * level.height <= 0xffff_ffff * 0xffff_ffff) by (nonlinear_arith)
        requires
            0 <= level.width <= 0xffff_ffff,
            0 <= level.height <= 0xffff_ffff,
    ;
    let area: u64 = level.width as u64 * level.height as u64;
    let n: usize = if (t.cells.len() as u64) < area {
        t.cells.len()
    } else {
        area as usize
    };
    assert(n == cell_count(*level, *t));
    let mut i: usize = 0;
    while i < n
        invariant
            i <= n,
            n == steps.len(),
            n <= t.cells@.len(),
            n <= level.width * level.height,
            steps == Seq::new(cell_count(*level, *t) as nat, |i: int| placed(*level, l as int, *t, i)),
            out@ == start + kept(steps, i as int),
        decreases n - i,
    {
        match t.cells[i] {
            None => {},
            Some(cell) => match level.texture_index(cell) {
                None => {},
                Some(tex) => {
                    assert(level.width > 0) by (nonlinear_arith)
                        requires
                            i < level.width * level.height,
                            0 <= level.width,
                            0 <= level.height,
                    ;
                    let x: u64 = i as u64 % level.width as u64;
                    let row: u64 = i as u64 / level.width as u64;
                    proof {
                        assert(row < level.height) by (nonlinear_arith)
                            requires
                                row == (i as int) / (level.width as int),
                                i < level.width * level.height,
                                level.width > 0,
                        ;
                    }
                    out.push(
                        PlacedTile {
                            layer: l,
                            tileset: cell.tileset,
                            x: x as u32,
                            y: (level.height as u64 - 1 - row) as u32,
                            texture_index: tex,
                            flip_h: cell.flip_h,
                            flip_v: cell.flip_v,
                            flip_d: cell.flip_d,
                        },
                    );
                },
            },
        }
        assert(out@ == start + kept(steps, i + 1));
        i = i + 1;
    }
}

/// Turns the objects of one object layer into markers, appending them to
/// `out`.
fn place_layer_markers(level: &Level, ol: &ObjectLayer, out: &mut Vec<Marker>)
    ensures
        final(out)@ == old(out)@ + survivors(
            ol.objects@.map_values(
                |o: LevelObject| marker_of(*level, ol.offset_x as int, ol.offset_y as int, o),
            ),
        ),
{
    let ghost steps = ol.objects@.map_values(
        |o: LevelObject| marker_of(*level, ol.offset_x as int, ol.offset_y as int, o),
    );
    let ghost start = out@;
    let mut i: usize = 0;
    while i < ol.objects.len()
        invariant
            i <= ol.objects@.len(),
            steps.len() == ol.objects@.len(),
            steps == ol.objects@.map_values(
                |o: LevelObject| marker_of(*level, ol.offset_x as int, ol.offset_y as int, o),
            ),
            out@ == start + kept(steps, i as int),
        decreases ol.objects@.len() - i,
    {
        let m = level.marker(ol.offset_x, ol.offset_y, &ol.objects[i]);
        assert(steps[i as int] == m);
        match m {
            Some(v) => out.push(v),
            None => {},
        }
        assert(out@ == start + kept(steps, i + 1));
        i = i + 1;
    }
}

/// Loads a level: every tile of every tile layer, and one marker for every
/// recognised object of every object layer; other layers are skipped.
pub fn process_loaded_maps(level: &Level) -> (r: LoadedLevel)
    ensures
        r.tiles@ == level_tiles(*level),
        r.markers@ == level_markers(*level),
{
    let mut tiles: Vec<PlacedTile> = Vec::new();
    let mut markers: Vec<Marker> = Vec::new();
    let mut l: usize = 0;
    while l < level.layers.len()
        invariant
            l <= level.layers@.len(),
            tiles@ == tiles_upto(*level, l as int),
            markers@ == markers_upto(*level, l as int),
        decreases level.layers@.len() - l,
    {
        match &level.layers[l] {
            Layer::Tiles(t) => place_layer_tiles(level, l, t, &mut tiles),
            Layer::Objects(ol) => place_layer_markers(level, ol, &mut markers),
            Layer::Unsupported => {},
        }
        assert(tiles@ =~= tiles_upto(*level, l + 1));
        assert(markers@ =~= markers_upto(*level, l + 1));
        l = l + 1;
    }
    LoadedLevel { tiles, markers }
}

/// The tiles and markers after loading `level` over what `before` held:
/// what was there is cleared, so only the level counts.
pub open spec fn reloaded(before: (Seq<PlacedTile>, Seq<Marker>), level: Level) -> (
    Seq<PlacedTile>,
    Seq<Marker>,
) {
    (level_tiles(level), level_markers(level))
}

impl LoadedLevel {
    /// Clears what an earlier load produced and loads `level` in its place.
    pub fn reload(&mut self, level: &Level)
        ensures
            (final(self).tiles@, final(self).markers@) == reloaded(
                (old(self).tiles@, old(self).markers@),
                *level,
            ),
    {
        self.tiles.clear();
        self.markers.clear();
        let mut fresh = process_loaded_maps(level);
        self.tiles.append(&mut fresh.tiles);
        self.markers.append(&mut fresh.markers);
    }
}

/// The markers of a level sorted by kind, each list in marker order.
#[derive(Debug)]
pub struct LevelSetup {
    pub waypoints: Vec<Waypoint>,
    pub finishes: Vec<EnemyFinish>,
    pub spawners: Vec<EnemySpawner>,
    pub build_zones: Vec<BuildZone>,
}

pub open spec fn as_waypoint(m: Marker) -> Option<Waypoint> {
    match m {
        Marker::Waypoint(w) => Some(w),
        _ => None,
    }
}

pub open spec fn as_finish(m: Marker) -> Option<EnemyFinish> {
    match m {
        Marker::Finish(f) => Some(f),
        _ => None,
    }
}

pub open spec fn as_spawner(m: Marker) -> Option<EnemySpawner> {
    match m {
        Marker::Spawner(s) => Some(s),
        _ => None,
    }
}

pub open spec fn as_zone(m: Marker) -> Option<BuildZone> {
    match m {
        Marker::Zone(z) => Some(z),
        _ => None,
    }
}

/// Sorts markers by kind.
pub fn sort_markers(markers: &Vec<Marker>) -> (r: LevelSetup)
    ensures
        r.waypoints@ == survivors(markers@.map_values(|m: Marker| as_waypoint(m))),
        r.finishes@ == survivors(markers@.map_values(|m: Marker| as_finish(m))),
        r.spawners@ == survivors(markers@.map_values(|m: Marker| as_spawner(m))),
        r.build_zones@ == survivors(markers@.map_values(|m: Marker| as_zone(m))),
{
    let ghost sw = markers@.map_values(|m: Marker| as_waypoint(m));
    let ghost sf = markers@.map_values(|m: Marker| as_finish(m));
    let ghost ss = markers@.map_values(|m: Marker| as_spawner(m));
    let ghost sz = markers@.map_values(|m: Marker| as_zone(m));
    let mut r = LevelSetup {
        waypoints: Vec::new(),
        finishes: Vec::new(),
        spawners: Vec::new(),
        build_zones: Vec::new(),
    };
    let mut i: usize = 0;
    while i < markers.len()
        invariant
            i <= markers@.len(),
            sw == markers@.map_values(|m: Marker| as_waypoint(m)),
            sf == markers@.map_values(|m: Marker| as_finish(m)),
            ss == markers@.map_values(|m: Marker| as_spawner(m)),
            sz == markers@.map_values(|m: Marker| as_zone(m)),
            r.waypoints@ == kept(sw, i as int),
            r.finishes@ == kept(sf, i as int),
            r.spawners@ == kept(ss, i as int),
            r.build_zones@ == kept(sz, i as int),
        decreases markers@.len() - i,
    {
        match markers[i] {
            Marker::Waypoint(w) => r.waypoints.push(w),
            Marker::Finish(f) => r.finishes.push(f),
            Marker::Spawner(s) => r.spawners.push(s),
            Marker::Zone(z) => r.build_zones.push(z),
        }
        i = i + 1;
    }
    r
}

} // verus!
