use ioni_td::creep::{EnemyFinish, EnemySpawner, Waypoint};
use ioni_td::geom::Vec2i;
use ioni_td::level::{
    object_kind, process_loaded_maps, sort_markers, Layer, Level, LevelObject, LoadedLevel,
    Marker, ObjectKind, ObjectLayer, ObjectShape, PlacedTile, TileCell, TileLayer, Tileset,
};
use ioni_td::placement::BuildZone;
use ioni_td::timer::RepeatingTimer;
use ioni_td::world::World;

fn object(user_type: &str, x: i64, y: i64, waypoint: Option<i32>, shape: ObjectShape) -> LevelObject {
    LevelObject {
        name: format!("{user_type} object"),
        user_type: user_type.to_string(),
        x,
        y,
        shape,
        waypoint,
    }
}

fn cell(tileset: usize, id: u32, flip_h: bool) -> Option<TileCell> {
    Some(TileCell { tileset, id, flip_h, flip_v: false, flip_d: false })
}

fn sample_level() -> Level {
    Level {
        width: 2,
        height: 2,
        tile_width: 64_000,
        tile_height: 64_000,
        tilesets: vec![Tileset { image_tiles: None }, Tileset { image_tiles: Some(vec![5, 9]) }],
        layers: vec![
            Layer::Tiles(TileLayer {
                offset_x: 0,
                offset_y: 0,
                cells: vec![cell(0, 3, false), None, cell(1, 9, true), cell(1, 4, false)],
            }),
            Layer::Unsupported,
            Layer::Objects(ObjectLayer {
                offset_x: 0,
                offset_y: 0,
                objects: vec![
                    object("Waypoint", 10_000, 20_000, Some(0), ObjectShape::Other),
                    object("Waypoint", 10_000, 20_000, None, ObjectShape::Other),
                    object("EnemyFinish", 100_000, 64_000, None, ObjectShape::Other),
                    object("EnemySpawner", 0, 128_000, None, ObjectShape::Other),
                    object("BuildZone", 0, 0, None, ObjectShape::Rect { width: 64_000, height: 64_000 }),
                    object("Decoration", 0, 0, None, ObjectShape::Other),
                ],
            }),
        ],
    }
}

fn expected_tiles() -> Vec<PlacedTile> {
    vec![
        PlacedTile { layer: 0, tileset: 0, x: 0, y: 1, texture_index: 3, flip_h: false, flip_v: false, flip_d: false },
        PlacedTile { layer: 0, tileset: 1, x: 0, y: 0, texture_index: 1, flip_h: true, flip_v: false, flip_d: false },
    ]
}

fn expected_markers() -> Vec<Marker> {
    vec![
        Marker::Waypoint(Waypoint { index: 0, position: Vec2i::new(10_000, 108_000) }),
        Marker::Finish(EnemyFinish { position: Vec2i::new(100_000, 64_000) }),
        Marker::Spawner(EnemySpawner {
            timer: RepeatingTimer { duration_ms: 2000, elapsed_ms: 0 },
            position: Vec2i::new(0, 0),
        }),
        Marker::Zone(BuildZone { min: Vec2i::new(0, 64_000), max: Vec2i::new(64_000, 128_000) }),
    ]
}

#[test]
fn object_kinds_by_name() {
    assert_eq!(object_kind(&"Waypoint".to_string()), ObjectKind::Waypoint);
    assert_eq!(object_kind(&"EnemyFinish".to_string()), ObjectKind::EnemyFinish);
    assert_eq!(object_kind(&"EnemySpawner".to_string()), ObjectKind::EnemySpawner);
    assert_eq!(object_kind(&"BuildZone".to_string()), ObjectKind::BuildZone);
    assert_eq!(object_kind(&"waypoint".to_string()), ObjectKind::Unknown);
    assert_eq!(object_kind(&"".to_string()), ObjectKind::Unknown);
}

#[test]
fn loads_tiles_bottom_up_with_textures_and_flips() {
    let loaded = process_loaded_maps(&sample_level());
    assert_eq!(loaded.tiles, expected_tiles());
}

#[test]
fn loads_one_marker_per_recognised_object() {
    let loaded = process_loaded_maps(&sample_level());
    assert_eq!(loaded.markers, expected_markers());
}

#[test]
fn object_layer_offset_is_applied() {
    let mut level = sample_level();
    level.layers = vec![Layer::Objects(ObjectLayer {
        offset_x: 1000,
        offset_y: 2000,
        objects: vec![object("EnemyFinish", 0, 0, None, ObjectShape::Other)],
    })];
    let loaded = process_loaded_maps(&level);
    assert_eq!(loaded.markers, vec![Marker::Finish(EnemyFinish { position: Vec2i::new(1000, 126_000) })]);
    assert!(loaded.tiles.is_empty());
}

#[test]
fn objects_outside_the_world_are_skipped() {
    let mut level = sample_level();
    level.layers = vec![Layer::Objects(ObjectLayer {
        offset_x: 0,
        offset_y: 0,
        objects: vec![object("EnemyFinish", i64::MAX, 0, None, ObjectShape::Other)],
    })];
    assert!(process_loaded_maps(&level).markers.is_empty());
}

#[test]
fn reloading_the_same_level_changes_nothing() {
    let level = sample_level();
    let mut loaded = LoadedLevel { tiles: vec![], markers: vec![] };
    loaded.reload(&level);
    let first_tiles = loaded.tiles.clone();
    let first_markers = loaded.markers.clone();
    loaded.reload(&level);
    assert_eq!(loaded.tiles, first_tiles);
    assert_eq!(loaded.markers, first_markers);
    assert_eq!(loaded.tiles, expected_tiles());
    assert_eq!(loaded.markers, expected_markers());
}

#[test]
fn reloading_clears_the_previous_level() {
    let mut loaded = process_loaded_maps(&sample_level());
    let mut other = sample_level();
    other.layers = vec![Layer::Unsupported];
    loaded.reload(&other);
    assert!(loaded.tiles.is_empty());
    assert!(loaded.markers.is_empty());
}

#[test]
fn markers_sorted_and_world_set_up() {
    let loaded = process_loaded_maps(&sample_level());
    let setup = sort_markers(&loaded.markers);
    assert_eq!(setup.waypoints.len(), 1);
    assert_eq!(setup.finishes.len(), 1);
    assert_eq!(setup.spawners.len(), 1);
    assert_eq!(setup.build_zones.len(), 1);
    let w = World::from_setup(setup, Vec2i::new(-32_000, -32_000)).unwrap();
    assert_eq!(w.course.finish, Some(EnemyFinish { position: Vec2i::new(100_000, 64_000) }));
    assert!(w.spawner.is_some());
    assert!(w.creeps.is_empty());
}

#[test]
fn two_finishes_mean_no_finish() {
    let mut markers = expected_markers();
    markers.push(Marker::Finish(EnemyFinish { position: Vec2i::new(0, 0) }));
    let w = World::from_setup(sort_markers(&markers), Vec2i::new(0, 0)).unwrap();
    assert_eq!(w.course.finish, None);
    assert!(w.spawner.is_some());
}

#[test]
fn setup_out_of_the_world_is_refused() {
    let markers = expected_markers();
    assert!(World::from_setup(sort_markers(&markers), Vec2i::new(i64::MAX, 0)).is_none());
}

#[test]
fn empty_grid_places_no_tiles() {
    let mut level = sample_level();
    level.width = 0;
    let loaded = process_loaded_maps(&level);
    assert!(loaded.tiles.is_empty());
    assert_eq!(loaded.markers.len(), 4);
}
