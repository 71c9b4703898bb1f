use ioni_td::combat::{Tower, TowerType};
use ioni_td::geom::Vec2i;
use ioni_td::level::PlacedTile;
use ioni_td::modes::{
    can_build, interact_with_build_action, BuildTower, ButtonOutcome, GameState, Interaction,
    UiState,
};
use ioni_td::placement::{BuildGrid, BuildZone, MouseButton, MouseClick, TileMark};

fn tile(x: u32, y: u32) -> PlacedTile {
    PlacedTile { layer: 0, tileset: 0, x, y, texture_index: 0, flip_h: false, flip_v: false, flip_d: false }
}

fn grid() -> BuildGrid {
    BuildGrid::with_tiles(2, 2, 64_000, 64_000, Vec2i::new(0, 0), &vec![tile(0, 1), tile(0, 0), tile(7, 0)])
}

fn zones() -> Vec<BuildZone> {
    vec![BuildZone { min: Vec2i::new(0, 64_000), max: Vec2i::new(64_000, 128_000) }]
}

fn release(button: MouseButton) -> MouseClick {
    MouseClick { button, released: true }
}

#[test]
fn grid_marks_cells_with_tiles() {
    let g = grid();
    assert_eq!(g.marks, vec![TileMark::Selectable, TileMark::Empty, TileMark::Selectable, TileMark::Empty]);
}

#[test]
fn zone_from_corners_in_any_order() {
    let z = BuildZone::from_corners(10, 50, 30, 20);
    assert_eq!(z, BuildZone { min: Vec2i::new(10, 20), max: Vec2i::new(30, 50) });
    assert!(z.contains_point(Vec2i::new(10, 50)));
    assert!(!z.contains_point(Vec2i::new(31, 30)));
}

#[test]
fn cursor_maps_to_tiles() {
    let g = grid();
    assert_eq!(g.tile_at_point(Vec2i::new(10_000, 70_000)), Some((0, 1)));
    assert_eq!(g.tile_at_point(Vec2i::new(40_000, 70_000)), Some((1, 1)));
    assert_eq!(g.tile_at_point(Vec2i::new(-31_000, 0)), Some((0, 0)));
    assert_eq!(g.tile_at_point(Vec2i::new(-40_000, 0)), None);
    assert_eq!(g.tile_at_point(Vec2i::new(0, 100_000)), None);
}

#[test]
fn tile_in_zone_is_selected() {
    let mut g = grid();
    g.select_build_zone(Vec2i::new(10_000, 70_000), &zones());
    assert_eq!(g.marks[2], TileMark::Selected);
    assert_eq!(g.find_selected(), Some(2));
}

#[test]
fn moving_the_cursor_clears_the_selection() {
    let mut g = grid();
    g.select_build_zone(Vec2i::new(10_000, 70_000), &zones());
    g.select_build_zone(Vec2i::new(10_000, 10_000), &zones());
    assert_eq!(g.find_selected(), None);
    g.select_build_zone(Vec2i::new(10_000, 70_000), &zones());
    g.select_build_zone(Vec2i::new(-40_000, 0), &zones());
    assert_eq!(g.find_selected(), None);
    g.select_build_zone(Vec2i::new(10_000, 70_000), &zones());
    g.unselect_build_zone();
    assert_eq!(g.find_selected(), None);
}

#[test]
fn empty_cell_cannot_be_selected() {
    let mut g = grid();
    let z = vec![BuildZone { min: Vec2i::new(0, 0), max: Vec2i::new(200_000, 200_000) }];
    g.select_build_zone(Vec2i::new(40_000, 70_000), &z);
    assert_eq!(g.find_selected(), None);
}

#[test]
fn left_release_builds_on_the_selected_tile() {
    let mut g = grid();
    g.select_build_zone(Vec2i::new(10_000, 70_000), &zones());
    let clicks = vec![
        release(MouseButton::Right),
        MouseClick { button: MouseButton::Left, released: false },
        release(MouseButton::Left),
    ];
    let t = g.build_tower_at_click(&clicks, TowerType::Bomb).unwrap();
    assert_eq!(t, Tower::build(TowerType::Bomb, Vec2i::new(0, 64_000)));
    assert_eq!(g.marks[2], TileMark::Built);
    assert_eq!(g.find_selected(), None);
    // a built tile is not selected again
    g.select_build_zone(Vec2i::new(10_000, 70_000), &zones());
    assert_eq!(g.marks[2], TileMark::Built);
    assert_eq!(g.build_tower_at_click(&clicks, TowerType::Arrow), None);
}

#[test]
fn no_build_without_left_release_or_selection() {
    let mut g = grid();
    assert_eq!(g.build_tower_at_click(&vec![release(MouseButton::Left)], TowerType::Arrow), None);
    g.select_build_zone(Vec2i::new(10_000, 70_000), &zones());
    assert_eq!(g.build_tower_at_click(&vec![release(MouseButton::Middle)], TowerType::Arrow), None);
    assert_eq!(g.marks[2], TileMark::Selected);
}

#[test]
fn building_needs_building_mode_and_idle_ui() {
    assert!(can_build(GameState::Building, UiState::Nothing));
    assert!(!can_build(GameState::Building, UiState::ChoosingAction));
    assert!(!can_build(GameState::Playing, UiState::Nothing));
    assert!(!can_build(GameState::Paused, UiState::Nothing));
}

#[test]
fn build_button_toggles_building_mode() {
    let arrow = BuildTower::new();
    assert_eq!(arrow.tower_type, TowerType::Arrow);
    let on = interact_with_build_action(Interaction::Clicked, GameState::Playing, TowerType::Bomb, arrow);
    assert_eq!(
        on,
        ButtonOutcome {
            next_game_state: Some(GameState::Building),
            next_ui_state: UiState::ChoosingAction,
            build: BuildTower { tower_type: TowerType::Bomb },
        }
    );
    let off = interact_with_build_action(Interaction::Clicked, GameState::Building, TowerType::Arrow, on.build);
    assert_eq!(off.next_game_state, Some(GameState::Playing));
    assert_eq!(off.build.tower_type, TowerType::Bomb);
    let hover = interact_with_build_action(Interaction::Hovered, GameState::Playing, TowerType::Arrow, arrow);
    assert_eq!(hover.next_ui_state, UiState::ChoosingAction);
    assert_eq!(hover.next_game_state, None);
    let idle = interact_with_build_action(Interaction::Idle, GameState::Building, TowerType::Arrow, arrow);
    assert_eq!(idle.next_ui_state, UiState::Nothing);
}
