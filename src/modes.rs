//! Game modes: when building is allowed, and what the build buttons do.
use vstd::prelude::*;
use crate::combat::TowerType;

verus! {

#[derive(Clone, Copy, Debug, PartialEq, Eq, Structural)]
pub enum GameState {
    Playing,
    Building,
    Paused,
}

#[derive(Clone, Copy, Debug, PartialEq, Eq, Structural)]
pub enum UiState {
    Nothing,
    ChoosingAction,
}

/// The state of a button under the pointer.
#[derive(Clone, Copy, Debug, PartialEq, Eq, Structural)]
pub enum Interaction {
    Clicked,
    Hovered,
    Idle,
}

/// The tower type chosen for the next build.
#[derive(Clone, Copy, Debug, PartialEq, Eq, Structural)]
pub struct BuildTower {
    pub tower_type: TowerType,
}

impl BuildTower {
    pub fn new() -> (r: BuildTower)
        ensures
            r.tower_type == TowerType::Arrow,
    {
        BuildTower { tower_type: TowerType::Arrow }
    }
}

/// Towers can be placed while building with the pointer off the buttons.
pub fn can_build(game_state: GameState, ui_state: UiState) -> (r: bool)
    ensures
        r == (game_state == GameState::Building && ui_state == UiState::Nothing),
{
    game_state == GameState::Building && ui_state == UiState::Nothing
}

/// What a build button asks for: the game state to switch to, if any, the
/// UI state, and the tower type to build.
#[derive(Clone, Copy, Debug, PartialEq, Eq, Structural)]
pub struct ButtonOutcome {
    pub next_game_state: Option<GameState>,
    pub next_ui_state: UiState,
    pub build: BuildTower,
}

/// A click on the button for `action` leaves building mode if it is on, and
/// otherwise enters it with that tower type; the pointer over a button means
/// the UI is being used.
pub fn interact_with_build_action(
    interaction: Interaction,
    game_state: GameState,
    action: TowerType,
    build: BuildTower,
) -> (r: ButtonOutcome)
    ensures
        r == (match interaction {
            Interaction::Clicked => if game_state == GameState::Building {
                ButtonOutcome {
                    next_game_state: Some(GameState::Playing),
                    next_ui_state: UiState::ChoosingAction,
                    build,
                }
            } else {
                ButtonOutcome {
                    next_game_state: Some(GameState::Building),
                    next_ui_state: UiState::ChoosingAction,
                    build: BuildTower { tower_type: action },
                }
            },
            Interaction::Hovered => ButtonOutcome {
                next_game_state: None,
                next_ui_state: UiState::ChoosingAction,
                build,
            },
            Interaction::Idle => ButtonOutcome {
                next_game_state: None,
                next_ui_state: UiState::Nothing,
                build,
            },
        }),
{
    match interaction {
        Interaction::Clicked => {
            if game_state == GameState::Building {
                ButtonOutcome {
                    next_game_state: Some(GameState::Playing),
                    next_ui_state: UiState::ChoosingAction,
                    build,
                }
            } else {
                ButtonOutcome {
                    next_game_state: Some(GameState::Building),
                    next_ui_state: UiState::ChoosingAction,
                    build: BuildTower { tower_type: action },
                }
            }
        },
        Interaction::Hovered => ButtonOutcome {
            next_game_state: None,
            next_ui_state: UiState::ChoosingAction,
            build,
        },
        Interaction::Idle => ButtonOutcome {
            next_game_state: None,
            next_ui_state: UiState::Nothing,
            build,
        },
    }
}

} // verus!
