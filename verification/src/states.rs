use vstd::prelude::*;

verus! {

/// The top-level state of the game.
#[derive(Clone, Copy, Debug, PartialEq, Eq, Hash, Structural)]
pub enum GameState {
    Running,
    Paused,
    Reset,
    Discussion,
    EndGame,
}

/// Which page of the pause menu is shown.
#[derive(Clone, Copy, Debug, PartialEq, Eq, Hash, Structural)]
pub enum MenuState {
    Nothing,
    Main,
    SettingsSound,
}

/// What a button of the pause menu does when pressed.
#[derive(Clone, Copy, Debug, PartialEq, Eq, Structural)]
pub enum MenuButtonAction {
    Reset,
    SettingsSound,
    Resume,
    Main,
}

/// The pointer interaction a button currently reports.
#[derive(Clone, Copy, Debug, PartialEq, Eq, Structural)]
pub enum Interaction {
    Pressed,
    Hovered,
    Idle,
}

/// The background colour class a button is painted with.
#[derive(Clone, Copy, Debug, PartialEq, Eq, Structural)]
pub enum ButtonLook {
    Normal,
    Hovered,
    HoveredPressed,
    Pressed,
}

/// The states requested by one key press or button press: a new game state
/// and a new menu page, each only where the input asks for one.
#[derive(Clone, Copy, Debug, PartialEq, Eq, Structural)]
pub struct StateRequest {
    pub game: Option<GameState>,
    pub menu: Option<MenuState>,
}

/// The game state that the pause key leads to from `state`.
pub open spec fn escape_target(state: GameState) -> GameState {
    if state == GameState::Paused {
        GameState::Running
    } else {
        GameState::Paused
    }
}

/// The pause key: from any state but `Paused` the game pauses; from `Paused`
/// it resumes and the menu is closed.
pub fn switch_pause(state: GameState) -> (req: StateRequest)
    ensures
        req.game == Some(escape_target(state)),
        req.menu == (if state == GameState::Paused {
            Some(MenuState::Nothing)
        } else {
            None::<MenuState>
        }),
{
    if state != GameState::Paused {
        StateRequest { game: Some(GameState::Paused), menu: None }
    } else {
        StateRequest { game: Some(GameState::Running), menu: Some(MenuState::Nothing) }
    }
}

/// Pressing the pause key twice from a running or paused game comes back to
/// the state it started from.
pub proof fn lemma_pause_twice_restores(state: GameState)
    requires
        state == GameState::Running || state == GameState::Paused,
    ensures
        escape_target(escape_target(state)) == state,
{
}

/// From any state, the pause key lands in `Running` or `Paused`, and two
/// presses always end where one press from that landing state leads.
pub proof fn lemma_pause_lands_in_play(state: GameState)
    ensures
        escape_target(state) == GameState::Running || escape_target(state) == GameState::Paused,
        escape_target(escape_target(escape_target(state))) == escape_target(state),
{
}

/// The states that a menu button asks for when it is pressed.
pub fn button_system_action(action: MenuButtonAction) -> (req: StateRequest)
    ensures
        req == (match action {
            MenuButtonAction::Reset => StateRequest { game: Some(GameState::Reset), menu: None },
            MenuButtonAction::SettingsSound => StateRequest {
                game: None,
                menu: Some(MenuState::SettingsSound),
            },
            MenuButtonAction::Resume => StateRequest {
                game: Some(GameState::Running),
                menu: Some(MenuState::Nothing),
            },
            MenuButtonAction::Main => StateRequest { game: None, menu: Some(MenuState::Main) },
        }),
{
    match action {
        MenuButtonAction::Reset => StateRequest { game: Some(GameState::Reset), menu: None },
        MenuButtonAction::SettingsSound => StateRequest {
            game: None,
            menu: Some(MenuState::SettingsSound),
        },
        MenuButtonAction::Resume => StateRequest {
            game: Some(GameState::Running),
            menu: Some(MenuState::Nothing),
        },
        MenuButtonAction::Main => StateRequest { game: None, menu: Some(MenuState::Main) },
    }
}

/// The look of a button whose interaction just changed; `selected` tells
/// whether it is the chosen option of its group.
pub fn button_system(interaction: Interaction, selected: bool) -> (look: ButtonLook)
    ensures
        look == (match interaction {
            Interaction::Pressed => ButtonLook::Pressed,
            Interaction::Hovered => if selected {
                ButtonLook::HoveredPressed
            } else {
                ButtonLook::Hovered
            },
            Interaction::Idle => if selected {
                ButtonLook::Pressed
            } else {
                ButtonLook::Normal
            },
        }),
{
    match interaction {
        Interaction::Hovered => if selected {
            ButtonLook::HoveredPressed
        } else {
            ButtonLook::Hovered
        },
        Interaction::Idle => if selected {
            ButtonLook::Pressed
        } else {
            ButtonLook::Normal
        },
        Interaction::Pressed => ButtonLook::Pressed,
    }
}

/// A button that is neither selected nor interacted with goes back to the
/// normal look; any other button keeps its look (`None`).
pub fn reset_unselected_buttons(interaction: Interaction, selected: bool) -> (look: Option<
    ButtonLook,
>)
    ensures
        look == (if !selected && interaction == Interaction::Idle {
            Some(ButtonLook::Normal)
        } else {
            None::<ButtonLook>
        }),
{
    if !selected && interaction == Interaction::Idle {
        Some(ButtonLook::Normal)
    } else {
        None
    }
}

/// Once the player is gone the game is reset.
pub fn check_if_dead(player_present: bool) -> (next: Option<GameState>)
    ensures
        next == (if player_present {
            None::<GameState>
        } else {
            Some(GameState::Reset)
        }),
{
    if !player_present {
        Some(GameState::Reset)
    } else {
        None
    }
}

/// The hitbox key (Y) shows the player's hitbox when hidden and hides it
/// when shown.
pub fn toggle_hitbox(shown: bool, key_pressed: bool) -> (now_shown: bool)
    ensures
        now_shown == (shown != key_pressed),
{
    if key_pressed {
        !shown
    } else {
        shown
    }
}

} // verus!
