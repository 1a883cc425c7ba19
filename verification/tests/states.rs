use touhou_shmup::states::{
    button_system, button_system_action, check_if_dead, toggle_hitbox, reset_unselected_buttons, switch_pause,
    ButtonLook, GameState, Interaction, MenuButtonAction, MenuState, StateRequest,
};

#[test]
fn escape_pauses_a_running_game() {
    let req = switch_pause(GameState::Running);
    assert_eq!(req, StateRequest { game: Some(GameState::Paused), menu: None });
}

#[test]
fn escape_resumes_a_paused_game_and_closes_menu() {
    let req = switch_pause(GameState::Paused);
    assert_eq!(req, StateRequest { game: Some(GameState::Running), menu: Some(MenuState::Nothing) });
}

#[test]
fn escape_from_reset_pauses() {
    assert_eq!(switch_pause(GameState::Reset).game, Some(GameState::Paused));
}

#[test]
fn escape_twice_restores_running() {
    let first = switch_pause(GameState::Running).game.unwrap();
    let second = switch_pause(first).game.unwrap();
    assert_eq!(second, GameState::Running);
    let back = switch_pause(switch_pause(GameState::Paused).game.unwrap()).game.unwrap();
    assert_eq!(back, GameState::Paused);
}

#[test]
fn menu_buttons_request_their_states() {
    assert_eq!(button_system_action(MenuButtonAction::Reset),
        StateRequest { game: Some(GameState::Reset), menu: None });
    assert_eq!(button_system_action(MenuButtonAction::SettingsSound),
        StateRequest { game: None, menu: Some(MenuState::SettingsSound) });
    assert_eq!(button_system_action(MenuButtonAction::Resume),
        StateRequest { game: Some(GameState::Running), menu: Some(MenuState::Nothing) });
    assert_eq!(button_system_action(MenuButtonAction::Main),
        StateRequest { game: None, menu: Some(MenuState::Main) });
}

#[test]
fn button_looks_follow_interaction_and_selection() {
    assert_eq!(button_system(Interaction::Hovered, true), ButtonLook::HoveredPressed);
    assert_eq!(button_system(Interaction::Hovered, false), ButtonLook::Hovered);
    assert_eq!(button_system(Interaction::Idle, false), ButtonLook::Normal);
    assert_eq!(button_system(Interaction::Idle, true), ButtonLook::Pressed);
    assert_eq!(button_system(Interaction::Pressed, false), ButtonLook::Pressed);
    assert_eq!(button_system(Interaction::Pressed, true), ButtonLook::Pressed);
}

#[test]
fn only_idle_unselected_buttons_are_reset() {
    assert_eq!(reset_unselected_buttons(Interaction::Idle, false), Some(ButtonLook::Normal));
    assert_eq!(reset_unselected_buttons(Interaction::Idle, true), None);
    assert_eq!(reset_unselected_buttons(Interaction::Hovered, false), None);
    assert_eq!(reset_unselected_buttons(Interaction::Pressed, false), None);
}

#[test]
fn missing_player_resets_the_game() {
    assert_eq!(check_if_dead(false), Some(GameState::Reset));
    assert_eq!(check_if_dead(true), None);
}

#[test]
fn hitbox_key_toggles_display() {
    assert!(toggle_hitbox(false, true));
    assert!(!toggle_hitbox(true, true));
    assert!(toggle_hitbox(true, false));
    assert!(!toggle_hitbox(false, false));
}
