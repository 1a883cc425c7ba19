use touhou_shmup::animation::{advance_once, cycle_frame, update_player_sprites};

#[test]
fn looping_animation_wraps_after_last_frame() {
    assert_eq!(cycle_frame(0, 2), 1);
    assert_eq!(cycle_frame(1, 2), 2);
    assert_eq!(cycle_frame(2, 2), 0);
    assert_eq!(cycle_frame(7, 2), 0);
    assert_eq!(cycle_frame(9, 9), 0);
}

#[test]
fn looping_animation_stays_in_range() {
    let mut frame = 0;
    for _ in 0..50 {
        frame = cycle_frame(frame, 4);
        assert!(frame <= 4);
    }
}

#[test]
fn one_shot_animation_stops_on_last_frame() {
    assert_eq!(advance_once(3, 4), 4);
    assert_eq!(advance_once(4, 4), 4);
    assert_eq!(advance_once(0, 4), 1);
}

#[test]
fn player_sprite_follows_direction_keys() {
    assert_eq!(update_player_sprites(0, true, false, false), 3);
    assert_eq!(update_player_sprites(0, false, true, false), 4);
    assert_eq!(update_player_sprites(1, true, true, true), 4);
    assert_eq!(update_player_sprites(1, false, false, true), 2);
    assert_eq!(update_player_sprites(2, false, false, true), 0);
    assert_eq!(update_player_sprites(4, false, false, true), 0);
    assert_eq!(update_player_sprites(1, false, false, false), 1);
}
