use touhou_shmup::audio::{music_audible, toggle_mute, play_music_theme, sound_settigns_system, AudioSettings, MusicAction, MusicTrack};
use touhou_shmup::level::GamePhase;

#[test]
fn main_theme_starts_when_nothing_plays() {
    let mut cur = None;
    assert_eq!(play_music_theme(false, GamePhase::BossFight, &mut cur), MusicAction::Start(MusicTrack::MainTheme));
    assert_eq!(cur, Some(MusicTrack::MainTheme));
}

#[test]
fn boss_fight_switches_to_boss_theme_once() {
    let mut cur = Some(MusicTrack::MainTheme);
    assert_eq!(play_music_theme(true, GamePhase::BossFight, &mut cur), MusicAction::Replace(MusicTrack::BossTheme));
    assert_eq!(cur, Some(MusicTrack::BossTheme));
    assert_eq!(play_music_theme(true, GamePhase::BossFight, &mut cur), MusicAction::Keep);
    assert_eq!(play_music_theme(true, GamePhase::PreBoss, &mut cur), MusicAction::Replace(MusicTrack::MainTheme));
}

#[test]
fn other_phases_keep_the_music() {
    let mut cur = Some(MusicTrack::BossTheme);
    for phase in [GamePhase::FistBossEncounter, GamePhase::PostBoss, GamePhase::Dialogue] {
        assert_eq!(play_music_theme(true, phase, &mut cur), MusicAction::Keep);
        assert_eq!(cur, Some(MusicTrack::BossTheme));
    }
}

#[test]
fn unknown_current_track_is_replaced() {
    let mut cur = None;
    assert_eq!(play_music_theme(true, GamePhase::PreBoss, &mut cur), MusicAction::Replace(MusicTrack::MainTheme));
}

#[test]
fn volume_button_selects_exactly_one() {
    let mut s = AudioSettings { is_muted: false, volume: 5 };
    let mut sel = vec![false, true, false, false];
    sound_settigns_system(&mut s, &mut sel, 3, 3);
    assert_eq!(s.volume, 3);
    assert_eq!(sel, vec![false, false, false, true]);
    assert_eq!(sel.iter().filter(|b| **b).count(), 1);
}

#[test]
fn mute_key_silences_and_restores_music() {
    let mut s = AudioSettings { is_muted: false, volume: 4 };
    assert!(music_audible(&s));
    toggle_mute(&mut s, true);
    assert!(s.is_muted);
    assert!(!music_audible(&s));
    assert_eq!(s.volume, 4);
    toggle_mute(&mut s, false);
    assert!(s.is_muted);
    toggle_mute(&mut s, true);
    assert!(!s.is_muted);
    assert!(music_audible(&s));
}
