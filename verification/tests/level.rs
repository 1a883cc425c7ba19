use touhou_shmup::boss::Boss;
use touhou_shmup::enemy::EnemyKind;
use touhou_shmup::level::{
    add_time, spawn_bombs, spawn_from_level_data, spawn_power_up, EnemyWave, GamePhase, LevelData,
    LevelManager, WaveList,
};

fn wave(t_ms: u64) -> EnemyWave {
    EnemyWave { spawn_time_us: t_ms * 1000, hp: 30, kind: EnemyKind::Angel }
}

fn level() -> LevelData {
    LevelData {
        pre_boss: vec![wave(0), wave(1000), wave(1000), wave(3000)],
        boss: EnemyWave { spawn_time_us: 0, hp: 2000, kind: EnemyKind::Boss },
        post_boss: vec![wave(500), wave(2000)],
    }
}

#[test]
fn new_level_starts_before_the_boss() {
    let m = LevelManager::new();
    assert_eq!(m.current_phase, GamePhase::PreBoss);
    assert_eq!(m.phase_timer_us, 0);
    assert_eq!(m.next_index, 0);
}

#[test]
fn due_waves_are_released_in_order() {
    let lvl = level();
    let mut m = LevelManager::new();
    let step = spawn_from_level_data(&mut m, &lvl, 16_000, false, true);
    assert_eq!(step.list, Some(WaveList::PreBoss));
    assert_eq!(step.spawned, vec![0]);
    assert_eq!(m.next_index, 1);
    assert_eq!(m.phase_timer_us, 16_000);
    let step = spawn_from_level_data(&mut m, &lvl, 1_000_000, true, true);
    assert_eq!(step.spawned, vec![1, 2]);
    assert_eq!(m.next_index, 3);
    let step = spawn_from_level_data(&mut m, &lvl, 1_000_000, true, true);
    assert!(step.spawned.is_empty());
    assert!(step.boss.is_none());
}

#[test]
fn two_short_frames_release_what_one_long_frame_does() {
    let lvl = level();
    let mut a = LevelManager::new();
    let mut b = LevelManager::new();
    let mut split = spawn_from_level_data(&mut a, &lvl, 400_000, true, true).spawned;
    split.extend(spawn_from_level_data(&mut a, &lvl, 700_000, true, true).spawned);
    let whole = spawn_from_level_data(&mut b, &lvl, 1_100_000, true, true).spawned;
    assert_eq!(split, whole);
    assert_eq!(a, b);
}

#[test]
fn boss_appears_once_pre_boss_waves_are_cleared() {
    let lvl = level();
    let mut m = LevelManager { current_phase: GamePhase::PreBoss, phase_timer_us: 2_900_000, next_index: 3 };
    let step = spawn_from_level_data(&mut m, &lvl, 200_000, true, true);
    assert_eq!(step.spawned, vec![3]);
    assert!(step.boss.is_none());
    assert_eq!(m.current_phase, GamePhase::PreBoss);
    let step = spawn_from_level_data(&mut m, &lvl, 10_000, false, true);
    assert!(step.spawned.is_empty());
    assert_eq!(step.boss, Some(Boss::first_encounter()));
    assert_eq!(m, LevelManager { current_phase: GamePhase::FistBossEncounter, phase_timer_us: 0, next_index: 0 });
}

#[test]
fn last_wave_and_empty_field_in_the_same_frame_bring_the_boss() {
    let lvl = level();
    let mut m = LevelManager { current_phase: GamePhase::PreBoss, phase_timer_us: 2_999_000, next_index: 3 };
    let step = spawn_from_level_data(&mut m, &lvl, 5_000, false, true);
    assert_eq!(step.spawned, vec![3]);
    assert!(step.boss.unwrap().first_spawn);
    assert_eq!(m.current_phase, GamePhase::FistBossEncounter);
}

#[test]
fn boss_encounter_releases_nothing_but_keeps_time() {
    let lvl = level();
    let mut m = LevelManager { current_phase: GamePhase::FistBossEncounter, phase_timer_us: 0, next_index: 0 };
    let step = spawn_from_level_data(&mut m, &lvl, 50_000, false, true);
    assert_eq!(step.list, None);
    assert!(step.spawned.is_empty());
    assert!(step.boss.is_none());
    assert!(!step.pause_game);
    assert_eq!(m.phase_timer_us, 50_000);
    assert_eq!(m.current_phase, GamePhase::FistBossEncounter);
}

#[test]
fn clearing_post_boss_waves_brings_the_final_fight() {
    let lvl = level();
    let mut m = LevelManager { current_phase: GamePhase::PostBoss, phase_timer_us: 0, next_index: 0 };
    let step = spawn_from_level_data(&mut m, &lvl, 2_500_000, false, true);
    assert_eq!(step.list, Some(WaveList::PostBoss));
    assert_eq!(step.spawned, vec![0, 1]);
    assert!(step.pause_game);
    assert!(step.clear_projectiles);
    assert_eq!(step.boss, Some(Boss::final_fight()));
    assert_eq!(m, LevelManager { current_phase: GamePhase::BossFight, phase_timer_us: 0, next_index: 0 });
    let step = spawn_from_level_data(&mut m, &lvl, 10_000, false, true);
    assert!(!step.pause_game);
    assert!(step.boss.is_none());
    assert!(step.spawned.is_empty());
    assert_eq!(m.current_phase, GamePhase::BossFight);
    assert_eq!(m.phase_timer_us, 10_000);
}

#[test]
fn clearing_post_boss_waves_while_not_running_stops_at_the_dialogue() {
    let lvl = level();
    let mut m = LevelManager { current_phase: GamePhase::PostBoss, phase_timer_us: 0, next_index: 0 };
    let step = spawn_from_level_data(&mut m, &lvl, 2_500_000, false, false);
    assert!(step.pause_game);
    assert!(step.clear_projectiles);
    assert!(step.boss.is_none());
    assert_eq!(m, LevelManager { current_phase: GamePhase::Dialogue, phase_timer_us: 2_500_000, next_index: 2 });
    let step = spawn_from_level_data(&mut m, &lvl, 10_000, false, true);
    assert!(step.boss.is_none());
    assert_eq!(m.current_phase, GamePhase::Dialogue);
}

#[test]
fn enemies_on_screen_hold_the_post_boss_phase() {
    let lvl = level();
    let mut m = LevelManager { current_phase: GamePhase::PostBoss, phase_timer_us: 0, next_index: 0 };
    let step = spawn_from_level_data(&mut m, &lvl, 2_500_000, true, true);
    assert!(!step.pause_game);
    assert_eq!(m.current_phase, GamePhase::PostBoss);
}

#[test]
fn phase_clock_stops_at_the_top() {
    assert_eq!(add_time(u64::MAX - 1, 10), u64::MAX);
    assert_eq!(add_time(5, 10), 15);
}

#[test]
fn wave_health_comes_from_the_level() {
    let h = wave(0).spawn_health();
    assert_eq!(h.hp, 30);
    assert!(!h.is_dying);
}

#[test]
fn bomb_waits_fall_between_five_and_twenty_seconds() {
    assert_eq!(spawn_bombs(false), None);
    let mut seen = std::collections::BTreeSet::new();
    for _ in 0..100 {
        let w = spawn_bombs(true).unwrap();
        assert!((5_000_000..20_000_000).contains(&w));
        seen.insert(w);
    }
    assert!(seen.len() > 1);
}

#[test]
fn power_up_waits_fall_between_two_and_ten_seconds() {
    assert_eq!(spawn_power_up(false), None);
    let mut seen = std::collections::BTreeSet::new();
    for _ in 0..100 {
        let w = spawn_power_up(true).unwrap();
        assert!((2_000_000..10_000_000).contains(&w));
        seen.insert(w);
    }
    assert!(seen.len() > 1);
}
