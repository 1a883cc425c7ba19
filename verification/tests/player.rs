use touhou_shmup::enemy::{EnemyKind, Health};
use touhou_shmup::player::{
    change_color_on_hit, check_collison_bombs, check_collison_power_up,
    check_collison_projectile_player, shoot_delay, shoot_projectile, shot_tier, use_bombs, Damage,
    FireVolley, Player, ShotPlan, ShotTier,
};

#[test]
fn new_player_state() {
    let p = Player::new();
    assert_eq!((p.last_hit_us, p.shoot_from_left, p.nbr_bombs), (0, false, 0));
}

#[test]
fn shoot_delay_formula() {
    assert_eq!(shoot_delay(10), 100_000);
    assert_eq!(shoot_delay(20), 95_000);
    assert_eq!(shoot_delay(100), 55_000);
    assert_eq!(shoot_delay(190), 10_000);
    assert_eq!(shoot_delay(500), 10_000);
    assert_eq!(shoot_delay(0), 105_000);
}

#[test]
fn fire_rate_never_slows_as_power_grows() {
    let mut last = shoot_delay(0);
    for d in 1..400 {
        let now = shoot_delay(d);
        assert!(now <= last && now >= 10_000);
        last = now;
    }
}

#[test]
fn power_up_raises_power_and_fire_rate() {
    let mut d = Damage { damage: 10 };
    assert_eq!(check_collison_power_up(&mut d, true), Some(95_000));
    assert_eq!(d.damage, 20);
    assert_eq!(check_collison_power_up(&mut d, false), None);
    assert_eq!(d.damage, 20);
    let mut top = Damage { damage: i32::MAX - 3 };
    check_collison_power_up(&mut top, true);
    assert_eq!(top.damage, i32::MAX);
}

#[test]
fn weapons_by_power() {
    assert_eq!(shot_tier(10), ShotTier::Single);
    assert_eq!(shot_tier(74), ShotTier::Single);
    assert_eq!(shot_tier(75), ShotTier::Spread);
    assert_eq!(shot_tier(149), ShotTier::Spread);
    assert_eq!(shot_tier(150), ShotTier::SpreadFire);
    assert_eq!(shot_tier(249), ShotTier::SpreadFire);
    assert_eq!(shot_tier(250), ShotTier::SpreadHoming);
}

#[test]
fn no_shot_without_trigger_or_ready_timer() {
    let mut p = Player::new();
    let mut last = 0;
    assert_eq!(shoot_projectile(&mut p, &Damage { damage: 10 }, false, true, true, 1_000_000, &mut last), None);
    assert_eq!(shoot_projectile(&mut p, &Damage { damage: 10 }, true, false, true, 1_000_000, &mut last), None);
    assert_eq!(last, 0);
}

#[test]
fn shot_sound_is_throttled() {
    let mut p = Player::new();
    let mut last = 0;
    let d = Damage { damage: 10 };
    let plan = shoot_projectile(&mut p, &d, true, true, false, 500_000, &mut last).unwrap();
    assert!(plan.play_shot_sound);
    assert_eq!(last, 500_000);
    let plan = shoot_projectile(&mut p, &d, true, true, false, 550_000, &mut last).unwrap();
    assert!(!plan.play_shot_sound);
    assert_eq!(last, 500_000);
    let plan = shoot_projectile(&mut p, &d, true, true, false, 600_001, &mut last).unwrap();
    assert!(plan.play_shot_sound);
}

#[test]
fn third_weapon_alternates_fire_ball_sides() {
    let mut p = Player::new();
    let mut last = 0;
    let d = Damage { damage: 160 };
    let a = shoot_projectile(&mut p, &d, true, true, true, 1, &mut last).unwrap();
    assert_eq!(a, ShotPlan { tier: ShotTier::SpreadFire, fire: FireVolley::FromRight, play_shot_sound: false });
    assert!(p.shoot_from_left);
    let b = shoot_projectile(&mut p, &d, true, true, true, 2, &mut last).unwrap();
    assert_eq!(b.fire, FireVolley::FromLeft);
    assert!(!p.shoot_from_left);
    let c = shoot_projectile(&mut p, &d, true, true, false, 3, &mut last).unwrap();
    assert_eq!(c.fire, FireVolley::NoFire);
    assert!(!p.shoot_from_left);
}

#[test]
fn fourth_weapon_fires_both_sides() {
    let mut p = Player::new();
    let mut last = 0;
    let plan = shoot_projectile(&mut p, &Damage { damage: 300 }, true, true, true, 200_000, &mut last).unwrap();
    assert_eq!(plan.tier, ShotTier::SpreadHoming);
    assert_eq!(plan.fire, FireVolley::BothSides);
    assert!(!p.shoot_from_left);
    let low = shoot_projectile(&mut p, &Damage { damage: 80 }, true, true, true, 400_000, &mut last).unwrap();
    assert_eq!(low.fire, FireVolley::NoFire);
}

#[test]
fn hits_cost_one_point_each_outside_invincibility() {
    let mut p = Player::new();
    let mut h = Health::new(5);
    let o = check_collison_projectile_player(&mut p, &mut h, 2_000_000, 1_000_000, true, Some(EnemyKind::Angel));
    assert!(o.despawn_projectile && o.despawn_enemy);
    assert_eq!(h.hp, 3);
    assert_eq!(p.last_hit_us, 2_000_000);
    let o = check_collison_projectile_player(&mut p, &mut h, 2_500_000, 1_000_000, true, Some(EnemyKind::Angel));
    assert!(!o.despawn_projectile && !o.despawn_enemy);
    assert_eq!(h.hp, 3);
    assert_eq!(p.last_hit_us, 2_000_000);
}

#[test]
fn boss_contact_hurts_but_boss_stays() {
    let mut p = Player::new();
    let mut h = Health::new(5);
    let o = check_collison_projectile_player(&mut p, &mut h, 2_000_000, 1_000_000, false, Some(EnemyKind::Boss));
    assert!(!o.despawn_projectile && !o.despawn_enemy);
    assert_eq!(h.hp, 4);
}

#[test]
fn invincibility_window_is_strict() {
    let mut p = Player { last_hit_us: 1_000_000, shoot_from_left: false, nbr_bombs: 0 };
    let mut h = Health::new(5);
    check_collison_projectile_player(&mut p, &mut h, 2_000_000, 1_000_000, true, None);
    assert_eq!(h.hp, 5);
    check_collison_projectile_player(&mut p, &mut h, 2_000_001, 1_000_000, true, None);
    assert_eq!(h.hp, 4);
}

#[test]
fn player_flashes_after_a_hit() {
    assert!(change_color_on_hit(1_500_000, 1_000_000, 1_000_000));
    assert!(!change_color_on_hit(2_000_000, 1_000_000, 1_000_000));
    assert!(!change_color_on_hit(100, 0, 1_000_000));
}

#[test]
fn bomb_blasts_enemies_in_range() {
    let mut p = Player { last_hit_us: 0, shoot_from_left: false, nbr_bombs: 1 };
    let mut hps = vec![250, 100, 300];
    assert!(use_bombs(&mut p, &mut hps, &vec![true, false, true], true));
    assert_eq!(hps, vec![50, 100, 100]);
    assert_eq!(p.nbr_bombs, 0);
    assert!(!use_bombs(&mut p, &mut hps, &vec![true, true, true], true));
    assert_eq!(hps, vec![50, 100, 100]);
    assert_eq!(p.nbr_bombs, 0);
}

#[test]
fn bomb_needs_the_key() {
    let mut p = Player { last_hit_us: 0, shoot_from_left: false, nbr_bombs: 2 };
    let mut hps = vec![250];
    assert!(!use_bombs(&mut p, &mut hps, &vec![true], false));
    assert_eq!(hps, vec![250]);
    assert_eq!(p.nbr_bombs, 2);
}

#[test]
fn picking_up_bombs_adds_to_stock() {
    let mut p = Player::new();
    check_collison_bombs(&mut p, true);
    check_collison_bombs(&mut p, false);
    check_collison_bombs(&mut p, true);
    assert_eq!(p.nbr_bombs, 2);
}
