use vstd::prelude::*;

use crate::enemy::{BOMB_DAMAGE, EnemyKind, Health, PLAYER_DAMAGE, sat_sub, take_damage};

verus! {

/// The player's fire power: how much a power-up level adds, and what picks
/// the weapon (see `shot_tier`).
#[derive(Clone, Copy, Debug, PartialEq, Eq, Structural)]
pub struct Damage {
    pub damage: i32,
}

/// The player's own state besides health and power.
#[derive(Clone, Copy, Debug, PartialEq, Eq, Structural)]
pub struct Player {
    /// When the player was last hit (microseconds of game time; 0 = never).
    pub last_hit_us: u64,
    /// Which side the next fire ball of the third weapon leaves from.
    pub shoot_from_left: bool,
    /// Bombs carried.
    pub nbr_bombs: i32,
}

impl Player {
    /// A player who was never hit, carries no bomb, and fires the next fire
    /// ball from the right.
    pub fn new() -> (p: Player)
        ensures
            p == (Player { last_hit_us: 0, shoot_from_left: false, nbr_bombs: 0 }),
    {
        Player { last_hit_us: 0, shoot_from_left: false, nbr_bombs: 0 }
    }
}

/// `a + b`, held at the top of the `i32` range.
pub open spec fn sat_add_i32(a: int, b: int) -> int {
    if a + b > i32::MAX {
        i32::MAX as int
    } else {
        a + b
    }
}

/// The delay between two basic shots at power `damage`, in microseconds:
/// 0.1 s at the starting power of 10, 0.5 ms shorter per point above it,
/// never below 10 ms.
pub open spec fn shoot_delay_spec(damage: int) -> int {
    let d = 100_000 - (damage - 10) * 500;
    if d >= 10_000 {
        d
    } else {
        10_000
    }
}

/// The delay between two basic shots at a given power.
pub fn shoot_delay(damage: i32) -> (delay_us: u64)
    ensures
        delay_us == shoot_delay_spec(damage as int),
{
    let d: i64 = 100_000 - (damage as i64 - 10) * 500;
    if d >= 10_000 {
        d as u64
    } else {
        10_000
    }
}

/// The fire rate grows with power: the delay between shots never grows
/// when power rises, never drops below 10 ms, and is at most 0.1 s from the
/// starting power of 10 on.
pub proof fn lemma_fire_rate_scales_with_power(d1: int, d2: int)
    ensures
        d1 <= d2 ==> shoot_delay_spec(d2) <= shoot_delay_spec(d1),
        shoot_delay_spec(d1) >= 10_000,
        d1 >= 10 ==> shoot_delay_spec(d1) <= 100_000,
{
}

/// Each power level (10 points) shortens the delay between shots by 5 ms,
/// down to the floor of 10 ms; at the starting power of 10 it is 0.1 s.
pub proof fn lemma_power_level_shortens_delay(damage: int)
    ensures
        shoot_delay_spec(10) == 100_000,
        shoot_delay_spec(damage) - 5_000 < 10_000 ==> shoot_delay_spec(damage + 10) == 10_000,
        shoot_delay_spec(damage) - 5_000 >= 10_000 ==> shoot_delay_spec(damage + 10)
            == shoot_delay_spec(damage) - 5_000,
        shoot_delay_spec(damage) > 10_000 ==> shoot_delay_spec(damage + 10) < shoot_delay_spec(
            damage,
        ),
{
}

/// Picking up a power-up (when `touching` one) raises the power by one
/// level and gives the new delay between shots; otherwise nothing changes.
pub fn check_collison_power_up(damage: &mut Damage, touching: bool) -> (new_delay: Option<u64>)
    ensures
        touching ==> final(damage).damage == sat_add_i32(
            old(damage).damage as int,
            PLAYER_DAMAGE as int,
        ),
        touching ==> new_delay == Some(shoot_delay_spec(final(damage).damage as int) as u64),
        !touching ==> *final(damage) == *old(damage) && new_delay == None::<u64>,
{
    if touching {
        if damage.damage > i32::MAX - PLAYER_DAMAGE {
            damage.damage = i32::MAX;
        } else {
            damage.damage = damage.damage + PLAYER_DAMAGE;
        }
        Some(shoot_delay(damage.damage))
    } else {
        None
    }
}

/// The player's weapons, from weakest to strongest.
#[derive(Clone, Copy, Debug, PartialEq, Eq, Structural)]
pub enum ShotTier {
    /// One straight shot.
    Single,
    /// Three shots in a narrow fan.
    Spread,
    /// The fan, plus a curving fire ball from alternate sides.
    SpreadFire,
    /// The fan, plus two homing fire balls.
    SpreadHoming,
}

/// The weapon that a power level gives.
pub open spec fn tier_of(damage: int) -> ShotTier {
    if damage < 75 {
        ShotTier::Single
    } else if damage < 150 {
        ShotTier::Spread
    } else if damage < 250 {
        ShotTier::SpreadFire
    } else {
        ShotTier::SpreadHoming
    }
}

/// The rank of a weapon, from 1 to 4.
pub open spec fn tier_rank(tier: ShotTier) -> int {
    match tier {
        ShotTier::Single => 1,
        ShotTier::Spread => 2,
        ShotTier::SpreadFire => 3,
        ShotTier::SpreadHoming => 4,
    }
}

pub fn shot_tier(damage: i32) -> (tier: ShotTier)
    ensures
        tier == tier_of(damage as int),
{
    if damage < 75 {
        ShotTier::Single
    } else if damage < 150 {
        ShotTier::Spread
    } else if damage < 250 {
        ShotTier::SpreadFire
    } else {
        ShotTier::SpreadHoming
    }
}

/// More power never gives a weaker weapon.
pub proof fn lemma_tier_monotone(d1: int, d2: int)
    requires
        d1 <= d2,
    ensures
        tier_rank(tier_of(d1)) <= tier_rank(tier_of(d2)),
{
}

/// The fire balls of one shot.
#[derive(Clone, Copy, Debug, PartialEq, Eq, Structural)]
pub enum FireVolley {
    NoFire,
    /// One fire ball from the left of the player, curving right.
    FromLeft,
    /// One fire ball from the right of the player, curving left.
    FromRight,
    /// One homing fire ball from each side.
    BothSides,
}

/// What one shot fires and sounds.
#[derive(Clone, Copy, Debug, PartialEq, Eq, Structural)]
pub struct ShotPlan {
    pub tier: ShotTier,
    pub fire: FireVolley,
    /// Whether the shot sound plays (not more than once per 0.1 s).
    pub play_shot_sound: bool,
}

/// Whether the shot sound may play at `now_us` after last playing at
/// `last_us`: more than 0.1 s must have passed.
pub open spec fn shot_sound_due(now_us: u64, last_us: u64) -> bool {
    now_us - last_us > 100_000
}

/// The fire balls the weapon adds when the fire timer is ready.
pub open spec fn fire_of(tier: ShotTier, fire_ready: bool, from_left: bool) -> FireVolley {
    if !fire_ready {
        FireVolley::NoFire
    } else {
        match tier {
            ShotTier::SpreadFire => if from_left {
                FireVolley::FromLeft
            } else {
                FireVolley::FromRight
            },
            ShotTier::SpreadHoming => FireVolley::BothSides,
            _ => FireVolley::NoFire,
        }
    }
}

/// The fire balls by power, over all inputs: the first two weapons (power
/// below 150) never fire one; the third (150 to 249) fires one when the fire
/// timer is ready, from the left when the side flag says so and from the
/// right otherwise; the fourth (250 and more) fires two homing ones when
/// ready; and nothing fires fire balls while the fire timer is not ready.
pub proof fn lemma_fire_balls_by_power(damage: int, fire_ready: bool, from_left: bool)
    ensures
        damage < 150 ==> fire_of(tier_of(damage), fire_ready, from_left) == FireVolley::NoFire,
        !fire_ready ==> fire_of(tier_of(damage), fire_ready, from_left) == FireVolley::NoFire,
        150 <= damage < 250 && fire_ready ==> fire_of(tier_of(damage), fire_ready, from_left) == (
        if from_left {
            FireVolley::FromLeft
        } else {
            FireVolley::FromRight
        }),
        250 <= damage && fire_ready ==> fire_of(tier_of(damage), fire_ready, from_left)
            == FireVolley::BothSides,
        fire_of(tier_of(damage), fire_ready, from_left) != FireVolley::NoFire ==> damage >= 150,
        damage < 75 ==> tier_of(damage) == ShotTier::Single,
        75 <= damage < 150 ==> tier_of(damage) == ShotTier::Spread,
        150 <= damage < 250 ==> tier_of(damage) == ShotTier::SpreadFire,
        250 <= damage ==> tier_of(damage) == ShotTier::SpreadHoming,
{
}

/// Two volleys of the third weapon in a row leave from opposite sides.
pub proof fn lemma_fire_balls_alternate(damage: int, from_left: bool)
    requires
        150 <= damage < 250,
    ensures
        fire_of(tier_of(damage), true, from_left) != fire_of(tier_of(damage), true, !from_left),
        fire_of(tier_of(damage), true, from_left) != FireVolley::NoFire,
{
}

/// The shot sound is heard at most once per 0.1 s: after it plays at
/// `last_us`, it plays again at `now_us` exactly when more than 0.1 s has
/// passed.
pub proof fn lemma_shot_sound_throttle(now_us: u64, last_us: u64)
    ensures
        now_us <= last_us + 100_000 ==> !shot_sound_due(now_us, last_us),
        now_us > last_us + 100_000 ==> shot_sound_due(now_us, last_us),
{
}

/// One frame of shooting. When the trigger is held and the shot timer is
/// ready, the weapon of the current power fires; the third weapon's fire
/// ball alternates sides from one volley to the next; the shot sound plays
/// when more than 0.1 s has passed since it last played (and then records
/// `now_us`). Otherwise nothing fires and nothing changes.
pub fn shoot_projectile(
    player: &mut Player,
    damage: &Damage,
    trigger_held: bool,
    shoot_ready: bool,
    fire_ready: bool,
    now_us: u64,
    last_sound_us: &mut u64,
) -> (plan: Option<ShotPlan>)
    ensures
        !(trigger_held && shoot_ready) ==> plan == None::<ShotPlan> && *final(player) == *old(player)
            && *final(last_sound_us) == *old(last_sound_us),
        trigger_held && shoot_ready ==> plan == Some(
            ShotPlan {
                tier: tier_of(damage.damage as int),
                fire: fire_of(
                    tier_of(damage.damage as int),
                    fire_ready,
                    old(player).shoot_from_left,
                ),
                play_shot_sound: shot_sound_due(now_us, *old(last_sound_us)),
            },
        ),
        trigger_held && shoot_ready ==> *final(last_sound_us) == (if shot_sound_due(
            now_us,
            *old(last_sound_us),
        ) {
            now_us
        } else {
            *old(last_sound_us)
        }),
        trigger_held && shoot_ready ==> final(player).shoot_from_left == (if tier_of(
            damage.damage as int,
        ) == ShotTier::SpreadFire && fire_ready {
            !old(player).shoot_from_left
        } else {
            old(player).shoot_from_left
        }),
        final(player).last_hit_us == old(player).last_hit_us,
        final(player).nbr_bombs == old(player).nbr_bombs,
{
    if !(trigger_held && shoot_ready) {
        return None;
    }
    let play = now_us as i128 - *last_sound_us as i128 > 100_000;
    if play {
        *last_sound_us = now_us;
    }
    let tier = shot_tier(damage.damage);
    let fire = match tier {
        ShotTier::SpreadFire => {
            if fire_ready {
                let side = if player.shoot_from_left {
                    FireVolley::FromLeft
                } else {
                    FireVolley::FromRight
                };
                player.shoot_from_left = !player.shoot_from_left;
                side
            } else {
                FireVolley::NoFire
            }
        },
        ShotTier::SpreadHoming => {
            if fire_ready {
                FireVolley::BothSides
            } else {
                FireVolley::NoFire
            }
        },
        _ => FireVolley::NoFire,
    };
    Some(ShotPlan { tier, fire, play_shot_sound: play })
}

/// Whether the player can be hurt at `now_us`: more than the invincibility
/// time has passed since the last hit.
pub open spec fn vulnerable(now_us: u64, last_hit_us: u64, invincibility_us: u64) -> bool {
    now_us - last_hit_us > invincibility_us
}

/// What the hits of one frame remove from the field.
#[derive(Clone, Copy, Debug, PartialEq, Eq, Structural)]
pub struct HitOutcome {
    /// The enemy shot that struck the player is removed.
    pub despawn_projectile: bool,
    /// The enemy that ran into the player is removed (never the boss).
    pub despawn_enemy: bool,
}

/// Whether an enemy shot strikes home this frame.
pub open spec fn shot_lands(now_us: u64, last_hit_us: u64, invincibility_us: u64, projectile_hit: bool) -> bool {
    vulnerable(now_us, last_hit_us, invincibility_us) && projectile_hit
}

/// Whether touching an enemy hurts this frame.
pub open spec fn touch_lands(
    now_us: u64,
    last_hit_us: u64,
    invincibility_us: u64,
    enemy_contact: Option<EnemyKind>,
) -> bool {
    vulnerable(now_us, last_hit_us, invincibility_us) && enemy_contact is Some
}

/// The player's hit points after this frame's hits: one point per hit that
/// lands.
pub open spec fn hp_after_hits(hp: i32, shot: bool, touch: bool) -> int {
    sat_sub(
        sat_sub(hp as int, if shot {
            1
        } else {
            0
        }),
        if touch {
            1
        } else {
            0
        },
    )
}

/// One frame of damage to the player. Unless the player is still
/// invincible from the last hit, the first enemy shot that struck
/// (`projectile_hit`) and the first enemy touched (`enemy_contact`, by kind)
/// each take one hit point and restart the invincibility at `now_us`; the
/// shot is removed, and so is the enemy unless it is the boss.
pub fn check_collison_projectile_player(
    player: &mut Player,
    health: &mut Health,
    now_us: u64,
    invincibility_us: u64,
    projectile_hit: bool,
    enemy_contact: Option<EnemyKind>,
) -> (outcome: HitOutcome)
    ensures
        ({
            let shot = shot_lands(now_us, old(player).last_hit_us, invincibility_us, projectile_hit);
            let touch = touch_lands(now_us, old(player).last_hit_us, invincibility_us, enemy_contact);
            &&& outcome.despawn_projectile == shot
            &&& outcome.despawn_enemy == (touch && enemy_contact != Some(EnemyKind::Boss))
            &&& final(health).hp == hp_after_hits(old(health).hp, shot, touch)
            &&& final(player).last_hit_us == (if shot || touch {
                now_us
            } else {
                old(player).last_hit_us
            })
        }),
        final(health).is_dying == old(health).is_dying,
        final(player).shoot_from_left == old(player).shoot_from_left,
        final(player).nbr_bombs == old(player).nbr_bombs,
{
    let mut outcome = HitOutcome { despawn_projectile: false, despawn_enemy: false };
    if now_us as i128 - player.last_hit_us as i128 > invincibility_us as i128 {
        if projectile_hit {
            outcome.despawn_projectile = true;
            health.hp = take_damage(health.hp, 1);
            player.last_hit_us = now_us;
        }
        match enemy_contact {
            Some(kind) => {
                if kind != EnemyKind::Boss {
                    outcome.despawn_enemy = true;
                }
                health.hp = take_damage(health.hp, 1);
                player.last_hit_us = now_us;
            },
            None => {},
        }
    }
    outcome
}

/// Every hit that lands costs exactly one hit point, and only hits that land
/// cost anything; outside the invincibility time the shot and the touch each
/// land exactly when they happen.
pub proof fn lemma_each_hit_costs_one_point(
    hp: i32,
    now_us: u64,
    last_hit_us: u64,
    invincibility_us: u64,
    projectile_hit: bool,
    enemy_contact: Option<EnemyKind>,
)
    requires
        hp > i32::MIN + 2,
    ensures
        hp_after_hits(hp, false, false) == hp,
        hp_after_hits(hp, true, false) == hp - 1,
        hp_after_hits(hp, false, true) == hp - 1,
        hp_after_hits(hp, true, true) == hp - 2,
        now_us > last_hit_us + invincibility_us ==> shot_lands(
            now_us,
            last_hit_us,
            invincibility_us,
            projectile_hit,
        ) == projectile_hit && touch_lands(now_us, last_hit_us, invincibility_us, enemy_contact)
            == (enemy_contact is Some),
        now_us <= last_hit_us + invincibility_us ==> !shot_lands(
            now_us,
            last_hit_us,
            invincibility_us,
            projectile_hit,
        ) && !touch_lands(now_us, last_hit_us, invincibility_us, enemy_contact),
{
}

/// While invincible the player takes no damage and the invincibility is not
/// restarted; otherwise one frame takes at most two hit points, and a frame
/// in which something lands restarts the invincibility, so the next frame
/// within the invincibility time is harmless.
pub proof fn lemma_invincibility_shields(
    hp: i32,
    now_us: u64,
    later_us: u64,
    last_hit_us: u64,
    invincibility_us: u64,
    projectile_hit: bool,
    enemy_contact: Option<EnemyKind>,
)
    requires
        hp > i32::MIN + 2,
    ensures
        !vulnerable(now_us, last_hit_us, invincibility_us) ==> hp_after_hits(
            hp,
            shot_lands(now_us, last_hit_us, invincibility_us, projectile_hit),
            touch_lands(now_us, last_hit_us, invincibility_us, enemy_contact),
        ) == hp,
        hp - 2 <= hp_after_hits(
            hp,
            shot_lands(now_us, last_hit_us, invincibility_us, projectile_hit),
            touch_lands(now_us, last_hit_us, invincibility_us, enemy_contact),
        ) <= hp,
        now_us <= later_us <= now_us + invincibility_us ==> !vulnerable(
            later_us,
            now_us,
            invincibility_us,
        ),
{
}

/// Whether the player is shown hurt: within the invincibility time after a
/// hit, if there ever was one.
pub fn change_color_on_hit(now_us: u64, last_hit_us: u64, invincibility_us: u64) -> (flashing: bool)
    ensures
        flashing == (now_us - last_hit_us < invincibility_us && last_hit_us != 0),
{
    (now_us as i128 - last_hit_us as i128) < invincibility_us as i128 && last_hit_us != 0
}

/// The number of bombs after the bomb key: one fewer when one was carried.
pub open spec fn bombs_after_use(bombs: i32, key_pressed: bool) -> i32 {
    if key_pressed && bombs > 0 {
        (bombs - 1) as i32
    } else {
        bombs
    }
}

/// The number of bombs after touching (or not) a bomb lying on the field.
pub open spec fn bombs_after_pickup(bombs: i32, touching: bool) -> int {
    if touching {
        bombs + 1
    } else {
        bombs as int
    }
}

/// The bomb key. With a bomb in hand, it blasts every enemy in range
/// (`in_blast[e]`) for `BOMB_DAMAGE` points and uses up the bomb; without
/// one, or without the key, nothing happens.
pub fn use_bombs(player: &mut Player, enemy_hps: &mut Vec<i32>, in_blast: &Vec<bool>, key_pressed: bool) -> (detonated: bool)
    requires
        in_blast.len() == old(enemy_hps).len(),
    ensures
        detonated == (key_pressed && old(player).nbr_bombs > 0),
        final(player).nbr_bombs == bombs_after_use(old(player).nbr_bombs, key_pressed),
        final(player).last_hit_us == old(player).last_hit_us,
        final(player).shoot_from_left == old(player).shoot_from_left,
        final(enemy_hps).len() == old(enemy_hps).len(),
        forall|e: int|
            0 <= e < old(enemy_hps).len() ==> #[trigger] final(enemy_hps)[e] == (if detonated
                && in_blast[e] {
                sat_sub(old(enemy_hps)[e] as int, BOMB_DAMAGE as int) as i32
            } else {
                old(enemy_hps)[e]
            }),
{
    if !(key_pressed && player.nbr_bombs > 0) {
        return false;
    }
    let ghost start = enemy_hps@;
    let mut e: usize = 0;
    while e < enemy_hps.len()
        invariant
            0 <= e <= enemy_hps.len(),
            enemy_hps.len() == start.len(),
            in_blast.len() == start.len(),
            forall|j: int|
                0 <= j < start.len() ==> #[trigger] enemy_hps[j] == (if j < e && in_blast[j] {
                    sat_sub(start[j] as int, BOMB_DAMAGE as int) as i32
                } else {
                    start[j]
                }),
        decreases start.len() - e,
    {
        if in_blast[e] {
            let hp = enemy_hps[e];
            enemy_hps.set(e, take_damage(hp, BOMB_DAMAGE));
        }
        e = e + 1;
    }
    player.nbr_bombs = player.nbr_bombs - 1;
    true
}

/// Touching a bomb on the field adds it to the player's stock.
pub fn check_collison_bombs(player: &mut Player, touching: bool)
    requires
        touching ==> old(player).nbr_bombs < i32::MAX,
    ensures
        final(player).nbr_bombs == bombs_after_pickup(old(player).nbr_bombs, touching),
        final(player).last_hit_us == old(player).last_hit_us,
        final(player).shoot_from_left == old(player).shoot_from_left,
{
    if touching {
        player.nbr_bombs = player.nbr_bombs + 1;
    }
}

/// The bomb stock, over all inputs: using a bomb with at least one in hand
/// removes exactly one; without the key or without a bomb the stock is
/// unchanged; picking a bomb up always adds exactly one, however many are
/// held; and picking one up and then using it gives back the stock one
/// started with.
pub proof fn lemma_bomb_stock_counts(bombs: i32, key_pressed: bool, touching: bool)
    ensures
        key_pressed && bombs > 0 ==> bombs_after_use(bombs, key_pressed) == bombs - 1,
        !(key_pressed && bombs > 0) ==> bombs_after_use(bombs, key_pressed) == bombs,
        touching ==> bombs_after_pickup(bombs, touching) == bombs + 1,
        !touching ==> bombs_after_pickup(bombs, touching) == bombs,
        bombs >= 0 && bombs < i32::MAX ==> bombs_after_use(
            bombs_after_pickup(bombs, true) as i32,
            true,
        ) == bombs,
{
}

/// The bomb stock never goes negative: using a bomb needs one in hand, and
/// picking one up only adds.
pub proof fn lemma_bombs_never_negative(bombs: i32, key_pressed: bool, touching: bool)
    requires
        bombs >= 0,
    ensures
        bombs_after_use(bombs, key_pressed) >= 0,
        bombs_after_pickup(bombs, touching) >= 0,
        key_pressed && bombs == 0 ==> bombs_after_use(bombs, key_pressed) == 0,
{
}

} // verus!
