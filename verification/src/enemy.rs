use vstd::prelude::*;

use crate::random::roll_die;

verus! {

/// Damage that one of the player's shots deals to an enemy.
pub const PLAYER_DAMAGE: i32 = 10;

/// Damage that a bomb deals to each enemy in its blast.
pub const BOMB_DAMAGE: i32 = 200;

/// The last frame of the smoke animation shown while an enemy vanishes.
pub const SMOKE_LAST_FRAME: usize = 4;

/// The kinds of enemy, as the level data names them by one letter.
#[derive(Clone, Copy, Debug, PartialEq, Eq, Structural)]
pub enum EnemyKind {
    /// `'c'`: a small cherub that chases the player when near.
    Cherub,
    /// `'a'`: an angel that shoots at the player.
    Angel,
    /// `'b'`: the boss.
    Boss,
    /// Any other letter.
    Other,
}

/// The enemy kind that a level letter names.
pub open spec fn kind_of(variety: char) -> EnemyKind {
    if variety == 'c' {
        EnemyKind::Cherub
    } else if variety == 'a' {
        EnemyKind::Angel
    } else if variety == 'b' {
        EnemyKind::Boss
    } else {
        EnemyKind::Other
    }
}

impl EnemyKind {
    /// Reads the one-letter kind used by the level data.
    pub fn from_variety(variety: char) -> (kind: EnemyKind)
        ensures
            kind == kind_of(variety),
    {
        if variety == 'c' {
            EnemyKind::Cherub
        } else if variety == 'a' {
            EnemyKind::Angel
        } else if variety == 'b' {
            EnemyKind::Boss
        } else {
            EnemyKind::Other
        }
    }
}

/// Hit points of the player or of an enemy, and whether it is fading away.
#[derive(Clone, Copy, Debug, PartialEq, Eq, Structural)]
pub struct Health {
    pub hp: i32,
    pub is_dying: bool,
}

impl Default for Health {
    /// A fresh entity has 100 hit points and is not dying.
    fn default() -> (h: Health)
        ensures
            h.hp == 100,
            !h.is_dying,
    {
        Health { hp: 100, is_dying: false }
    }
}

impl Health {
    /// Full health of `hp` points.
    pub fn new(hp: i32) -> (h: Health)
        ensures
            h.hp == hp,
            !h.is_dying,
    {
        Health { hp, is_dying: false }
    }
}

/// `a - b`, held at the bottom of the `i32` range.
pub open spec fn sat_sub(a: int, b: int) -> int {
    if a - b < i32::MIN {
        i32::MIN as int
    } else {
        a - b
    }
}

/// How many of the first `n` entries of `hits` name enemy `e`.
pub open spec fn count_hits(hits: Seq<usize>, n: int, e: int) -> nat
    decreases n,
{
    if n <= 0 {
        0
    } else {
        count_hits(hits, n - 1, e) + (if hits[n - 1] == e {
            1nat
        } else {
            0nat
        })
    }
}

/// Takes `damage` points from `hp`, stopping at the bottom of the `i32` range.
pub fn take_damage(hp: i32, damage: i32) -> (left: i32)
    requires
        damage >= 0,
    ensures
        left == sat_sub(hp as int, damage as int),
{
    if hp < i32::MIN + damage {
        i32::MIN
    } else {
        hp - damage
    }
}

/// Damage takes exactly its amount away unless that would go below the
/// `i32` range, where it stops at the bottom; it never adds.
pub proof fn lemma_damage_takes_its_amount(hp: i32, damage: i32)
    requires
        damage >= 0,
    ensures
        hp - damage >= i32::MIN ==> sat_sub(hp as int, damage as int) == hp - damage,
        hp - damage < i32::MIN ==> sat_sub(hp as int, damage as int) == i32::MIN,
        sat_sub(hp as int, damage as int) <= hp,
{
}

/// One more shot on an enemy counts one more hit on it and none on any other.
pub proof fn lemma_each_shot_counts_once(hits: Seq<usize>, n: int, e: int, other: int)
    requires
        0 <= n < hits.len(),
        hits[n] == e,
        other != e,
    ensures
        count_hits(hits, n + 1, e) == count_hits(hits, n, e) + 1,
        count_hits(hits, n + 1, other) == count_hits(hits, n, other),
        count_hits(hits, 0, e) == 0,
{
}

proof fn lemma_sat_sub_twice(a: int, b: int, c: int)
    requires
        b >= 0,
        c >= 0,
        a >= i32::MIN,
    ensures
        sat_sub(sat_sub(a, b), c) == sat_sub(a, b + c),
{
}

/// Applies one frame of the player's shots to the enemies: `hits[k]` is the
/// enemy (an index into `enemy_hps`) that shot `k` struck first; each shot
/// takes `PLAYER_DAMAGE` points from that enemy.
pub fn check_collison_enemies(enemy_hps: &mut Vec<i32>, hits: &Vec<usize>)
    requires
        forall|k: int| 0 <= k < hits.len() ==> hits[k] < old(enemy_hps).len(),
    ensures
        final(enemy_hps).len() == old(enemy_hps).len(),
        forall|e: int|
            0 <= e < old(enemy_hps).len() ==> #[trigger] final(enemy_hps)[e] == sat_sub(
                old(enemy_hps)[e] as int,
                PLAYER_DAMAGE * count_hits(hits@, hits.len() as int, e),
            ),
{
    let ghost start = enemy_hps@;
    let mut k: usize = 0;
    while k < hits.len()
        invariant
            0 <= k <= hits.len(),
            enemy_hps.len() == start.len(),
            forall|j: int| 0 <= j < hits.len() ==> hits[j] < start.len(),
            forall|e: int|
                0 <= e < start.len() ==> #[trigger] enemy_hps[e] == sat_sub(
                    start[e] as int,
                    PLAYER_DAMAGE * count_hits(hits@, k as int, e),
                ),
        decreases hits.len() - k,
    {
        let target = hits[k];
        let hp = enemy_hps[target];
        enemy_hps.set(target, take_damage(hp, PLAYER_DAMAGE));
        proof {
            assert forall|e: int| 0 <= e < start.len() implies #[trigger] enemy_hps[e] == sat_sub(
                start[e] as int,
                PLAYER_DAMAGE * count_hits(hits@, k + 1, e),
            ) by {
                let c = count_hits(hits@, k as int, e);
                lemma_sat_sub_twice(start[e] as int, PLAYER_DAMAGE * c, PLAYER_DAMAGE as int);
            }
        }
        k = k + 1;
    }
}

/// An entity whose hit points ran out starts dying, once: the result tells
/// whether it started dying in this call.
pub fn check_health(health: &mut Health) -> (started: bool)
    ensures
        started == (old(health).hp <= 0 && !old(health).is_dying),
        final(health).hp == old(health).hp,
        final(health).is_dying == (old(health).is_dying || old(health).hp <= 0),
{
    if health.hp <= 0 && !health.is_dying {
        health.is_dying = true;
        true
    } else {
        false
    }
}

/// What one update does to a fading enemy's smoke animation.
#[derive(Clone, Copy, Debug, PartialEq, Eq, Structural)]
pub enum FadeStep {
    /// Nothing changes this update.
    Stay,
    /// The smoke shows the given frame.
    NextFrame(usize),
    /// The smoke is gone; a power-up may be left behind.
    Vanish { drop_power_up: bool },
}

/// The faces of the three-sided die rolled when an enemy vanishes.
pub const DROP_DIE_LOW: u32 = 1;

pub const DROP_DIE_HIGH: u32 = 4;

/// A vanished enemy leaves a power-up on one face of three.
pub fn drops_power_up(roll: u32) -> (drop: bool)
    ensures
        drop == (roll == 1),
{
    roll == 1
}

/// Exactly one face of the three-sided drop die leaves a power-up: a
/// vanishing enemy drops one with a chance of one in three.
pub proof fn lemma_drop_one_in_three()
    ensures
        Set::new(|r: u32| DROP_DIE_LOW <= r < DROP_DIE_HIGH && r == 1) == set![1u32],
        Set::new(|r: u32| DROP_DIE_LOW <= r < DROP_DIE_HIGH) == set![1u32, 2u32, 3u32],
{
    assert(Set::new(|r: u32| DROP_DIE_LOW <= r < DROP_DIE_HIGH && r == 1) =~= set![1u32]);
    assert(Set::new(|r: u32| DROP_DIE_LOW <= r < DROP_DIE_HIGH) =~= set![1u32, 2u32, 3u32]);
}

/// The smoke of a vanishing enemy whose frame `index` is shown: when its
/// frame timer has just finished, it shows the next frame, or, past the last
/// one, vanishes after rolling the drop die.
pub fn update_disappearance_sprites(health: &Health, index: usize, frame_due: bool) -> (step:
    FadeStep)
    ensures
        !health.is_dying || !frame_due ==> step == FadeStep::Stay,
        health.is_dying && frame_due && index < SMOKE_LAST_FRAME ==> step == FadeStep::NextFrame(
            (index + 1) as usize,
        ),
        health.is_dying && frame_due && index >= SMOKE_LAST_FRAME ==> step is Vanish,
{
    if health.is_dying && frame_due {
        if index >= SMOKE_LAST_FRAME {
            let roll = roll_die(DROP_DIE_LOW, DROP_DIE_HIGH);
            FadeStep::Vanish { drop_power_up: drops_power_up(roll) }
        } else {
            FadeStep::NextFrame(index + 1)
        }
    } else {
        FadeStep::Stay
    }
}

/// An enemy shoots at the player when its shot timer is finished, and only
/// angels shoot.
pub fn enemies_shoot_projectiles(kind: EnemyKind, timer_finished: bool) -> (fires: bool)
    ensures
        fires == (timer_finished && kind == EnemyKind::Angel),
{
    timer_finished && kind == EnemyKind::Angel
}

/// The last frame of an ordinary enemy's flight loop (frames `0..=1`).
pub const ENEMY_LAST_FRAME: usize = 1;

} // verus!
