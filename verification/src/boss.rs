use vstd::prelude::*;

use crate::level::{GamePhase, LevelManager};
use crate::random::roll_die;

verus! {

/// The boss's fighting state. `phase` is 1 until the boss has lost half its
/// health in its second fight and 2 after; `current_attack` (1 or 2) picks
/// one of the two attacks of the phase.
#[derive(Clone, Copy, Debug, PartialEq, Eq, Structural)]
pub struct Boss {
    /// Whether this is the boss's first appearance, which ends in a retreat.
    pub first_spawn: bool,
    /// Whether its ordinary movement has stopped (while it retreats).
    pub stop_normal_move: bool,
    pub phase: u32,
    pub current_attack: u32,
}

/// The boss as it first appears, after the waves before it.
pub open spec fn first_encounter_boss() -> Boss {
    Boss { first_spawn: true, stop_normal_move: false, phase: 1, current_attack: 1 }
}

/// The boss as it returns for the final fight.
pub open spec fn final_fight_boss() -> Boss {
    Boss { first_spawn: false, stop_normal_move: false, phase: 1, current_attack: 1 }
}

impl Boss {
    pub fn first_encounter() -> (b: Boss)
        ensures
            b == first_encounter_boss(),
    {
        Boss { first_spawn: true, stop_normal_move: false, phase: 1, current_attack: 1 }
    }

    pub fn final_fight() -> (b: Boss)
        ensures
            b == final_fight_boss(),
    {
        Boss { first_spawn: false, stop_normal_move: false, phase: 1, current_attack: 1 }
    }
}

/// The boss's attacks.
#[derive(Clone, Copy, Debug, PartialEq, Eq, Structural)]
pub enum BossAttack {
    /// Phase 1, attack 1: a fan of seven vortices, the middle one exploding.
    Basic,
    /// Phase 1, attack 2: a curtain of electrified crosses.
    Rain,
    /// Phase 2, attack 1: a sweeping grid of diagonal strikes.
    Diagonal,
    /// Phase 2, attack 2: rings of fragments flung out and back.
    Boomerang,
}

/// The attack that the boss uses in its phase and attack slot, if any.
pub open spec fn attack_of(boss: Boss) -> Option<BossAttack> {
    if boss.phase == 1 && boss.current_attack == 1 {
        Some(BossAttack::Basic)
    } else if boss.phase == 1 && boss.current_attack == 2 {
        Some(BossAttack::Rain)
    } else if boss.phase == 2 && boss.current_attack == 1 {
        Some(BossAttack::Diagonal)
    } else if boss.phase == 2 && boss.current_attack == 2 {
        Some(BossAttack::Boomerang)
    } else {
        None
    }
}

/// The attack the boss is using now.
pub fn active_attack(boss: &Boss) -> (attack: Option<BossAttack>)
    ensures
        attack == attack_of(*boss),
{
    if boss.phase == 1 && boss.current_attack == 1 {
        Some(BossAttack::Basic)
    } else if boss.phase == 1 && boss.current_attack == 2 {
        Some(BossAttack::Rain)
    } else if boss.phase == 2 && boss.current_attack == 1 {
        Some(BossAttack::Diagonal)
    } else if boss.phase == 2 && boss.current_attack == 2 {
        Some(BossAttack::Boomerang)
    } else {
        None
    }
}

/// The attacks by phase: phase 1 uses the basic fan (slot 1) and the rain
/// (slot 2), phase 2 the diagonal grid (slot 1) and the boomerang rings
/// (slot 2); a switch between slots 1 and 2 changes the attack but keeps it
/// within the phase.
pub proof fn lemma_attacks_by_phase(boss: Boss)
    ensures
        boss.phase == 1 && boss.current_attack == 1 ==> attack_of(boss) == Some(BossAttack::Basic),
        boss.phase == 1 && boss.current_attack == 2 ==> attack_of(boss) == Some(BossAttack::Rain),
        boss.phase == 2 && boss.current_attack == 1 ==> attack_of(boss) == Some(
            BossAttack::Diagonal,
        ),
        boss.phase == 2 && boss.current_attack == 2 ==> attack_of(boss) == Some(
            BossAttack::Boomerang,
        ),
        (boss.phase != 1 && boss.phase != 2) || (boss.current_attack != 1 && boss.current_attack
            != 2) ==> attack_of(boss) is None,
{
}

/// The attack slot after a switch: slot 1 goes to 2, any other to 1.
pub open spec fn switched_attack(current: u32) -> u32 {
    if current == 1 {
        2
    } else {
        1
    }
}

/// When the attack timer has just finished, the boss switches attack.
pub fn change_attack_type(boss: &mut Boss, switch_due: bool)
    ensures
        final(boss).current_attack == (if switch_due {
            switched_attack(old(boss).current_attack)
        } else {
            old(boss).current_attack
        }),
        final(boss).phase == old(boss).phase,
        final(boss).first_spawn == old(boss).first_spawn,
        final(boss).stop_normal_move == old(boss).stop_normal_move,
{
    if switch_due {
        if boss.current_attack == 1 {
            boss.current_attack = 2;
        } else {
            boss.current_attack = 1;
        }
    }
}

/// The boss alternates between its two attacks: after a switch it is in
/// slot 1 or 2, and two switches from either slot come back to it.
pub proof fn lemma_attacks_alternate(current: u32)
    ensures
        switched_attack(current) == 1 || switched_attack(current) == 2,
        switched_attack(current) != current || (current != 1 && current != 2),
        (current == 1 || current == 2) ==> switched_attack(switched_attack(current)) == current,
{
}

/// What reaching half health did to the boss.
#[derive(Clone, Copy, Debug, PartialEq, Eq, Structural)]
pub enum MidHpOutcome {
    /// The first appearance ends: the boss flies off and the waves after it begin.
    Retreat,
    /// The final fight enters its second phase: the boss sweeps to the right.
    SecondPhase,
    /// Nothing changes.
    Unchanged,
}

/// Whether `hp` is at most half of `max_hp`.
pub open spec fn at_half(hp: i32, max_hp: i32) -> bool {
    2 * hp <= max_hp
}

/// What reaching half health does to the boss this frame: a first
/// appearance ends; in the final fight, phase 1 gives way to phase 2.
pub open spec fn mid_hp_outcome(boss: Boss, hp: i32, max_hp: i32) -> MidHpOutcome {
    if at_half(hp, max_hp) && boss.first_spawn {
        MidHpOutcome::Retreat
    } else if at_half(hp, max_hp) && !boss.first_spawn && boss.phase == 1 {
        MidHpOutcome::SecondPhase
    } else {
        MidHpOutcome::Unchanged
    }
}

/// The boss after this frame's health check.
pub open spec fn boss_after_mid_hp(boss: Boss, hp: i32, max_hp: i32) -> Boss {
    match mid_hp_outcome(boss, hp, max_hp) {
        MidHpOutcome::Retreat => Boss { stop_normal_move: true, ..boss },
        MidHpOutcome::SecondPhase => Boss { phase: 2, ..boss },
        MidHpOutcome::Unchanged => boss,
    }
}

/// The boss's reaction to its health in one frame. At half health or less,
/// a first appearance ends (its movement stops, and the level goes on to the
/// waves after the boss, from the start of that list and of its clock); in
/// the final fight, phase 1 gives way to phase 2. `max_hp` is the boss's
/// full health.
pub fn check_mid_hp(boss: &mut Boss, hp: i32, max_hp: i32, manager: &mut LevelManager) -> (outcome:
    MidHpOutcome)
    ensures
        outcome == mid_hp_outcome(*old(boss), hp, max_hp),
        *final(boss) == boss_after_mid_hp(*old(boss), hp, max_hp),
        *final(manager) == (if outcome == MidHpOutcome::Retreat {
            LevelManager { current_phase: GamePhase::PostBoss, phase_timer_us: 0, next_index: 0 }
        } else {
            *old(manager)
        }),
{
    let half = (hp as i64) * 2 <= max_hp as i64;
    if half && boss.first_spawn {
        boss.stop_normal_move = true;
        manager.current_phase = GamePhase::PostBoss;
        manager.phase_timer_us = 0;
        manager.next_index = 0;
        MidHpOutcome::Retreat
    } else if half && !boss.first_spawn && boss.phase == 1 {
        boss.phase = 2;
        MidHpOutcome::SecondPhase
    } else {
        MidHpOutcome::Unchanged
    }
}

/// The boss's phase never goes back, its first-appearance flag and its
/// attack slot never change with its health, only a first appearance
/// retreats, and only the final fight reaches phase 2; once in phase 2 it
/// stays there.
pub proof fn lemma_boss_phase_forward(boss: Boss, hp: i32, max_hp: i32)
    ensures
        boss_after_mid_hp(boss, hp, max_hp).phase >= boss.phase,
        boss_after_mid_hp(boss, hp, max_hp).first_spawn == boss.first_spawn,
        boss_after_mid_hp(boss, hp, max_hp).current_attack == boss.current_attack,
        mid_hp_outcome(boss, hp, max_hp) == MidHpOutcome::Retreat ==> boss.first_spawn,
        mid_hp_outcome(boss, hp, max_hp) == MidHpOutcome::SecondPhase ==> !boss.first_spawn
            && boss.phase == 1,
        boss.phase == 2 ==> boss_after_mid_hp(boss, hp, max_hp).phase == 2,
        !at_half(hp, max_hp) ==> boss_after_mid_hp(boss, hp, max_hp) == boss,
{
}

/// The health checkpoint, over all inputs: a first-appearance boss at or
/// below half health retreats on every frame, whether or not it was already
/// retreating, and its movement stays stopped; a final-fight boss in phase 1
/// at or below half health enters phase 2; above half health, or in the
/// final fight past phase 1, nothing changes. Only the movement flag and the
/// phase can change, and the attack slot and first-appearance flag never do.
pub proof fn lemma_half_health_checkpoint(boss: Boss, hp: i32, max_hp: i32)
    ensures
        boss.first_spawn && 2 * hp <= max_hp ==> mid_hp_outcome(boss, hp, max_hp)
            == MidHpOutcome::Retreat && boss_after_mid_hp(boss, hp, max_hp).stop_normal_move
            && boss_after_mid_hp(boss, hp, max_hp).phase == boss.phase,
        !boss.first_spawn && boss.phase == 1 && 2 * hp <= max_hp ==> mid_hp_outcome(
            boss,
            hp,
            max_hp,
        ) == MidHpOutcome::SecondPhase && boss_after_mid_hp(boss, hp, max_hp).phase == 2
            && boss_after_mid_hp(boss, hp, max_hp).stop_normal_move == boss.stop_normal_move,
        2 * hp > max_hp || (!boss.first_spawn && boss.phase != 1) ==> mid_hp_outcome(
            boss,
            hp,
            max_hp,
        ) == MidHpOutcome::Unchanged && boss_after_mid_hp(boss, hp, max_hp) == boss,
        boss_after_mid_hp(boss, hp, max_hp).first_spawn == boss.first_spawn,
        boss_after_mid_hp(boss, hp, max_hp).current_attack == boss.current_attack,
{
}

/// How the boss moves this frame.
#[derive(Clone, Copy, Debug, PartialEq, Eq, Structural)]
pub enum BossMovement {
    /// It does not move on its own (it is retreating).
    Halted,
    /// Phase 1: it flies from one waypoint to the next.
    Waypoints,
    /// Phase 2: it sweeps from side to side.
    Sweep,
    /// Any other phase: it stays where it is.
    Still,
}

/// The movement the boss's state calls for.
pub fn move_boss(boss: &Boss) -> (movement: BossMovement)
    ensures
        movement == (if boss.stop_normal_move {
            BossMovement::Halted
        } else if boss.phase == 1 {
            BossMovement::Waypoints
        } else if boss.phase == 2 {
            BossMovement::Sweep
        } else {
            BossMovement::Still
        }),
{
    if boss.stop_normal_move {
        BossMovement::Halted
    } else if boss.phase == 1 {
        BossMovement::Waypoints
    } else if boss.phase == 2 {
        BossMovement::Sweep
    } else {
        BossMovement::Still
    }
}

/// The waypoint (x, y) that a roll of the six-sided waypoint die picks:
/// three columns at x = -140, 0, 140 on a high row (y = 180, faces 1 to 3)
/// and a low row (y = 80, faces 4 to 6). Any other number keeps the current
/// waypoint (`None`).
pub open spec fn waypoint_spec(roll: u32) -> Option<(i32, i32)> {
    if roll == 1 {
        Some((-140i32, 180i32))
    } else if roll == 2 {
        Some((0i32, 180i32))
    } else if roll == 3 {
        Some((140i32, 180i32))
    } else if roll == 4 {
        Some((-140i32, 80i32))
    } else if roll == 5 {
        Some((0i32, 80i32))
    } else if roll == 6 {
        Some((140i32, 80i32))
    } else {
        None
    }
}

pub fn waypoint_for_roll(roll: u32) -> (p: Option<(i32, i32)>)
    ensures
        p == waypoint_spec(roll),
{
    match roll {
        1 => Some((-140, 180)),
        2 => Some((0, 180)),
        3 => Some((140, 180)),
        4 => Some((-140, 80)),
        5 => Some((0, 80)),
        6 => Some((140, 80)),
        _ => None,
    }
}

/// The six waypoints.
pub open spec fn is_waypoint(p: (i32, i32)) -> bool {
    (p.0 == -140 || p.0 == 0 || p.0 == 140) && (p.1 == 180 || p.1 == 80)
}

/// Picks the boss's next waypoint by rolling the six-sided waypoint die;
/// whatever the roll, it is one of the six waypoints.
pub fn next_waypoint() -> (p: (i32, i32))
    ensures
        is_waypoint(p),
        exists|roll: u32| 1 <= roll < 7 && waypoint_spec(roll) == Some(p),
{
    let roll = roll_die(1, 7);
    let p = waypoint_for_roll(roll);
    match p {
        Some(q) => q,
        None => (0, 180),
    }
}

/// Every face of the waypoint die names a waypoint, and the six faces name
/// the six waypoints, each once.
pub proof fn lemma_waypoints_cover(roll: u32, other: u32)
    ensures
        1 <= roll < 7 ==> waypoint_spec(roll) is Some && is_waypoint(waypoint_spec(roll)->0),
        1 <= roll < 7 && 1 <= other < 7 && roll != other ==> waypoint_spec(roll) != waypoint_spec(
            other,
        ),
        forall|p: (i32, i32)|
            is_waypoint(p) ==> exists|r: u32| 1 <= r < 7 && #[trigger] waypoint_spec(r) == Some(p),
{
    assert forall|p: (i32, i32)| is_waypoint(p) implies exists|r: u32|
        1 <= r < 7 && #[trigger] waypoint_spec(r) == Some(p) by {
        if p.1 == 180 {
            if p.0 == -140 {
                assert(waypoint_spec(1) == Some(p));
            } else if p.0 == 0 {
                assert(waypoint_spec(2) == Some(p));
            } else {
                assert(waypoint_spec(3) == Some(p));
            }
        } else {
            if p.0 == -140 {
                assert(waypoint_spec(4) == Some(p));
            } else if p.0 == 0 {
                assert(waypoint_spec(5) == Some(p));
            } else {
                assert(waypoint_spec(6) == Some(p));
            }
        }
    }
}

/// Sideways drift of the shots of the basic attack, in hundredths of the
/// downward speed: the middle shot, three to the right, three to the left.
pub open spec fn basic_spread_spec() -> Seq<i32> {
    seq![0i32, 19i32, 38i32, 57i32, -19i32, -38i32, -57i32]
}

/// The fan of the basic attack, in the order its shots are fired.
pub fn basic_shoot_projectiles() -> (spread: Vec<i32>)
    ensures
        spread@ == basic_spread_spec(),
{
    let mut spread: Vec<i32> = Vec::new();
    spread.push(0);
    let mut i: i32 = 1;
    while i < 4
        invariant
            1 <= i <= 4,
            spread@.len() == i,
            spread@[0] == 0,
            forall|k: int| 1 <= k < i ==> #[trigger] spread@[k] == 19 * k,
        decreases 4 - i,
    {
        spread.push(19 * i);
        i = i + 1;
    }
    let mut j: i32 = 1;
    while j < 4
        invariant
            1 <= j <= 4,
            spread@.len() == 3 + j,
            spread@[0] == 0,
            forall|k: int| 1 <= k < 4 ==> #[trigger] spread@[k] == 19 * k,
            forall|k: int| 4 <= k < 3 + j ==> #[trigger] spread@[k] == -19 * (k - 3),
        decreases 4 - j,
    {
        spread.push(0 - 19 * j);
        j = j + 1;
    }
    assert(spread@[1] == 19 && spread@[2] == 38 && spread@[3] == 57);
    assert(spread@[4] == -19 && spread@[5] == -38 && spread@[6] == -57);
    assert(spread@ =~= basic_spread_spec());
    spread
}

/// The rows of the diagonal attack's grid.
pub const DIAGONAL_ROWS: u32 = 50;

/// Delay of a cell of the diagonal attack's grid, in microseconds: 0.15 s per
/// column and 0.10 s per row.
pub open spec fn diagonal_delay(col: int, row: int) -> int {
    col * 150_000 + row * 100_000
}

/// The diagonal attack sweeps: the first strike of the grid lands at once,
/// each row lands 0.10 s after the one above it and each column 0.15 s after
/// the one to its left.
pub proof fn lemma_diagonal_sweep(col: int, row: int)
    ensures
        diagonal_delay(0, 0) == 0,
        diagonal_delay(col, row + 1) == diagonal_delay(col, row) + 100_000,
        diagonal_delay(col + 1, row) == diagonal_delay(col, row) + 150_000,
{
}

/// One strike of the diagonal attack: its grid column, its row, and how long
/// after the attack it lands (microseconds).
#[derive(Clone, Copy, Debug, PartialEq, Eq, Structural)]
pub struct DiagonalCell {
    pub col: u32,
    pub row: u32,
    pub delay_us: u64,
}

/// The strikes of the diagonal attack over the grid columns
/// `first_col..num_cols` (the columns left of the safe strip are skipped), each
/// column from the top row down; the strikes sweep across the screen as their
/// delays grow by column and by row.
pub fn shoot_boss_diagonal_attack(first_col: u32, num_cols: u32) -> (cells: Vec<DiagonalCell>)
    requires
        num_cols <= 100_000,
    ensures
        cells.len() == (if first_col < num_cols {
            (num_cols - first_col) * DIAGONAL_ROWS
        } else {
            0
        }),
        forall|c: int, r: int|
            first_col <= c < num_cols && 0 <= r < DIAGONAL_ROWS ==> #[trigger] cells@[(c - first_col)
                * DIAGONAL_ROWS + r] == (DiagonalCell {
                col: c as u32,
                row: r as u32,
                delay_us: diagonal_delay(c, r) as u64,
            }),
{
    let mut cells: Vec<DiagonalCell> = Vec::new();
    let mut col = first_col;
    while col < num_cols
        invariant
            num_cols <= 100_000,
            first_col < num_cols ==> first_col <= col <= num_cols,
            first_col >= num_cols ==> col == first_col,
            cells.len() == (if first_col < col {
                (col - first_col) * DIAGONAL_ROWS
            } else {
                0
            }),
            forall|c: int, r: int|
                first_col <= c < col && 0 <= r < DIAGONAL_ROWS ==> #[trigger] cells@[(c - first_col)
                    * DIAGONAL_ROWS + r] == (DiagonalCell {
                    col: c as u32,
                    row: r as u32,
                    delay_us: diagonal_delay(c, r) as u64,
                }),
        decreases num_cols - col,
    {
        let mut row: u32 = 0;
        let ghost base = cells.len();
        while row < DIAGONAL_ROWS
            invariant
                num_cols <= 100_000,
                first_col <= col < num_cols,
                row <= DIAGONAL_ROWS,
                base == (col - first_col) * DIAGONAL_ROWS,
                cells.len() == base + row,
                forall|c: int, r: int|
                    first_col <= c < col && 0 <= r < DIAGONAL_ROWS ==> #[trigger] cells@[(c
                        - first_col) * DIAGONAL_ROWS + r] == (DiagonalCell {
                        col: c as u32,
                        row: r as u32,
                        delay_us: diagonal_delay(c, r) as u64,
                    }),
                forall|r: int|
                    0 <= r < row ==> #[trigger] cells@[base + r] == (DiagonalCell {
                        col: col,
                        row: r as u32,
                        delay_us: diagonal_delay(col as int, r) as u64,
                    }),
            decreases DIAGONAL_ROWS - row,
        {
            let delay = (col as u64) * 150_000 + (row as u64) * 100_000;
            cells.push(DiagonalCell { col, row, delay_us: delay });
            row = row + 1;
        }
        proof {
            assert forall|c: int, r: int|
                first_col <= c < col + 1 && 0 <= r < DIAGONAL_ROWS implies #[trigger] cells@[(c
                    - first_col) * DIAGONAL_ROWS + r] == (DiagonalCell {
                    col: c as u32,
                    row: r as u32,
                    delay_us: diagonal_delay(c, r) as u64,
                }) by {
                if c < col {
                    assert((c - first_col) * DIAGONAL_ROWS + r < base) by (nonlinear_arith)
                        requires
                            c < col,
                            0 <= r < DIAGONAL_ROWS,
                            base == (col - first_col) * DIAGONAL_ROWS,
                            DIAGONAL_ROWS == 50,
                    ;
                } else {
                    assert(c == col);
                    assert((c - first_col) * DIAGONAL_ROWS + r == base + r);
                }
            }
        }
        col = col + 1;
    }
    cells
}

/// How long a diagonal strike stays on the field once it lands
/// (microseconds).
pub const DIAGONAL_LIFETIME_US: u64 = 2_000_000;

/// The diagonal strikes due and spent at `now_us`: a pending strike whose
/// landing time `pending[k]` has come lands (`land[k]`), and a landed strike
/// that landed at `landed[k]` is removed once its lifetime is over
/// (`expire[k]`).
pub fn move_diagonal_projectiles(now_us: u64, pending: &Vec<u64>, landed: &Vec<u64>) -> (r: (
    Vec<bool>,
    Vec<bool>,
))
    ensures
        r.0.len() == pending.len(),
        r.1.len() == landed.len(),
        forall|k: int| 0 <= k < pending.len() ==> #[trigger] r.0[k] == (now_us >= pending[k]),
        forall|k: int|
            0 <= k < landed.len() ==> #[trigger] r.1[k] == (now_us >= landed[k]
                + DIAGONAL_LIFETIME_US),
{
    let mut land: Vec<bool> = Vec::new();
    let mut k: usize = 0;
    while k < pending.len()
        invariant
            0 <= k <= pending.len(),
            land.len() == k,
            forall|j: int| 0 <= j < k ==> #[trigger] land[j] == (now_us >= pending[j]),
        decreases pending.len() - k,
    {
        land.push(now_us >= pending[k]);
        k = k + 1;
    }
    let mut expire: Vec<bool> = Vec::new();
    let mut k: usize = 0;
    while k < landed.len()
        invariant
            0 <= k <= landed.len(),
            expire.len() == k,
            forall|j: int|
                0 <= j < k ==> #[trigger] expire[j] == (now_us >= landed[j] + DIAGONAL_LIFETIME_US),
        decreases landed.len() - k,
    {
        let t = landed[k];
        let spent = if t > u64::MAX - DIAGONAL_LIFETIME_US {
            false
        } else {
            now_us >= t + DIAGONAL_LIFETIME_US
        };
        expire.push(spent);
        k = k + 1;
    }
    (land, expire)
}

/// The boss's health bar is put up when a boss is on the field without one.
pub fn show_health_bar(boss_present: bool, bar_present: bool) -> (show: bool)
    ensures
        show == (boss_present && !bar_present),
{
    boss_present && !bar_present
}

/// The health bar is taken down once no boss is left.
pub fn delete_health_bar(boss_present: bool, bar_present: bool) -> (delete: bool)
    ensures
        delete == (!boss_present && bar_present),
{
    !boss_present && bar_present
}

/// The last frame of the boss's flight loop (frames `0..=9`).
pub const BOSS_LAST_FRAME: usize = 9;

/// The last frame of a diagonal strike's loop (frames `0..=4`).
pub const DIAGONAL_LAST_FRAME: usize = 4;

} // verus!
