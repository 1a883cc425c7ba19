use vstd::prelude::*;

use crate::boss::{Boss, final_fight_boss, first_encounter_boss};
use crate::enemy::{EnemyKind, Health};
use crate::random::roll_die;

verus! {

/// The stage of the level being played.
#[derive(Clone, Copy, Debug, PartialEq, Eq, Structural)]
pub enum GamePhase {
    /// Waves before the boss.
    PreBoss,
    /// The boss's first appearance, up to half its health.
    FistBossEncounter,
    /// Waves after the boss has retreated.
    PostBoss,
    /// The boss's return.
    BossFight,
    /// The conversation between the heroes.
    Dialogue,
}

/// One enemy of a level: when it appears (microseconds into its phase), its
/// hit points and its kind.
#[derive(Clone, Copy, Debug, PartialEq, Eq, Structural)]
pub struct EnemyWave {
    pub spawn_time_us: u64,
    pub hp: i32,
    pub kind: EnemyKind,
}

impl EnemyWave {
    /// The health an enemy of this wave starts with.
    pub fn spawn_health(&self) -> (h: Health)
        ensures
            h.hp == self.hp,
            !h.is_dying,
    {
        Health::new(self.hp)
    }
}

/// The schedule of a level: the waves before the boss, the boss, and the
/// waves after it, each list in the order it is released.
pub struct LevelData {
    pub pre_boss: Vec<EnemyWave>,
    pub boss: EnemyWave,
    pub post_boss: Vec<EnemyWave>,
}

/// Where the level stands: its phase, the time spent in that phase
/// (microseconds) and the next wave to release.
#[derive(Clone, Copy, Debug, PartialEq, Eq, Structural)]
pub struct LevelManager {
    pub current_phase: GamePhase,
    pub phase_timer_us: u64,
    pub next_index: usize,
}

impl LevelManager {
    /// The start of a level: before the boss, no time spent, no wave released.
    pub fn new() -> (m: LevelManager)
        ensures
            m == (LevelManager { current_phase: GamePhase::PreBoss, phase_timer_us: 0, next_index: 0 }),
    {
        LevelManager { current_phase: GamePhase::PreBoss, phase_timer_us: 0, next_index: 0 }
    }
}

/// Which list of the level a released index refers to.
#[derive(Clone, Copy, Debug, PartialEq, Eq, Structural)]
pub enum WaveList {
    PreBoss,
    PostBoss,
}

/// What one frame of the level director asks the game to do.
pub struct LevelStep {
    /// The list that `spawned` indexes, if the phase has one.
    pub list: Option<WaveList>,
    /// The waves to bring in this frame, in order.
    pub spawned: Vec<usize>,
    /// A boss to bring in.
    pub boss: Option<Boss>,
    /// Whether the game is to pause.
    pub pause_game: bool,
    /// Whether the enemies' shots are to be cleared.
    pub clear_projectiles: bool,
}

/// `a + b`, held at the top of the `u64` range.
pub open spec fn sat_add(a: u64, b: u64) -> u64 {
    if a + b > u64::MAX {
        u64::MAX
    } else {
        (a + b) as u64
    }
}

/// Adds `delta` microseconds to a clock, stopping at the top of the range.
pub fn add_time(t: u64, delta: u64) -> (r: u64)
    ensures
        r == sat_add(t, delta),
{
    if t > u64::MAX - delta {
        u64::MAX
    } else {
        t + delta
    }
}

/// The end of the run of waves, starting at `i`, whose time has come by
/// time `t`: the first index from `i` on that is past the list or not yet due.
pub open spec fn due_end(waves: Seq<EnemyWave>, i: int, t: u64) -> int
    decreases waves.len() - i,
{
    if 0 <= i < waves.len() && waves[i].spawn_time_us <= t {
        due_end(waves, i + 1, t)
    } else {
        i
    }
}

/// The waves of the current phase: its list for the phases that have one,
/// none for the others.
pub open spec fn current_waves(m: LevelManager, level: LevelData) -> Seq<EnemyWave> {
    match m.current_phase {
        GamePhase::PreBoss => level.pre_boss@,
        GamePhase::PostBoss => level.post_boss@,
        _ => Seq::empty(),
    }
}

/// Whether the phase releases waves.
pub open spec fn has_waves(phase: GamePhase) -> bool {
    phase == GamePhase::PreBoss || phase == GamePhase::PostBoss
}

/// The index of the next wave after a frame of `delta` microseconds: every
/// wave whose time has come is released, in order.
pub open spec fn released_end(m: LevelManager, level: LevelData, delta: u64) -> int {
    if has_waves(m.current_phase) {
        due_end(current_waves(m, level), m.next_index as int, sat_add(m.phase_timer_us, delta))
    } else {
        m.next_index as int
    }
}

/// The indices `start..end`, in order.
pub open spec fn index_range(start: int, end: int) -> Seq<usize> {
    Seq::new((end - start) as nat, |k: int| (start + k) as usize)
}

/// Whether the frame ends the waves before the boss: all released and none
/// of the enemies left on screen.
pub open spec fn pre_boss_cleared(m: LevelManager, level: LevelData, delta: u64, enemies_present: bool) -> bool {
    m.current_phase == GamePhase::PreBoss && released_end(m, level, delta) >= level.pre_boss@.len()
        && !enemies_present
}

/// Whether the frame ends the waves after the boss.
pub open spec fn post_boss_cleared(m: LevelManager, level: LevelData, delta: u64, enemies_present: bool) -> bool {
    m.current_phase == GamePhase::PostBoss && released_end(m, level, delta) >= level.post_boss@.len()
        && !enemies_present
}

/// Whether the frame, having cleared the waves after the boss, goes on at
/// once from the dialogue to the final boss fight: the game was running when
/// the frame began (the pause it asks for takes effect only after the frame).
pub open spec fn final_fight_begins(
    m: LevelManager,
    level: LevelData,
    delta: u64,
    enemies_present: bool,
    game_running: bool,
) -> bool {
    post_boss_cleared(m, level, delta, enemies_present) && game_running
}

/// The level's state after one frame of `delta` microseconds, given whether
/// enemies were on screen and whether the game was running at the start of
/// the frame.
pub open spec fn director_next(
    m: LevelManager,
    level: LevelData,
    delta: u64,
    enemies_present: bool,
    game_running: bool,
) -> LevelManager {
    let t = sat_add(m.phase_timer_us, delta);
    let end = released_end(m, level, delta);
    if pre_boss_cleared(m, level, delta, enemies_present) {
        LevelManager { current_phase: GamePhase::FistBossEncounter, phase_timer_us: 0, next_index: 0 }
    } else if final_fight_begins(m, level, delta, enemies_present, game_running) {
        LevelManager { current_phase: GamePhase::BossFight, phase_timer_us: 0, next_index: 0 }
    } else if post_boss_cleared(m, level, delta, enemies_present) {
        LevelManager { current_phase: GamePhase::Dialogue, phase_timer_us: t, next_index: end as usize }
    } else {
        LevelManager { current_phase: m.current_phase, phase_timer_us: t, next_index: end as usize }
    }
}

/// The run of due waves starts at `i`, reaches no further than the list
/// (unless it starts past it), holds only waves due by `t`, and stops at the
/// end of the list or at a wave not yet due.
pub proof fn lemma_due_end_bounds(waves: Seq<EnemyWave>, i: int, t: u64)
    requires
        0 <= i,
    ensures
        i <= due_end(waves, i, t),
        i <= waves.len() ==> due_end(waves, i, t) <= waves.len(),
        i > waves.len() ==> due_end(waves, i, t) == i,
        forall|k: int| i <= k < due_end(waves, i, t) ==> #[trigger] waves[k].spawn_time_us <= t,
        due_end(waves, i, t) < waves.len() ==> waves[due_end(waves, i, t)].spawn_time_us > t,
    decreases waves.len() - i,
{
    if 0 <= i < waves.len() && waves[i].spawn_time_us <= t {
        lemma_due_end_bounds(waves, i + 1, t);
    }
}

/// Frame-rate independence of the director: releasing the waves due by `t1`
/// and then those due by a later `t2` releases exactly the waves due by
/// `t2` in one go.
pub proof fn lemma_due_end_compose(waves: Seq<EnemyWave>, i: int, t1: u64, t2: u64)
    requires
        0 <= i,
        t1 <= t2,
    ensures
        due_end(waves, due_end(waves, i, t1), t2) == due_end(waves, i, t2),
    decreases waves.len() - i,
{
    if 0 <= i < waves.len() && waves[i].spawn_time_us <= t1 {
        lemma_due_end_compose(waves, i + 1, t1, t2);
    }
}

/// The released end starts at the next wave, fits the index type, and stays
/// within the current list unless the index already lies past it.
proof fn lemma_released_end_fits(m: LevelManager, level: LevelData, delta: u64)
    ensures
        m.next_index <= released_end(m, level, delta) <= usize::MAX,
        m.next_index <= current_waves(m, level).len() ==> released_end(m, level, delta)
            <= current_waves(m, level).len(),
        m.next_index > current_waves(m, level).len() ==> released_end(m, level, delta)
            == m.next_index,
{
    assert(level.pre_boss.len() == level.pre_boss@.len());
    assert(level.post_boss.len() == level.post_boss@.len());
    if has_waves(m.current_phase) {
        lemma_due_end_bounds(
            current_waves(m, level),
            m.next_index as int,
            sat_add(m.phase_timer_us, delta),
        );
    }
}

/// Two frames of `d1` and then `d2` microseconds inside a phase with waves
/// (neither ending it nor reaching the top of the clock) leave the level
/// where one frame of `d1 + d2` would, and release the same waves in the
/// same order.
pub proof fn lemma_two_frames_as_one(
    m: LevelManager,
    level: LevelData,
    d1: u64,
    d2: u64,
    enemies_present: bool,
    game_running: bool,
)
    requires
        has_waves(m.current_phase),
        m.phase_timer_us + d1 + d2 <= u64::MAX,
        !pre_boss_cleared(m, level, d1, enemies_present),
        !post_boss_cleared(m, level, d1, enemies_present),
    ensures
        ({
            let mid = director_next(m, level, d1, enemies_present, game_running);
            &&& released_end(mid, level, d2) == released_end(m, level, (d1 + d2) as u64)
            &&& index_range(m.next_index as int, mid.next_index as int) + index_range(
                mid.next_index as int,
                released_end(mid, level, d2),
            ) == index_range(m.next_index as int, released_end(m, level, (d1 + d2) as u64))
            &&& mid.phase_timer_us + d2 == m.phase_timer_us + d1 + d2
        }),
{
    let mid = director_next(m, level, d1, enemies_present, game_running);
    let waves = current_waves(m, level);
    let t1 = sat_add(m.phase_timer_us, d1);
    let t2 = sat_add(m.phase_timer_us, (d1 + d2) as u64);
    lemma_released_end_fits(m, level, d1);
    lemma_due_end_compose(waves, m.next_index as int, t1, t2);
    assert(mid.current_phase == m.current_phase);
    assert(current_waves(mid, level) == waves);
    assert(sat_add(mid.phase_timer_us, d2) == t2);
    let a = m.next_index as int;
    let b = mid.next_index as int;
    assert(b == released_end(m, level, d1));
    lemma_released_end_fits(mid, level, d2);
    let c = released_end(mid, level, d2);
    assert(a <= b <= c);
    assert(index_range(a, b) + index_range(b, c) =~= index_range(a, c));
}

/// The order in which the phases follow one another.
pub open spec fn phase_rank(phase: GamePhase) -> int {
    match phase {
        GamePhase::PreBoss => 0,
        GamePhase::FistBossEncounter => 1,
        GamePhase::PostBoss => 2,
        GamePhase::Dialogue => 3,
        GamePhase::BossFight => 4,
    }
}

/// The director never takes the level back to an earlier phase and never
/// moves back in a list while the phase holds. It moves on only from a phase
/// with waves: from the waves before the boss to the boss's first
/// appearance, and from the waves after it to the final fight (or, when the
/// game was not running, to the dialogue); entering an encounter starts its
/// clock and list from zero.
pub proof fn lemma_director_moves_forward(
    m: LevelManager,
    level: LevelData,
    delta: u64,
    enemies_present: bool,
    game_running: bool,
)
    ensures
        ({
            let n = director_next(m, level, delta, enemies_present, game_running);
            &&& phase_rank(n.current_phase) >= phase_rank(m.current_phase)
            &&& n.current_phase == m.current_phase ==> n.next_index >= m.next_index
            &&& n.current_phase != m.current_phase ==> {
                ||| m.current_phase == GamePhase::PreBoss && n.current_phase
                    == GamePhase::FistBossEncounter
                ||| m.current_phase == GamePhase::PostBoss && n.current_phase == GamePhase::BossFight
                ||| m.current_phase == GamePhase::PostBoss && n.current_phase == GamePhase::Dialogue
                    && !game_running
            }
            &&& (n.current_phase == GamePhase::FistBossEncounter || n.current_phase
                == GamePhase::BossFight) && n.current_phase != m.current_phase ==> n.phase_timer_us
                == 0 && n.next_index == 0
        }),
{
    lemma_released_end_fits(m, level, delta);
}

/// The run of due waves from `i` reaches the end of the list exactly when
/// every wave from `i` on is due by `t`.
proof fn lemma_due_end_reaches_end(waves: Seq<EnemyWave>, i: int, t: u64)
    requires
        0 <= i <= waves.len(),
    ensures
        due_end(waves, i, t) == waves.len() <==> forall|k: int|
            i <= k < waves.len() ==> #[trigger] waves[k].spawn_time_us <= t,
{
    lemma_due_end_bounds(waves, i, t);
}

/// The clock of the phase after a frame of `delta` microseconds: the sum,
/// held at the top of the `u64` range.
pub open spec fn clock_after(timer: u64, delta: u64) -> int {
    if timer + delta > u64::MAX {
        u64::MAX as int
    } else {
        timer + delta
    }
}

/// Before the boss, the boss arrives exactly when no enemy is on screen and
/// every wave of the pre-boss list from the next one on is due, so none is
/// skipped; the encounter starts with its clock and list at zero. Otherwise
/// the level stays before the boss, its clock advances by `delta`, and the
/// next index moves past exactly the waves now due, stopping at the first
/// wave not yet due.
pub proof fn lemma_boss_waits_for_every_pre_boss_wave(
    m: LevelManager,
    level: LevelData,
    delta: u64,
    enemies_present: bool,
    game_running: bool,
)
    requires
        m.current_phase == GamePhase::PreBoss,
    ensures
        ({
            let n = director_next(m, level, delta, enemies_present, game_running);
            let pre = level.pre_boss@;
            let t = clock_after(m.phase_timer_us, delta);
            &&& n.current_phase == GamePhase::FistBossEncounter || n.current_phase
                == GamePhase::PreBoss
            &&& n.current_phase == GamePhase::FistBossEncounter <==> (!enemies_present && forall|
                k: int,
            | m.next_index <= k < pre.len() ==> #[trigger] pre[k].spawn_time_us <= t)
            &&& n.current_phase == GamePhase::FistBossEncounter ==> n.phase_timer_us == 0
                && n.next_index == 0
            &&& n.current_phase == GamePhase::PreBoss ==> n.phase_timer_us == t
            &&& n.current_phase == GamePhase::PreBoss && m.next_index <= pre.len() ==> {
                &&& m.next_index <= n.next_index <= pre.len()
                &&& forall|k: int|
                    m.next_index <= k < n.next_index ==> #[trigger] pre[k].spawn_time_us <= t
                &&& n.next_index < pre.len() ==> pre[n.next_index as int].spawn_time_us > t
            }
        }),
{
    let pre = level.pre_boss@;
    let t = sat_add(m.phase_timer_us, delta);
    assert(level.pre_boss.len() == pre.len());
    lemma_released_end_fits(m, level, delta);
    if m.next_index <= pre.len() {
        lemma_due_end_reaches_end(pre, m.next_index as int, t);
        lemma_due_end_bounds(pre, m.next_index as int, t);
    }
}

/// After the boss's retreat, the level moves on exactly when no enemy is on
/// screen and every wave of the post-boss list from the next one on is due:
/// to the final fight, with its clock and list at zero, when the game was
/// running, and to the dialogue otherwise. Until then the level stays after
/// the boss, its clock advances by `delta`, and the next index moves past
/// exactly the waves now due.
pub proof fn lemma_final_fight_waits_for_every_post_boss_wave(
    m: LevelManager,
    level: LevelData,
    delta: u64,
    enemies_present: bool,
    game_running: bool,
)
    requires
        m.current_phase == GamePhase::PostBoss,
    ensures
        ({
            let n = director_next(m, level, delta, enemies_present, game_running);
            let post = level.post_boss@;
            let t = clock_after(m.phase_timer_us, delta);
            let cleared = !enemies_present && forall|k: int|
                m.next_index <= k < post.len() ==> #[trigger] post[k].spawn_time_us <= t;
            &&& n.current_phase == GamePhase::BossFight <==> cleared && game_running
            &&& n.current_phase == GamePhase::Dialogue <==> cleared && !game_running
            &&& n.current_phase == GamePhase::PostBoss <==> !cleared
            &&& n.current_phase == GamePhase::BossFight ==> n.phase_timer_us == 0 && n.next_index
                == 0
            &&& n.current_phase != GamePhase::BossFight ==> n.phase_timer_us == t
            &&& n.current_phase != GamePhase::BossFight && m.next_index <= post.len() ==> {
                &&& m.next_index <= n.next_index <= post.len()
                &&& forall|k: int|
                    m.next_index <= k < n.next_index ==> #[trigger] post[k].spawn_time_us <= t
                &&& n.next_index < post.len() ==> post[n.next_index as int].spawn_time_us > t
            }
        }),
{
    let post = level.post_boss@;
    let t = sat_add(m.phase_timer_us, delta);
    assert(level.post_boss.len() == post.len());
    lemma_released_end_fits(m, level, delta);
    if m.next_index <= post.len() {
        lemma_due_end_reaches_end(post, m.next_index as int, t);
        lemma_due_end_bounds(post, m.next_index as int, t);
    }
}

/// The other phases release nothing and never change: only their clock
/// advances.
pub proof fn lemma_encounters_hold(
    m: LevelManager,
    level: LevelData,
    delta: u64,
    enemies_present: bool,
    game_running: bool,
)
    requires
        m.current_phase != GamePhase::PreBoss,
        m.current_phase != GamePhase::PostBoss,
    ensures
        director_next(m, level, delta, enemies_present, game_running) == (LevelManager {
            current_phase: m.current_phase,
            phase_timer_us: clock_after(m.phase_timer_us, delta) as u64,
            next_index: m.next_index,
        }),
{
}

/// One frame of the level director. The clock of the phase advances by
/// `delta` microseconds; in a phase with waves, every wave whose time has
/// come is released in order; once all the waves before the boss are out and
/// no enemy was on screen, the boss makes its first appearance; once all the
/// waves after it are out and no enemy was on screen, the game is asked to
/// pause for the dialogue, the enemies' shots are cleared and, the game having
/// been running at the start of the frame, the level goes on in the same frame
/// to the final fight, where the boss returns. The other phases release
/// nothing.
pub fn spawn_from_level_data(
    manager: &mut LevelManager,
    level: &LevelData,
    delta_us: u64,
    enemies_present: bool,
    game_running: bool,
) -> (step: LevelStep)
    ensures
        *final(manager) == director_next(
            *old(manager),
            *level,
            delta_us,
            enemies_present,
            game_running,
        ),
        step.spawned@ == index_range(
            old(manager).next_index as int,
            released_end(*old(manager), *level, delta_us),
        ),
        step.list == (match old(manager).current_phase {
            GamePhase::PreBoss => Some(WaveList::PreBoss),
            GamePhase::PostBoss => Some(WaveList::PostBoss),
            _ => None::<WaveList>,
        }),
        step.boss == (if pre_boss_cleared(*old(manager), *level, delta_us, enemies_present) {
            Some(first_encounter_boss())
        } else if final_fight_begins(
            *old(manager),
            *level,
            delta_us,
            enemies_present,
            game_running,
        ) {
            Some(final_fight_boss())
        } else {
            None::<Boss>
        }),
        step.pause_game == post_boss_cleared(*old(manager), *level, delta_us, enemies_present),
        step.boss == Some(first_encounter_boss()) <==> old(manager).current_phase
            == GamePhase::PreBoss && final(manager).current_phase == GamePhase::FistBossEncounter,
        step.boss == Some(final_fight_boss()) <==> old(manager).current_phase == GamePhase::PostBoss
            && final(manager).current_phase == GamePhase::BossFight,
        step.boss is None <==> final(manager).current_phase == old(manager).current_phase
            || final(manager).current_phase == GamePhase::Dialogue,
        step.pause_game <==> old(manager).current_phase == GamePhase::PostBoss
            && final(manager).current_phase != GamePhase::PostBoss,
        step.clear_projectiles == post_boss_cleared(
            *old(manager),
            *level,
            delta_us,
            enemies_present,
        ),
        forall|k: int|
            0 <= k < step.spawned.len() ==> #[trigger] step.spawned[k] < current_waves(
                *old(manager),
                *level,
            ).len() && current_waves(*old(manager), *level)[step.spawned[k] as int].spawn_time_us
                <= sat_add(old(manager).phase_timer_us, delta_us),
{
    let ghost m0 = *manager;
    manager.phase_timer_us = add_time(manager.phase_timer_us, delta_us);
    let mut spawned: Vec<usize> = Vec::new();
    let list: WaveList;
    let waves: &Vec<EnemyWave>;
    match manager.current_phase {
        GamePhase::PreBoss => {
            list = WaveList::PreBoss;
            waves = &level.pre_boss;
        },
        GamePhase::PostBoss => {
            list = WaveList::PostBoss;
            waves = &level.post_boss;
        },
        _ => {
            return LevelStep {
                list: None,
                spawned,
                boss: None,
                pause_game: false,
                clear_projectiles: false,
            };
        },
    }
    let ghost t = manager.phase_timer_us;
    let ghost start = manager.next_index as int;
    proof {
        lemma_due_end_bounds(waves@, start, t);
    }
    while manager.next_index < waves.len() && manager.phase_timer_us
        >= waves[manager.next_index].spawn_time_us
        invariant
            waves@ == current_waves(m0, *level),
            manager.phase_timer_us == t,
            manager.current_phase == m0.current_phase,
            start <= manager.next_index <= due_end(waves@, start, t),
            due_end(waves@, manager.next_index as int, t) == due_end(waves@, start, t),
            spawned@ == index_range(start, manager.next_index as int),
        decreases waves.len() - manager.next_index,
    {
        spawned.push(manager.next_index);
        manager.next_index = manager.next_index + 1;
        proof {
            lemma_due_end_bounds(waves@, manager.next_index as int, t);
        }
        assert(spawned@ =~= index_range(start, manager.next_index as int));
    }
    let mut boss: Option<Boss> = None;
    let mut pause_game = false;
    if manager.current_phase == GamePhase::PreBoss && manager.next_index >= level.pre_boss.len()
        && !enemies_present {
        manager.phase_timer_us = 0;
        manager.next_index = 0;
        manager.current_phase = GamePhase::FistBossEncounter;
        boss = Some(Boss::first_encounter());
    }
    if manager.current_phase == GamePhase::PostBoss && manager.next_index >= waves.len()
        && !enemies_present {
        pause_game = true;
        manager.current_phase = GamePhase::Dialogue;
    }
    if manager.current_phase == GamePhase::Dialogue && game_running && !enemies_present {
        manager.phase_timer_us = 0;
        manager.next_index = 0;
        manager.current_phase = GamePhase::BossFight;
        boss = Some(Boss::final_fight());
    }
    LevelStep { list: Some(list), spawned, boss, pause_game, clear_projectiles: pause_game }
}

/// The wait before the next bomb falls, in microseconds: 5 s to 20 s.
pub const BOMB_WAIT_MIN_US: u32 = 5_000_000;

pub const BOMB_WAIT_MAX_US: u32 = 20_000_000;

/// The wait before the next power-up falls, in microseconds: 2 s to 10 s.
pub const POWER_UP_WAIT_MIN_US: u32 = 2_000_000;

pub const POWER_UP_WAIT_MAX_US: u32 = 10_000_000;

/// When the bomb timer has finished, a bomb falls and the timer is set to a
/// random wait of 5 s to 20 s (returned); otherwise nothing happens.
pub fn spawn_bombs(timer_finished: bool) -> (next_wait_us: Option<u64>)
    ensures
        next_wait_us is Some == timer_finished,
        next_wait_us matches Some(w) ==> BOMB_WAIT_MIN_US <= w < BOMB_WAIT_MAX_US,
{
    if timer_finished {
        Some(roll_die(BOMB_WAIT_MIN_US, BOMB_WAIT_MAX_US) as u64)
    } else {
        None
    }
}

/// When the power-up timer has finished, a power-up falls and the timer is
/// set to a random wait of 2 s to 10 s (returned); otherwise nothing happens.
pub fn spawn_power_up(timer_finished: bool) -> (next_wait_us: Option<u64>)
    ensures
        next_wait_us is Some == timer_finished,
        next_wait_us matches Some(w) ==> POWER_UP_WAIT_MIN_US <= w < POWER_UP_WAIT_MAX_US,
{
    if timer_finished {
        Some(roll_die(POWER_UP_WAIT_MIN_US, POWER_UP_WAIT_MAX_US) as u64)
    } else {
        None
    }
}

} // verus!
