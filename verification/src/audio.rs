use vstd::prelude::*;

use crate::level::GamePhase;

verus! {

/// The background music.
#[derive(Clone, Copy, Debug, PartialEq, Eq, Structural)]
pub enum MusicTrack {
    MainTheme,
    BossTheme,
}

/// What to do with the background music this frame.
#[derive(Clone, Copy, Debug, PartialEq, Eq, Structural)]
pub enum MusicAction {
    /// Leave the music as it is.
    Keep,
    /// Stop what plays and loop the given track instead.
    Replace(MusicTrack),
    /// Nothing plays yet: loop the given track.
    Start(MusicTrack),
}

/// The track a phase calls for: the boss theme during the boss fight, the
/// main theme otherwise.
pub open spec fn track_for(phase: GamePhase) -> MusicTrack {
    if phase == GamePhase::BossFight {
        MusicTrack::BossTheme
    } else {
        MusicTrack::MainTheme
    }
}

/// The music decision: with nothing playing, the main theme starts;
/// otherwise, only before the boss and in the boss fight is the music
/// brought in line with the phase, and only when another track is playing.
pub open spec fn music_action_spec(
    music_playing: bool,
    phase: GamePhase,
    current: Option<MusicTrack>,
) -> MusicAction {
    if !music_playing {
        MusicAction::Start(MusicTrack::MainTheme)
    } else if phase != GamePhase::BossFight && phase != GamePhase::PreBoss {
        MusicAction::Keep
    } else if current == Some(track_for(phase)) {
        MusicAction::Keep
    } else {
        MusicAction::Replace(track_for(phase))
    }
}

/// One frame of the music system; `current` records the track last started.
pub fn play_music_theme(music_playing: bool, phase: GamePhase, current: &mut Option<MusicTrack>) -> (action:
    MusicAction)
    ensures
        action == music_action_spec(music_playing, phase, *old(current)),
        *final(current) == (match action {
            MusicAction::Keep => *old(current),
            MusicAction::Replace(t) => Some(t),
            MusicAction::Start(t) => Some(t),
        }),
{
    if music_playing {
        if phase != GamePhase::BossFight && phase != GamePhase::PreBoss {
            return MusicAction::Keep;
        }
        let track = if phase == GamePhase::BossFight {
            MusicTrack::BossTheme
        } else {
            MusicTrack::MainTheme
        };
        if *current == Some(track) {
            return MusicAction::Keep;
        }
        *current = Some(track);
        MusicAction::Replace(track)
    } else {
        *current = Some(MusicTrack::MainTheme);
        MusicAction::Start(MusicTrack::MainTheme)
    }
}

/// The music decision, over all inputs: with nothing playing the main theme
/// starts; during the boss fight a track other than the boss theme is
/// replaced by it; before the boss a track other than the main theme is
/// replaced by it; in every other phase the playing music is kept.
pub proof fn lemma_music_follows_phase(music_playing: bool, phase: GamePhase, current: Option<MusicTrack>)
    ensures
        !music_playing ==> music_action_spec(music_playing, phase, current) == MusicAction::Start(
            MusicTrack::MainTheme,
        ),
        music_playing && phase == GamePhase::BossFight && current != Some(MusicTrack::BossTheme)
            ==> music_action_spec(music_playing, phase, current) == MusicAction::Replace(
            MusicTrack::BossTheme,
        ),
        music_playing && phase == GamePhase::PreBoss && current != Some(MusicTrack::MainTheme)
            ==> music_action_spec(music_playing, phase, current) == MusicAction::Replace(
            MusicTrack::MainTheme,
        ),
        music_playing && phase != GamePhase::BossFight && phase != GamePhase::PreBoss
            ==> music_action_spec(music_playing, phase, current) == MusicAction::Keep,
{
}

/// The boss theme is only ever put on during the boss fight, and once the
/// track of the phase plays, the music system leaves it alone.
pub proof fn lemma_boss_theme_only_in_boss_fight(
    music_playing: bool,
    phase: GamePhase,
    current: Option<MusicTrack>,
)
    ensures
        music_action_spec(music_playing, phase, current) == MusicAction::Replace(
            MusicTrack::BossTheme,
        ) ==> phase == GamePhase::BossFight,
        music_action_spec(music_playing, phase, current) != MusicAction::Start(
            MusicTrack::BossTheme,
        ),
        music_playing && current == Some(track_for(phase)) ==> music_action_spec(
            music_playing,
            phase,
            current,
        ) == MusicAction::Keep,
{
}

/// The sound settings.
#[derive(Clone, Copy, Debug, PartialEq, Eq, Structural)]
pub struct AudioSettings {
    pub is_muted: bool,
    /// The chosen volume step (the buttons offer 0 to 9).
    pub volume: u32,
}

/// The number of volume buttons in the sound menu.
pub const VOLUME_STEPS: u32 = 10;

/// Pressing volume button `pressed` (offering step `value`) sets the volume
/// to that step and makes that button the only selected one.
pub fn sound_settigns_system(settings: &mut AudioSettings, selected: &mut Vec<bool>, pressed: usize, value: u32)
    requires
        pressed < old(selected).len(),
    ensures
        final(settings).volume == value,
        final(settings).is_muted == old(settings).is_muted,
        final(selected).len() == old(selected).len(),
        forall|j: int| 0 <= j < final(selected).len() ==> #[trigger] final(selected)[j] == (j
            == pressed),
{
    settings.volume = value;
    let mut j: usize = 0;
    while j < selected.len()
        invariant
            0 <= j <= selected.len(),
            selected.len() == old(selected).len(),
            pressed < selected.len(),
            forall|k: int| 0 <= k < j ==> #[trigger] selected[k] == (k == pressed),
        decreases selected.len() - j,
    {
        selected.set(j, j == pressed);
        j = j + 1;
    }
}

/// After a press exactly one volume button is selected.
pub proof fn lemma_one_volume_selected(selected: Seq<bool>, pressed: int)
    requires
        0 <= pressed < selected.len(),
        forall|j: int| 0 <= j < selected.len() ==> #[trigger] selected[j] == (j == pressed),
    ensures
        selected.filter(|b: bool| b).len() == 1,
    decreases selected.len(),
{
    let f = |b: bool| b;
    if pressed == selected.len() - 1 {
        let init = selected.drop_last();
        assert(init.filter(f) =~= Seq::<bool>::empty()) by {
            lemma_none_selected(init);
        }
        assert(selected == init.push(selected.last()));
        init.lemma_filter_push(selected.last(), f);
    } else {
        let init = selected.drop_last();
        lemma_one_volume_selected(init, pressed);
        assert(selected == init.push(selected.last()));
        init.lemma_filter_push(selected.last(), f);
    }
}

proof fn lemma_none_selected(s: Seq<bool>)
    requires
        forall|j: int| 0 <= j < s.len() ==> !#[trigger] s[j],
    ensures
        s.filter(|b: bool| b) =~= Seq::<bool>::empty(),
    decreases s.len(),
{
    let f = |b: bool| b;
    if s.len() > 0 {
        let init = s.drop_last();
        lemma_none_selected(init);
        assert(s == init.push(s.last()));
        init.lemma_filter_push(s.last(), f);
    }
}

/// Whether the music is muted after the mute key (T) is pressed or not.
pub open spec fn muted_after(muted: bool, key_pressed: bool) -> bool {
    muted != key_pressed
}

/// The mute key (T) flips whether the music is muted; without the key the
/// settings stay as they are.
pub fn toggle_mute(settings: &mut AudioSettings, key_pressed: bool)
    ensures
        final(settings).is_muted == muted_after(old(settings).is_muted, key_pressed),
        final(settings).volume == old(settings).volume,
{
    if key_pressed {
        settings.is_muted = !settings.is_muted;
    }
}

/// Whether the background music can be heard: muted music is silent.
pub fn music_audible(settings: &AudioSettings) -> (audible: bool)
    ensures
        audible == !settings.is_muted,
{
    !settings.is_muted
}

/// Pressing the mute key silences audible music and brings muted music
/// back; pressing it twice leaves the sound as it was.
pub proof fn lemma_mute_toggles(muted: bool)
    ensures
        !muted ==> muted_after(muted, true),
        muted ==> !muted_after(muted, true),
        muted_after(muted_after(muted, true), true) == muted,
        muted_after(muted, false) == muted,
{
}

} // verus!
