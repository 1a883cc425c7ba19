use vstd::prelude::*;

verus! {

/// The frame after `index` in a looping animation whose frames are
/// `0..=last`: past the last frame it wraps to the first.
pub open spec fn cycle_frame_spec(index: usize, last: usize) -> usize {
    if index >= last {
        0
    } else {
        (index + 1) as usize
    }
}

/// Advances a looping animation by one frame.
pub fn cycle_frame(index: usize, last: usize) -> (next: usize)
    ensures
        next == cycle_frame_spec(index, last),
{
    if index >= last {
        0
    } else {
        index + 1
    }
}

/// Advances a one-shot animation by one frame; it stays on `last` once there.
pub fn advance_once(index: usize, last: usize) -> (next: usize)
    ensures
        next == (if index < last {
            (index + 1) as usize
        } else {
            index
        }),
{
    if index < last {
        index + 1
    } else {
        index
    }
}

/// A looping animation never leaves its frames `0..=last`: from any frame,
/// the next one is in range, and from an in-range frame it is the following
/// frame or, after the last, the first.
pub proof fn lemma_cycle_stays_in_range(index: usize, last: usize)
    ensures
        cycle_frame_spec(index, last) <= last,
        index < last ==> cycle_frame_spec(index, last) == index + 1,
        index == last ==> cycle_frame_spec(index, last) == 0,
{
}

/// Frames of the player's sheet: idle frames `0..=2`, flying right `3`,
/// flying left `4`.
pub const PLAYER_LAST_IDLE_FRAME: usize = 2;

pub const PLAYER_RIGHT_FRAME: usize = 3;

pub const PLAYER_LEFT_FRAME: usize = 4;

/// The player's frame after one update: a held direction key shows the
/// matching frame (left wins when both are held); otherwise the idle loop
/// advances when its frame timer has just finished.
pub fn update_player_sprites(index: usize, right_held: bool, left_held: bool, frame_due: bool) -> (next: usize)
    ensures
        next == (if left_held {
            PLAYER_LEFT_FRAME
        } else if right_held {
            PLAYER_RIGHT_FRAME
        } else if frame_due {
            cycle_frame_spec(index, PLAYER_LAST_IDLE_FRAME)
        } else {
            index
        }),
{
    if right_held || left_held {
        let mut next = index;
        if right_held {
            next = PLAYER_RIGHT_FRAME;
        }
        if left_held {
            next = PLAYER_LEFT_FRAME;
        }
        next
    } else if frame_due {
        cycle_frame(index, PLAYER_LAST_IDLE_FRAME)
    } else {
        index
    }
}

} // verus!
