use vstd::prelude::*;

verus! {

/// One line of the heroes' conversation.
pub struct DialogueLine {
    pub speaker: String,
    pub text: String,
}

/// The whole conversation, in order.
pub struct Dialogue {
    pub dialogues: Vec<DialogueLine>,
}

/// Which hero a line belongs to.
#[derive(Clone, Copy, Debug, PartialEq, Eq, Structural)]
pub enum Speaker {
    Witch,
    Angel,
    /// Anyone else: neither portrait changes.
    Other,
}

/// The speaker that a name stands for.
pub open spec fn speaker_spec(name: Seq<char>) -> Speaker {
    if name == "Witch"@ {
        Speaker::Witch
    } else if name == "Angel"@ {
        Speaker::Angel
    } else {
        Speaker::Other
    }
}

/// Whether two strings hold the same characters.
fn same_text(a: &str, b: &str) -> (same: bool)
    ensures
        same == (a@ == b@),
{
    let n = a.unicode_len();
    if n != b.unicode_len() {
        return false;
    }
    let mut i: usize = 0;
    while i < n
        invariant
            n == a@.len(),
            n == b@.len(),
            0 <= i <= n,
            forall|k: int| 0 <= k < i ==> a@[k] == b@[k],
        decreases n - i,
    {
        if a.get_char(i) != b.get_char(i) {
            return false;
        }
        i = i + 1;
    }
    assert(a@ =~= b@);
    true
}

/// The hero a speaker's name names.
pub fn speaker_of(name: &str) -> (speaker: Speaker)
    ensures
        speaker == speaker_spec(name@),
{
    if same_text(name, "Witch") {
        Speaker::Witch
    } else if same_text(name, "Angel") {
        Speaker::Angel
    } else {
        Speaker::Other
    }
}

/// The line shown after a key press, and whether the conversation ended.
#[derive(Clone, Copy, Debug, PartialEq, Eq, Structural)]
pub struct DialogueShow {
    pub index: usize,
    pub speaker: Speaker,
    /// The conversation is over: the game resumes and the dialogue box and
    /// the heroes are removed.
    pub finished: bool,
}

/// The line index after a key press from `current` in a conversation of
/// `len` lines, and whether the press ended the conversation: the first
/// press shows line 0, each later one the next line; the press after the
/// last line ends it and goes back to line 0.
pub open spec fn advance_spec(current: Option<usize>, len: int) -> (int, bool) {
    match current {
        None => (0, false),
        Some(i) => if i + 1 >= len {
            (0, true)
        } else {
            (i + 1, false)
        },
    }
}

/// One frame of the conversation: on a key press the next line is shown
/// (see `advance_spec`) with the portrait of its speaker lit; without a
/// press nothing changes.
pub fn start_discussion(current: &mut Option<usize>, dialogue: &Dialogue, key_pressed: bool) -> (show:
    Option<DialogueShow>)
    requires
        key_pressed ==> dialogue.dialogues.len() > 0,
        key_pressed && old(current).is_some() ==> old(current).unwrap() < usize::MAX,
    ensures
        !key_pressed ==> show == None::<DialogueShow> && *final(current) == *old(current),
        key_pressed ==> ({
            let (idx, finished) = advance_spec(*old(current), dialogue.dialogues.len() as int);
            &&& *final(current) == Some(idx as usize)
            &&& show == Some(
                DialogueShow {
                    index: idx as usize,
                    speaker: speaker_spec(dialogue.dialogues@[idx].speaker@),
                    finished,
                },
            )
        }),
{
    if !key_pressed {
        return None;
    }
    let mut finished = false;
    let idx: usize = match *current {
        None => 0,
        Some(i) => {
            if i + 1 >= dialogue.dialogues.len() {
                finished = true;
                0
            } else {
                i + 1
            }
        },
    };
    *current = Some(idx);
    let speaker = speaker_of(dialogue.dialogues[idx].speaker.as_str());
    Some(DialogueShow { index: idx, speaker, finished })
}

/// The line index after `n` key presses from `current`.
pub open spec fn index_after(current: Option<usize>, len: int, n: nat) -> Option<usize>
    decreases n,
{
    if n == 0 {
        current
    } else {
        Some(advance_spec(index_after(current, len, (n - 1) as nat), len).0 as usize)
    }
}

/// The conversation is played in order: from the start, presses 1 to `len`
/// show lines 0 to `len - 1` without ending it, and the next press ends it
/// and goes back to line 0. The shown line is always a line of the
/// conversation.
pub proof fn lemma_dialogue_in_order(len: int, k: nat)
    requires
        0 < len <= usize::MAX,
    ensures
        1 <= k <= len ==> index_after(None, len, k) == Some((k - 1) as usize),
        1 <= k <= len ==> !advance_spec(index_after(None, len, (k - 1) as nat), len).1,
        advance_spec(index_after(None, len, len as nat), len) == (0int, true),
        forall|c: Option<usize>| 0 <= #[trigger] advance_spec(c, len).0 < len,
    decreases k,
{
    if k > 1 {
        lemma_dialogue_in_order(len, (k - 1) as nat);
    }
    lemma_dialogue_reaches_end(len, len as nat);
}

proof fn lemma_dialogue_reaches_end(len: int, k: nat)
    requires
        0 < len <= usize::MAX,
        1 <= k <= len,
    ensures
        index_after(None, len, k) == Some((k - 1) as usize),
    decreases k,
{
    assert(index_after(None, len, 0) == None::<usize>);
    if k > 1 {
        lemma_dialogue_reaches_end(len, (k - 1) as nat);
    }
}

/// The dialogue box is put up when none is shown.
pub fn spawn_dialog_box(box_present: bool) -> (spawn: bool)
    ensures
        spawn == !box_present,
{
    !box_present
}

/// The two heroes' portraits are put up when neither is shown.
pub fn spawn_heroes(witch_present: bool, angel_present: bool) -> (spawn: bool)
    ensures
        spawn == (!witch_present && !angel_present),
{
    !witch_present && !angel_present
}

} // verus!
