use touhou_shmup::dialogue::{
    speaker_of, spawn_dialog_box, spawn_heroes, start_discussion, Dialogue, DialogueLine,
    DialogueShow, Speaker,
};

fn conversation() -> Dialogue {
    let line = |s: &str, t: &str| DialogueLine { speaker: s.to_string(), text: t.to_string() };
    Dialogue { dialogues: vec![line("Witch", "Hello"), line("Angel", "Begone"), line("Narrator", "...")] }
}

#[test]
fn speakers_are_recognised_by_name() {
    assert_eq!(speaker_of("Witch"), Speaker::Witch);
    assert_eq!(speaker_of("Angel"), Speaker::Angel);
    assert_eq!(speaker_of("witch"), Speaker::Other);
    assert_eq!(speaker_of("Witches"), Speaker::Other);
    assert_eq!(speaker_of(""), Speaker::Other);
}

#[test]
fn conversation_plays_in_order_then_ends() {
    let d = conversation();
    let mut cur = None;
    assert_eq!(start_discussion(&mut cur, &d, false), None);
    assert_eq!(cur, None);
    assert_eq!(start_discussion(&mut cur, &d, true), Some(DialogueShow { index: 0, speaker: Speaker::Witch, finished: false }));
    assert_eq!(start_discussion(&mut cur, &d, true), Some(DialogueShow { index: 1, speaker: Speaker::Angel, finished: false }));
    assert_eq!(start_discussion(&mut cur, &d, true), Some(DialogueShow { index: 2, speaker: Speaker::Other, finished: false }));
    assert_eq!(start_discussion(&mut cur, &d, true), Some(DialogueShow { index: 0, speaker: Speaker::Witch, finished: true }));
    assert_eq!(cur, Some(0));
}

#[test]
fn dialogue_box_and_heroes_are_put_up_once() {
    assert!(spawn_dialog_box(false));
    assert!(!spawn_dialog_box(true));
    assert!(spawn_heroes(false, false));
    assert!(!spawn_heroes(true, false));
    assert!(!spawn_heroes(false, true));
}
