use soundboard_core::BindingTable;
use soundboard_core::Engine;
use soundboard_core::KeyTransition;
use soundboard_core::PlaybackError;
use soundboard_core::SlotState;
use soundboard_core::identities_distinct;

fn armed_engine(resources: &[&str], ids: &[u32]) -> Engine {
    let list: Vec<String> = resources.iter().map(|s| s.to_string()).collect();
    let table = BindingTable::build(&list).unwrap();
    let identities: Vec<u32> = ids.to_vec();
    assert!(identities_distinct(&identities));
    assert_eq!(identities.len(), table.len());
    let mut engine = Engine::new(table, identities);
    for slot in 0..resources.len() {
        engine.note_registration(slot, true);
    }
    engine
}

#[test]
fn pressed_never_triggers() {
    let mut engine = armed_engine(&["a.wav", "b.wav"], &[11, 22]);
    assert_eq!(engine.on_event(11, KeyTransition::Pressed), None);
    assert_eq!(engine.on_event(22, KeyTransition::Pressed), None);
    assert_eq!(engine.slot_state(0), SlotState::Registered);
    assert_eq!(engine.slot_state(1), SlotState::Registered);
    assert_eq!(engine.on_event(11, KeyTransition::Released), Some(0));
}

#[test]
fn released_triggers_and_rearm_is_idempotent() {
    let mut engine = armed_engine(&["a.wav"], &[7]);
    assert_eq!(engine.on_event(7, KeyTransition::Released), Some(0));
    assert_eq!(engine.slot_state(0), SlotState::Playing);
    // while its clip plays, the slot's own hotkey is withdrawn
    assert_eq!(engine.on_event(7, KeyTransition::Released), None);
    engine.finish_playback(0, Ok(()), true);
    assert_eq!(engine.slot_state(0), SlotState::Registered);
    assert_eq!(engine.on_event(7, KeyTransition::Released), Some(0));
}

#[test]
fn device_unavailable_still_rearms() {
    let mut engine = armed_engine(&["a.wav", "b.wav"], &[11, 22]);
    assert_eq!(engine.on_event(11, KeyTransition::Released), Some(0));
    engine.finish_playback(0, Err(PlaybackError::DeviceUnavailable), true);
    assert_eq!(engine.slot_state(0), SlotState::Registered);
    // the loop keeps serving the other slot
    assert_eq!(engine.on_event(22, KeyTransition::Released), Some(1));
    engine.finish_playback(1, Ok(()), true);
    assert_eq!(engine.on_event(11, KeyTransition::Released), Some(0));
}

#[test]
fn every_playback_error_rearms() {
    let failures = [
        PlaybackError::ResourceUnreadable,
        PlaybackError::UnsupportedFormat,
        PlaybackError::DeviceUnavailable,
    ];
    for failure in failures {
        let mut engine = armed_engine(&["a.wav"], &[7]);
        assert_eq!(engine.on_event(7, KeyTransition::Released), Some(0));
        engine.finish_playback(0, Err(failure), true);
        assert_eq!(engine.slot_state(0), SlotState::Registered);
    }
}

#[test]
fn refused_rearm_disables_the_slot() {
    let mut engine = armed_engine(&["a.wav", "b.wav"], &[11, 22]);
    assert_eq!(engine.on_event(11, KeyTransition::Released), Some(0));
    engine.finish_playback(0, Ok(()), false);
    assert_eq!(engine.slot_state(0), SlotState::Disabled);
    assert_eq!(engine.on_event(11, KeyTransition::Released), None);
    assert_eq!(engine.on_event(22, KeyTransition::Released), Some(1));
}

#[test]
fn failed_registration_leaves_slot_inert() {
    let list = vec!["a.wav".to_string(), "b.wav".to_string()];
    let table = BindingTable::build(&list).unwrap();
    let mut engine = Engine::new(table, vec![11, 22]);
    engine.note_registration(0, false);
    engine.note_registration(1, true);
    assert_eq!(engine.slot_state(0), SlotState::Disabled);
    assert_eq!(engine.on_event(11, KeyTransition::Released), None);
    assert_eq!(engine.on_event(22, KeyTransition::Released), Some(1));
}

#[test]
fn unknown_identity_is_ignored() {
    let mut engine = armed_engine(&["a.wav"], &[7]);
    assert_eq!(engine.on_event(99, KeyTransition::Released), None);
    assert_eq!(engine.slot_state(0), SlotState::Registered);
}

#[test]
fn identities_distinct_detects_a_clash() {
    assert!(identities_distinct(&vec![1, 2, 3]));
    assert!(!identities_distinct(&vec![1, 2, 1]));
    assert!(identities_distinct(&Vec::new()));
}
