use soundboard_core::BindingTable;
use soundboard_core::ConfigError;
use soundboard_core::Engine;
use soundboard_core::KeyTransition;
use soundboard_core::SlotState;
use soundboard_core::find_by_name;
use soundboard_core::identities_distinct;
use soundboard_core::resolve;

#[test]
fn three_clips_play_exactly_the_triggered_one() {
    let devices = vec!["Speakers".to_string()];
    let device = resolve(&devices, 1).unwrap().clone();
    assert_eq!(device.as_str(), "Speakers");

    let resources = vec![
        "a.wav".to_string(),
        "b.wav".to_string(),
        "c.wav".to_string(),
    ];
    let table = BindingTable::build(&resources).unwrap();
    assert_eq!(table.len(), 3);
    assert_eq!(table.binding(0).digit, 1);
    assert_eq!(table.binding(1).digit, 2);
    assert_eq!(table.binding(2).digit, 3);
    for slot in 0..3 {
        assert_eq!(table.binding(slot).slot, slot);
    }

    let identities = vec![101, 102, 103];
    assert!(identities_distinct(&identities));
    let mut engine = Engine::new(table, identities);
    assert_eq!(engine.slot_count(), 3);
    assert_eq!(engine.identity(1), 102);
    assert_eq!(engine.digit(1), 2);
    for slot in 0..3 {
        engine.note_registration(slot, true);
        assert_eq!(engine.slot_state(slot), SlotState::Registered);
    }

    let fired = engine.on_event(102, KeyTransition::Released);
    assert_eq!(fired, Some(1));
    assert_eq!(engine.resource(1).as_str(), "b.wav");
    // no other slot fired: both stay armed and untouched
    assert_eq!(engine.slot_state(0), SlotState::Registered);
    assert_eq!(engine.slot_state(2), SlotState::Registered);
    // and playback goes to the selected device
    assert_eq!(find_by_name(&devices, &device), Some(0));
}

#[test]
fn eleven_clips_abort_before_any_registration() {
    let mut resources: Vec<String> = Vec::new();
    for i in 0..11 {
        resources.push(format!("clip{}.wav", i));
    }
    let built = BindingTable::build(&resources);
    assert!(matches!(built, Err(ConfigError::TooManyResources)));
    // no table exists, so no engine and no hotkey registration can follow
}

#[test]
fn out_of_range_selection_chooses_no_device() {
    let devices = vec!["Speakers".to_string(), "Headphones".to_string()];
    assert!(matches!(
        resolve(&devices, 0),
        Err(ConfigError::InvalidSelection)
    ));
    assert!(matches!(
        resolve(&devices, 3),
        Err(ConfigError::InvalidSelection)
    ));
    assert_eq!(resolve(&devices, 2).unwrap().as_str(), "Headphones");
}

#[test]
fn find_by_name_picks_the_first_match() {
    let names = vec![
        "Speakers".to_string(),
        "Headphones".to_string(),
        "Headphones".to_string(),
    ];
    assert_eq!(find_by_name(&names, &"Headphones".to_string()), Some(1));
    assert_eq!(find_by_name(&names, &"Microphone".to_string()), None);
}
