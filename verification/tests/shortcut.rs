use mirilti::shortcut::portal::{to_activated, to_deactivated, ShortcutEvent, TOGGLE_DICTATION};

#[test]
fn to_event_mapping_fields_are_forwarded() {
    let activated_id = "toggle-dictation".to_string();
    let event = ShortcutEvent::Activated { shortcut_id: activated_id.clone(), timestamp_ms: 42 };
    match event {
        ShortcutEvent::Activated { shortcut_id, timestamp_ms } => {
            assert_eq!(shortcut_id, activated_id);
            assert_eq!(timestamp_ms, 42);
        }
        ShortcutEvent::Deactivated { .. } => unreachable!(),
    }
}

#[test]
fn signals_become_events() {
    assert_eq!(
        to_activated(TOGGLE_DICTATION.to_string(), 1500),
        ShortcutEvent::Activated { shortcut_id: "toggle-dictation".to_string(), timestamp_ms: 1500 }
    );
    assert_eq!(
        to_deactivated("x".to_string(), (1u128 << 64) + 7),
        ShortcutEvent::Deactivated { shortcut_id: "x".to_string(), timestamp_ms: 7 }
    );
}
