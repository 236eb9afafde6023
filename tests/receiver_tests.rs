use input_filter::event::{KeyEvent, KeyEventAction, ModifierState};
use input_filter::receiver::{base_notify_key, ModifierStateListener, ReceiverCall};

#[test]
fn modifier_state_bits_passed_verbatim() {
    let listener = ModifierStateListener::new();
    let call = listener.modifier_state_changed(ModifierState::from_bits(0x41), ModifierState::from_bits(0x100000));
    assert_eq!(call, ReceiverCall::ModifierStateChanged { pressed: 0x41, locked: 0x100000 });
    let none = listener.modifier_state_changed(ModifierState::none(), ModifierState::from_bits(0x8000_0000));
    assert_eq!(none, ReceiverCall::ModifierStateChanged { pressed: 0, locked: i32::MIN });
}

#[test]
fn base_stage_sends_event_unchanged() {
    let event = KeyEvent {
        id: 9,
        device_id: 2,
        down_time: 10,
        read_time: 11,
        event_time: 12,
        source: 0x101,
        display_id: 0,
        policy_flags: 0,
        action: KeyEventAction::Up,
        flags: 0,
        key_code: 29,
        scan_code: 30,
        meta_state: 0,
    };
    assert_eq!(base_notify_key(&event), ReceiverCall::SendKeyEvent(event));
}
