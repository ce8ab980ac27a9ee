use virtual_gamepad::{
    default_xbox_controls, find_control, ControlInfo, GamepadInput, InputEvent, InputTracker,
    PressState, StickState,
};

fn button(id: u32, input: GamepadInput) -> ControlInfo {
    ControlInfo::new(id, "b", input, [1, 2, 3, 4])
}

fn hits_at(len: usize, at: &[usize]) -> Vec<bool> {
    (0..len).map(|i| at.contains(&i)).collect()
}

#[test]
fn press_picks_topmost_control() {
    let controls = default_xbox_controls();
    let mut t = InputTracker::new();
    // the left stick ring (index 12) lies under its knob (index 13)
    let hits = hits_at(controls.len(), &[12, 13]);
    let ev = t.press(3, 10, 20, &controls, &hits);
    assert_eq!(
        ev,
        Some(InputEvent { control_id: 14, input: GamepadInput::StickLeft, state: PressState::Pressed })
    );
    assert_eq!(t.pressed_ids(), vec![14]);
}

#[test]
fn press_without_hit_changes_nothing() {
    let controls = default_xbox_controls();
    let mut t = InputTracker::new();
    let hits = hits_at(controls.len(), &[]);
    assert_eq!(t.press(1, 0, 0, &controls, &hits), None);
    assert!(!t.has_active());
    assert!(t.pressed_ids().is_empty());
    assert!(t.get_touch_state(1).is_none());
}

#[test]
fn press_on_stick_records_origin() {
    let controls = default_xbox_controls();
    let mut t = InputTracker::new();
    let x = 185.5f32.to_bits();
    let y = 590.25f32.to_bits();
    let hits = hits_at(controls.len(), &[14]);
    let ev = t.press(9, x, y, &controls, &hits).unwrap();
    assert_eq!(ev.input, GamepadInput::StickRightAxis);
    let st = t.get_touch_state(9).unwrap();
    assert_eq!(*st, StickState { control_id: 15, origin_x: x, origin_y: y });
    assert_eq!(f32::from_bits(st.origin_x), 185.5);
}

#[test]
fn press_on_button_records_no_stick() {
    let controls = default_xbox_controls();
    let mut t = InputTracker::new();
    let hits = hits_at(controls.len(), &[11]);
    let ev = t.press(2, 0, 0, &controls, &hits).unwrap();
    assert_eq!(ev, InputEvent { control_id: 12, input: GamepadInput::ButtonA, state: PressState::Pressed });
    assert!(t.get_touch_state(2).is_none());
    assert!(t.has_active());
}

#[test]
fn release_reports_pressed_control_and_frees_touch() {
    let controls = default_xbox_controls();
    let mut t = InputTracker::default();
    let hits = hits_at(controls.len(), &[13]);
    let pressed = t.press(5, 1, 2, &controls, &hits).unwrap();
    let released = t.release(5, &controls).unwrap();
    assert_eq!(released.control_id, pressed.control_id);
    assert_eq!(released.input, pressed.input);
    assert_eq!(released.state, PressState::Released);
    assert!(!t.has_active());
    assert!(t.get_touch_state(5).is_none());
}

#[test]
fn release_of_unknown_touch_is_none() {
    let controls = default_xbox_controls();
    let mut t = InputTracker::new();
    let hits = hits_at(controls.len(), &[0]);
    t.press(1, 0, 0, &controls, &hits);
    assert_eq!(t.release(2, &controls), None);
    assert_eq!(t.pressed_ids(), vec![1]);
}

#[test]
fn release_of_vanished_control_frees_touch() {
    let controls = vec![button(7, GamepadInput::StickLeft)];
    let mut t = InputTracker::new();
    t.press(4, 0, 0, &controls, &[true]);
    assert!(t.get_touch_state(4).is_some());
    let other = vec![button(8, GamepadInput::ButtonB)];
    assert_eq!(t.release(4, &other), None);
    assert!(!t.has_active());
    assert!(t.get_touch_state(4).is_none());
}

#[test]
fn release_reports_first_control_with_the_id() {
    let controls = vec![button(5, GamepadInput::ButtonX), button(5, GamepadInput::ButtonY)];
    let mut t = InputTracker::new();
    let ev = t.press(1, 0, 0, &controls, &[false, true]).unwrap();
    assert_eq!(ev.input, GamepadInput::ButtonY);
    let rel = t.release(1, &controls).unwrap();
    assert_eq!(rel.control_id, 5);
    assert_eq!(rel.input, GamepadInput::ButtonX);
}

#[test]
fn touches_are_counted_separately() {
    let controls = default_xbox_controls();
    let mut t = InputTracker::new();
    t.press(1, 0, 0, &controls, &hits_at(16, &[8]));
    t.press(2, 0, 0, &controls, &hits_at(16, &[8]));
    t.press(3, 0, 0, &controls, &hits_at(16, &[10]));
    let mut ids = t.pressed_ids();
    ids.sort();
    assert_eq!(ids, vec![9, 9, 11]);
    t.release(2, &controls);
    let mut ids = t.pressed_ids();
    ids.sort();
    assert_eq!(ids, vec![9, 11]);
}

#[test]
fn pressing_again_moves_the_touch() {
    let controls = default_xbox_controls();
    let mut t = InputTracker::new();
    t.press(1, 0, 0, &controls, &hits_at(16, &[15]));
    t.press(1, 0, 0, &controls, &hits_at(16, &[0]));
    assert_eq!(t.pressed_ids(), vec![1]);
    // the thumbstick record stays until the touch comes up
    assert_eq!(t.get_touch_state(1).unwrap().control_id, 16);
    t.release(1, &controls);
    assert!(t.get_touch_state(1).is_none());
    assert!(!t.has_active());
}

#[test]
fn find_control_returns_first_index() {
    let controls = vec![
        button(3, GamepadInput::ButtonA),
        button(4, GamepadInput::ButtonB),
        button(4, GamepadInput::ButtonX),
    ];
    assert_eq!(find_control(&controls, 4), Some(1));
    assert_eq!(find_control(&controls, 3), Some(0));
    assert_eq!(find_control(&controls, 9), None);
    assert_eq!(find_control(&[], 1), None);
}

#[test]
fn stick_inputs() {
    assert!(GamepadInput::StickLeft.is_stick());
    assert!(GamepadInput::StickRightAxis.is_stick());
    assert!(!GamepadInput::DpadUp.is_stick());
    assert!(!GamepadInput::XboxButton.is_stick());
}

#[test]
fn trace_latest_press_after_last_release_decides() {
    let controls = default_xbox_controls();
    let mut t = InputTracker::new();
    // touch 1: left knob, then the A button, then released, then the right ring
    t.press(1, 10, 11, &controls, &hits_at(16, &[13]));
    t.press(1, 20, 21, &controls, &hits_at(16, &[11]));
    assert_eq!(*t.get_touch_state(1).unwrap(), StickState { control_id: 14, origin_x: 10, origin_y: 11 });
    t.press(1, 30, 31, &controls, &hits_at(16, &[]));
    assert_eq!(t.pressed_ids(), vec![12]);
    t.release(1, &controls);
    assert!(t.get_touch_state(1).is_none());
    t.press(1, 40, 41, &controls, &hits_at(16, &[14]));
    assert_eq!(*t.get_touch_state(1).unwrap(), StickState { control_id: 15, origin_x: 40, origin_y: 41 });
    // touch 2 on the same control, touch 3 pressed and released
    t.press(2, 0, 0, &controls, &hits_at(16, &[14]));
    t.press(3, 0, 0, &controls, &hits_at(16, &[0]));
    t.release(3, &controls);
    let mut ids = t.pressed_ids();
    ids.sort();
    assert_eq!(ids, vec![15, 15]);
    assert!(t.has_active());
    t.release(1, &controls);
    t.release(2, &controls);
    assert!(t.pressed_ids().is_empty());
    assert!(!t.has_active());
}
