use virtual_gamepad::{default_xbox_controls, GamepadInput};

#[test]
fn default_layout_controls() {
    let c = default_xbox_controls();
    assert_eq!(c.len(), 16);
    let expected: [(&str, GamepadInput, [u8; 4]); 16] = [
        ("LT", GamepadInput::TriggerLeft, [31, 41, 55, 235]),
        ("LB", GamepadInput::BumperLeft, [31, 41, 55, 235]),
        ("RT", GamepadInput::TriggerRight, [31, 41, 55, 235]),
        ("RB", GamepadInput::BumperRight, [31, 41, 55, 235]),
        ("sel", GamepadInput::Select, [55, 65, 81, 235]),
        ("xbox", GamepadInput::XboxButton, [22, 163, 74, 235]),
        ("men", GamepadInput::Start, [55, 65, 81, 235]),
        ("", GamepadInput::DpadUp, [42, 52, 71, 235]),
        ("Y", GamepadInput::ButtonY, [202, 138, 4, 235]),
        ("X", GamepadInput::ButtonX, [14, 165, 233, 235]),
        ("B", GamepadInput::ButtonB, [220, 38, 38, 235]),
        ("A", GamepadInput::ButtonA, [22, 163, 74, 235]),
        ("", GamepadInput::StickLeftAxis, [31, 41, 55, 220]),
        ("L3", GamepadInput::StickLeft, [156, 163, 175, 235]),
        ("", GamepadInput::StickRightAxis, [31, 41, 55, 220]),
        ("R3", GamepadInput::StickRight, [156, 163, 175, 235]),
    ];
    for (i, (label, input, color)) in expected.iter().enumerate() {
        assert_eq!(c[i].id, i as u32 + 1);
        assert_eq!(c[i].label, *label);
        assert_eq!(c[i].input, *input);
        assert_eq!(c[i].color, *color);
    }
}

#[test]
fn default_layout_ids_are_unique() {
    let c = default_xbox_controls();
    for i in 0..c.len() {
        for j in 0..c.len() {
            if i != j {
                assert_ne!(c[i].id, c[j].id);
            }
        }
    }
}
