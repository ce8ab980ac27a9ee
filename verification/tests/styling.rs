use virtual_gamepad::{
    circle_role, dim_shade, lit_shade, rim_color, shows_small_label, text_eq, CircleRole,
};

#[test]
fn roles_by_caption() {
    assert_eq!(circle_role("xbox"), CircleRole::Xbox);
    for l in ["Y", "X", "B", "A"] {
        assert_eq!(circle_role(l), CircleRole::FaceButton);
    }
    assert_eq!(circle_role("L3"), CircleRole::StickKnob);
    assert_eq!(circle_role("R3"), CircleRole::StickKnob);
    assert_eq!(circle_role("sel"), CircleRole::Select);
    assert_eq!(circle_role("men"), CircleRole::Menu);
    assert_eq!(circle_role(""), CircleRole::Plain);
    assert_eq!(circle_role("LT"), CircleRole::Plain);
    assert_eq!(circle_role("a"), CircleRole::Plain);
    assert_eq!(circle_role("xbox "), CircleRole::Plain);
}

#[test]
fn rim_colors() {
    assert_eq!(rim_color(CircleRole::Xbox, [1, 2, 3, 4]), [34, 197, 94, 220]);
    assert_eq!(rim_color(CircleRole::FaceButton, [220, 38, 38, 235]), [220, 38, 38, 200]);
    assert_eq!(rim_color(CircleRole::StickKnob, [156, 163, 175, 235]), [156, 163, 175, 100]);
    assert_eq!(rim_color(CircleRole::Select, [55, 65, 81, 235]), [55, 65, 81, 100]);
}

#[test]
fn small_labels() {
    assert!(shows_small_label("LT"));
    assert!(shows_small_label("L3"));
    assert!(shows_small_label("A"));
    assert!(!shows_small_label(""));
    assert!(!shows_small_label("xbox"));
    assert!(!shows_small_label("sel"));
    assert!(!shows_small_label("men"));
}

#[test]
fn text_equality() {
    assert!(text_eq("", ""));
    assert!(text_eq("héllo", "héllo"));
    assert!(!text_eq("ab", "abc"));
    assert!(!text_eq("abc", "abd"));
}

#[test]
fn button_shades() {
    assert_eq!(lit_shade(0, 0), [25, 35, 60]);
    assert_eq!(lit_shade(30, 42), [55, 65, 102]);
    assert_eq!(lit_shade(220, 195), [245, 255, 255]);
    assert_eq!(dim_shade(0), [25, 35, 60]);
    assert_eq!(dim_shade(30), [40, 50, 90]);
    assert_eq!(dim_shade(255), [152, 162, 255]);
}
