use vstd::prelude::*;

use crate::gamepad::GamepadInput;

verus! {

/// What identifies an on-screen control and what it stands for, apart from
/// where it sits on the screen: its id, its caption, the gamepad input it
/// drives and its RGBA colour.
#[derive(Debug)]
pub struct ControlInfo {
    pub id: u32,
    pub label: String,
    pub input: GamepadInput,
    pub color: [u8; 4],
}

impl ControlInfo {
    /// Builds the description of one control.
    pub fn new(id: u32, label: &str, input: GamepadInput, color: [u8; 4]) -> (c: Self)
        ensures
            c.id == id,
            c.label@ == label@,
            c.input == input,
            c.color == color,
    {
        ControlInfo { id, label: label.to_owned(), input, color }
    }
}

/// The caption of the `i`-th control of the default Xbox layout.
pub open spec fn default_xbox_label(i: int) -> Seq<char> {
    if i == 0 {
        "LT"@
    } else if i == 1 {
        "LB"@
    } else if i == 2 {
        "RT"@
    } else if i == 3 {
        "RB"@
    } else if i == 4 {
        "sel"@
    } else if i == 5 {
        "xbox"@
    } else if i == 6 {
        "men"@
    } else if i == 7 {
        ""@
    } else if i == 8 {
        "Y"@
    } else if i == 9 {
        "X"@
    } else if i == 10 {
        "B"@
    } else if i == 11 {
        "A"@
    } else if i == 12 {
        ""@
    } else if i == 13 {
        "L3"@
    } else if i == 14 {
        ""@
    } else {
        "R3"@
    }
}

/// The gamepad input of the `i`-th control of the default Xbox layout.
pub open spec fn default_xbox_input(i: int) -> GamepadInput {
    if i == 0 {
        GamepadInput::TriggerLeft
    } else if i == 1 {
        GamepadInput::BumperLeft
    } else if i == 2 {
        GamepadInput::TriggerRight
    } else if i == 3 {
        GamepadInput::BumperRight
    } else if i == 4 {
        GamepadInput::Select
    } else if i == 5 {
        GamepadInput::XboxButton
    } else if i == 6 {
        GamepadInput::Start
    } else if i == 7 {
        GamepadInput::DpadUp
    } else if i == 8 {
        GamepadInput::ButtonY
    } else if i == 9 {
        GamepadInput::ButtonX
    } else if i == 10 {
        GamepadInput::ButtonB
    } else if i == 11 {
        GamepadInput::ButtonA
    } else if i == 12 {
        GamepadInput::StickLeftAxis
    } else if i == 13 {
        GamepadInput::StickLeft
    } else if i == 14 {
        GamepadInput::StickRightAxis
    } else {
        GamepadInput::StickRight
    }
}

/// The RGBA colour of the `i`-th control of the default Xbox layout.
pub open spec fn default_xbox_color(i: int) -> Seq<u8> {
    if 0 <= i < 4 {
        seq![31u8, 41, 55, 235]
    } else if i == 4 || i == 6 {
        seq![55u8, 65, 81, 235]
    } else if i == 5 {
        seq![22u8, 163, 74, 235]
    } else if i == 7 {
        seq![42u8, 52, 71, 235]
    } else if i == 8 {
        seq![202u8, 138, 4, 235]
    } else if i == 9 {
        seq![14u8, 165, 233, 235]
    } else if i == 10 {
        seq![220u8, 38, 38, 235]
    } else if i == 11 {
        seq![22u8, 163, 74, 235]
    } else if i == 12 || i == 14 {
        seq![31u8, 41, 55, 220]
    } else {
        seq![156u8, 163, 175, 235]
    }
}

/// Whether no two controls in `controls` share an id.
pub open spec fn ids_unique(controls: Seq<ControlInfo>) -> bool {
    forall|i: int, j: int|
        0 <= i < controls.len() && 0 <= j < controls.len() && i != j ==> #[trigger] controls[i].id
            != #[trigger] controls[j].id
}

/// The number of controls of the default Xbox layout.
pub open spec fn default_xbox_len() -> nat {
    16
}

/// Whether `c` is the `i`-th control of the default Xbox layout.
pub open spec fn is_default_xbox_control(c: ControlInfo, i: int) -> bool {
    &&& c.id == i + 1
    &&& c.label@ == default_xbox_label(i)
    &&& c.input == default_xbox_input(i)
    &&& c.color@ == default_xbox_color(i)
}

/// Appends a control whose id is the next one after `last_id`, and advances `last_id`.
fn push_next(
    controls: &mut Vec<ControlInfo>,
    last_id: &mut u32,
    label: &str,
    input: GamepadInput,
    color: [u8; 4],
)
    requires
        *old(last_id) < u32::MAX,
    ensures
        *final(last_id) == *old(last_id) + 1,
        final(controls)@.len() == old(controls)@.len() + 1,
        forall|i: int|
            0 <= i < old(controls)@.len() ==> #[trigger] final(controls)@[i] == old(controls)@[i],
        final(controls)@.last().id == *final(last_id),
        final(controls)@.last().label@ == label@,
        final(controls)@.last().input == input,
        final(controls)@.last().color == color,
{
    *last_id = *last_id + 1;
    controls.push(ControlInfo::new(*last_id, label, input, color));
}

/// The controls of the default Xbox layout, in drawing order, numbered from 1.
/// Where each one sits on the screen is not part of this description.
pub fn default_xbox_controls() -> (controls: Vec<ControlInfo>)
    ensures
        controls@.len() == default_xbox_len(),
        forall|i: int| 0 <= i < default_xbox_len() ==> is_default_xbox_control(#[trigger] controls@[i], i),
        ids_unique(controls@),
{
    let mut c: Vec<ControlInfo> = Vec::new();
    let mut id: u32 = 0;
    let top: [u8; 4] = [31, 41, 55, 235];
    let center: [u8; 4] = [55, 65, 81, 235];
    let ring: [u8; 4] = [31, 41, 55, 220];
    let knob: [u8; 4] = [156, 163, 175, 235];

    // triggers and bumpers, left then right
    push_next(&mut c, &mut id, "LT", GamepadInput::TriggerLeft, top);
    push_next(&mut c, &mut id, "LB", GamepadInput::BumperLeft, top);
    push_next(&mut c, &mut id, "RT", GamepadInput::TriggerRight, top);
    push_next(&mut c, &mut id, "RB", GamepadInput::BumperRight, top);
    // center buttons
    push_next(&mut c, &mut id, "sel", GamepadInput::Select, center);
    push_next(&mut c, &mut id, "xbox", GamepadInput::XboxButton, [22, 163, 74, 235]);
    push_next(&mut c, &mut id, "men", GamepadInput::Start, center);
    // d-pad
    push_next(&mut c, &mut id, "", GamepadInput::DpadUp, [42, 52, 71, 235]);
    // face buttons
    push_next(&mut c, &mut id, "Y", GamepadInput::ButtonY, [202, 138, 4, 235]);
    push_next(&mut c, &mut id, "X", GamepadInput::ButtonX, [14, 165, 233, 235]);
    push_next(&mut c, &mut id, "B", GamepadInput::ButtonB, [220, 38, 38, 235]);
    push_next(&mut c, &mut id, "A", GamepadInput::ButtonA, [22, 163, 74, 235]);
    // thumbsticks: axis ring under its knob
    push_next(&mut c, &mut id, "", GamepadInput::StickLeftAxis, ring);
    push_next(&mut c, &mut id, "L3", GamepadInput::StickLeft, knob);
    push_next(&mut c, &mut id, "", GamepadInput::StickRightAxis, ring);
    push_next(&mut c, &mut id, "R3", GamepadInput::StickRight, knob);
    assert forall|i: int| 0 <= i < default_xbox_len() implies is_default_xbox_control(
        #[trigger] c@[i],
        i,
    ) by {
    }
    c
}

/// Whether `i` is the index of the first control in `controls` whose id is `id`.
pub open spec fn is_first_with_id(controls: Seq<ControlInfo>, id: u32, i: int) -> bool {
    &&& 0 <= i < controls.len()
    &&& controls[i].id == id
    &&& forall|j: int| 0 <= j < i ==> #[trigger] controls[j].id != id
}

/// The index of the first control in `controls` whose id is `id`, if any.
pub open spec fn first_with_id(controls: Seq<ControlInfo>, id: u32) -> Option<int> {
    if exists|i: int| is_first_with_id(controls, id, i) {
        Some(choose|i: int| is_first_with_id(controls, id, i))
    } else {
        None
    }
}

/// Finds the first control whose id is `id`.
pub fn find_control(controls: &[ControlInfo], id: u32) -> (r: Option<usize>)
    ensures
        match r {
            Some(i) => first_with_id(controls@, id) == Some(i as int),
            None => first_with_id(controls@, id) is None,
        },
{
    let mut i: usize = 0;
    while i < controls.len()
        invariant
            i <= controls@.len(),
            forall|j: int| 0 <= j < i ==> #[trigger] controls@[j].id != id,
        decreases controls@.len() - i,
    {
        if controls[i].id == id {
            proof {
                assert(is_first_with_id(controls@, id, i as int));
                let k = choose|k: int| is_first_with_id(controls@, id, k);
                assert(k == i as int) by {
                    if k < i {
                        assert(controls@[k].id != id);
                    } else if k > i {
                        assert(controls@[i as int].id != id);
                    }
                }
            }
            return Some(i);
        }
        i = i + 1;
    }
    assert(!exists|k: int| is_first_with_id(controls@, id, k)) by {
        assert forall|k: int| !is_first_with_id(controls@, id, k) by {
            if 0 <= k < controls@.len() {
                assert(controls@[k].id != id);
            }
        }
    }
    None
}

} // verus!
