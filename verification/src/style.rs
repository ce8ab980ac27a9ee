use vstd::prelude::*;
use vstd::string::StrSliceExecFns;

verus! {

/// How a round control is drawn, decided by its caption.
#[derive(Debug, Clone, Copy, PartialEq, Eq, Structural)]
pub enum CircleRole {
    /// The green guide button (`"xbox"`).
    Xbox,
    /// One of the coloured face buttons (`"Y"`, `"X"`, `"B"`, `"A"`).
    FaceButton,
    /// A thumbstick knob (`"L3"`, `"R3"`); it follows the stick offset.
    StickKnob,
    /// The view button (`"sel"`), drawn with two overlapping squares.
    Select,
    /// The menu button (`"men"`), drawn with three lines.
    Menu,
    /// Any other caption.
    Plain,
}

/// The role of a round control with caption `label`.
pub open spec fn circle_role_of(label: Seq<char>) -> CircleRole {
    if label == "xbox"@ {
        CircleRole::Xbox
    } else if label == "Y"@ || label == "X"@ || label == "B"@ || label == "A"@ {
        CircleRole::FaceButton
    } else if label == "L3"@ || label == "R3"@ {
        CircleRole::StickKnob
    } else if label == "sel"@ {
        CircleRole::Select
    } else if label == "men"@ {
        CircleRole::Menu
    } else {
        CircleRole::Plain
    }
}

/// Whether two strings hold the same characters.
pub fn text_eq(s: &str, t: &str) -> (r: bool)
    ensures
        r == (s@ == t@),
{
    let n = s.unicode_len();
    if n != t.unicode_len() {
        return false;
    }
    let mut i: usize = 0;
    while i < n
        invariant
            n == s@.len(),
            n == t@.len(),
            i <= n,
            forall|j: int| 0 <= j < i ==> s@[j] == t@[j],
        decreases n - i,
    {
        if s.get_char(i) != t.get_char(i) {
            return false;
        }
        i = i + 1;
    }
    assert(s@ =~= t@);
    true
}

/// Decides how a round control with caption `label` is drawn.
pub fn circle_role(label: &str) -> (role: CircleRole)
    ensures
        role == circle_role_of(label@),
{
    if text_eq(label, "xbox") {
        CircleRole::Xbox
    } else if text_eq(label, "Y") || text_eq(label, "X") || text_eq(label, "B") || text_eq(
        label,
        "A",
    ) {
        CircleRole::FaceButton
    } else if text_eq(label, "L3") || text_eq(label, "R3") {
        CircleRole::StickKnob
    } else if text_eq(label, "sel") {
        CircleRole::Select
    } else if text_eq(label, "men") {
        CircleRole::Menu
    } else {
        CircleRole::Plain
    }
}

/// The rim colour (red, green, blue, alpha) of a round control: the guide
/// button has its own green rim, every other control a rim of its own colour;
/// the rim is most opaque on the guide button, then on the face buttons.
/// The press glow of the guide and face buttons uses the same red, green and blue.
pub open spec fn rim_color_of(role: CircleRole, color: [u8; 4]) -> [u8; 4] {
    match role {
        CircleRole::Xbox => [34u8, 197u8, 94u8, 220u8],
        CircleRole::FaceButton => [color[0], color[1], color[2], 200u8],
        _ => [color[0], color[1], color[2], 100u8],
    }
}

/// Computes the rim colour of a round control of the given role and colour.
pub fn rim_color(role: CircleRole, color: [u8; 4]) -> (rim: [u8; 4])
    ensures
        rim == rim_color_of(role, color),
{
    match role {
        CircleRole::Xbox => [34, 197, 94, 220],
        CircleRole::FaceButton => [color[0], color[1], color[2], 200],
        _ => [color[0], color[1], color[2], 100],
    }
}

/// Whether a caption is spelled out in small stroked glyphs: every caption
/// but the empty one and those of the guide, view and menu buttons, which
/// are drawn as icons.
pub open spec fn shows_small_label_of(label: Seq<char>) -> bool {
    !(label == ""@ || label == "xbox"@ || label == "sel"@ || label == "men"@)
}

/// Decides whether a caption is spelled out in small glyphs.
pub fn shows_small_label(label: &str) -> (r: bool)
    ensures
        r == shows_small_label_of(label@),
{
    !(text_eq(label, "") || text_eq(label, "xbox") || text_eq(label, "sel") || text_eq(label, "men"))
}

/// The top colour (red, green, blue) of the gradient of a rectangular button
/// or of the d-pad: the base colour `(25, 35, 60)` brightened by `bright`,
/// the blue channel by `blue_boost` instead.
pub open spec fn lit_shade_of(bright: u8, blue_boost: u8) -> Seq<u8> {
    seq![(25 + bright) as u8, (35 + bright) as u8, (60 + blue_boost) as u8]
}

/// Computes the top gradient colour of a rectangular button or of the d-pad.
/// The channels are plain `u8` sums, so the brightening must keep them in range.
pub fn lit_shade(bright: u8, blue_boost: u8) -> (c: [u8; 3])
    requires
        bright <= 220,
        blue_boost <= 195,
    ensures
        c@ == lit_shade_of(bright, blue_boost),
{
    let c: [u8; 3] = [25 + bright, 35 + bright, 60 + blue_boost];
    assert(c@ =~= lit_shade_of(bright, blue_boost));
    c
}

/// `a + b`, or 255 when that does not fit in a byte.
pub open spec fn sat_add(a: int, b: int) -> u8 {
    if a + b <= 255 {
        (a + b) as u8
    } else {
        255u8
    }
}

/// The bottom colour (red, green, blue) of the gradient of a rectangular
/// button: the base colour `(25, 35, 60)` with half of `bright` added to red
/// and green and all of it to blue, each channel saturating at 255.
pub open spec fn dim_shade_of(bright: u8) -> Seq<u8> {
    seq![sat_add(25, (bright / 2) as int), sat_add(35, (bright / 2) as int), sat_add(60, bright as int)]
}

/// Computes the bottom gradient colour of a rectangular button.
pub fn dim_shade(bright: u8) -> (c: [u8; 3])
    ensures
        c@ == dim_shade_of(bright),
{
    let c: [u8; 3] = [
        25u8.saturating_add(bright / 2),
        35u8.saturating_add(bright / 2),
        60u8.saturating_add(bright),
    ];
    assert(c@ =~= dim_shade_of(bright));
    c
}

} // verus!
