use vstd::prelude::*;

use crate::gamepad::{GamepadInput, PressState};
use crate::input::{
    event_for, is_topmost_hit, lists_held_ids, sticks_after, sticks_step, topmost_hit,
    touches_after, touches_step, StickState, TouchOp,
};
use crate::layout::{
    default_xbox_color, default_xbox_input, default_xbox_label, first_with_id, ids_unique, is_first_with_id, ControlInfo,
};
use crate::render::{
    argb, argb_of_pixel, copied_pixels, pixmap_size, pixmap_size_ok, resized, transparent_bytes,
};
use crate::style::{
    circle_role_of, dim_shade_of, lit_shade_of, rim_color_of, shows_small_label_of, CircleRole,
};

use tiny_skia::Pixmap;

verus! {

/// A touch that pressed a control and is then released reports that same
/// control: the release event carries the id of the pressed control, and,
/// when no two controls share an id, it is the release event of exactly the
/// control that was pressed.
///
/// `touches` is what the tracker held before the press, `hits` the hit test
/// of the press over `controls`; the release is given the same `controls`.
pub proof fn law_release_reports_pressed_control(
    controls: Seq<ControlInfo>,
    hits: Seq<bool>,
    touches: Map<u64, u32>,
    touch_id: u64,
)
    requires
        hits.len() == controls.len(),
        topmost_hit(hits) is Some,
    ensures
        ({
            let i = topmost_hit(hits)->0;
            let held = touches.insert(touch_id, controls[i].id);
            &&& held.contains_key(touch_id)
            &&& first_with_id(controls, held[touch_id]) matches Some(j) && {
                &&& event_for(controls[j], PressState::Released).control_id
                    == event_for(controls[i], PressState::Pressed).control_id
                &&& ids_unique(controls) ==> j == i
            }
        }),
{
    let i = topmost_hit(hits)->0;
    assert(is_topmost_hit(hits, i)) by {
        let k = choose|k: int| is_topmost_hit(hits, k);
        assert(is_topmost_hit(hits, k));
    }
    let id = controls[i].id;
    assert(exists|k: int| is_first_with_id(controls, id, k)) by {
        if forall|k: int| 0 <= k < i ==> #[trigger] controls[k].id != id {
            assert(is_first_with_id(controls, id, i));
        } else {
            let k0 = choose|k: int| 0 <= k < i && #[trigger] controls[k].id == id;
            lemma_first_index_with_id(controls, id, k0);
        }
    }
    let j = choose|k: int| is_first_with_id(controls, id, k);
    assert(is_first_with_id(controls, id, j));
    if ids_unique(controls) {
        assert(j == i);
    }
}

/// When some control at an index up to `k` has id `id`, there is a first one.
proof fn lemma_first_index_with_id(controls: Seq<ControlInfo>, id: u32, k: int)
    requires
        0 <= k < controls.len(),
        controls[k].id == id,
    ensures
        exists|m: int| is_first_with_id(controls, id, m),
    decreases k,
{
    if forall|m: int| 0 <= m < k ==> #[trigger] controls[m].id != id {
        assert(is_first_with_id(controls, id, k));
    } else {
        let m = choose|m: int| 0 <= m < k && #[trigger] controls[m].id == id;
        lemma_first_index_with_id(controls, id, m);
    }
}

/// Whether `op` decides which control the touch `t` holds: a press by `t`
/// that hit a control, or a release of `t`.
pub open spec fn is_touch_event(op: TouchOp, t: u64) -> bool {
    match op {
        TouchOp::Press { touch_id, hit: Some(_), .. } => touch_id == t,
        TouchOp::Press { .. } => false,
        TouchOp::Release { touch_id } => touch_id == t,
    }
}

/// Whether `op` decides the thumbstick record of the touch `t`: a press by
/// `t` that hit a thumbstick control, or a release of `t`.
pub open spec fn is_stick_event(op: TouchOp, t: u64) -> bool {
    match op {
        TouchOp::Press { touch_id, hit: Some((_, input)), .. } => touch_id == t
            && input.spec_is_stick(),
        TouchOp::Press { .. } => false,
        TouchOp::Release { touch_id } => touch_id == t,
    }
}

/// The index of the latest operation in `ops` that decides which control
/// `t` holds.
pub open spec fn last_touch_event(ops: Seq<TouchOp>, t: u64) -> Option<int>
    decreases ops.len(),
{
    if ops.len() == 0 {
        None
    } else if is_touch_event(ops.last(), t) {
        Some(ops.len() - 1)
    } else {
        last_touch_event(ops.drop_last(), t)
    }
}

/// The index of the latest operation in `ops` that decides the thumbstick
/// record of `t`.
pub open spec fn last_stick_event(ops: Seq<TouchOp>, t: u64) -> Option<int>
    decreases ops.len(),
{
    if ops.len() == 0 {
        None
    } else if is_stick_event(ops.last(), t) {
        Some(ops.len() - 1)
    } else {
        last_stick_event(ops.drop_last(), t)
    }
}

/// The touches that hold a control after `ops`: those whose latest deciding
/// operation is a press (that hit), not a release.
pub open spec fn held_after(ops: Seq<TouchOp>) -> Set<u64> {
    Set::new(
        |t: u64| last_touch_event(ops, t) matches Some(i) && ops[i] is Press,
    )
}

/// The thumbstick record that a press on a thumbstick control makes: the
/// control it hit and where it began.
pub open spec fn recorded_stick(op: TouchOp) -> StickState {
    match op {
        TouchOp::Press { origin_x, origin_y, hit: Some((id, _)), .. } => StickState {
            control_id: id,
            origin_x,
            origin_y,
        },
        _ => StickState { control_id: 0, origin_x: 0, origin_y: 0 },
    }
}

/// The id of the control hit by the latest successful press of `t` in `ops`.
pub open spec fn last_pressed_id(ops: Seq<TouchOp>, t: u64) -> u32 {
    match ops[last_touch_event(ops, t)->0] {
        TouchOp::Press { hit: Some((id, _)), .. } => id,
        _ => 0,
    }
}

/// A tracker that went through the operations `ops` goes through one more,
/// `op`, by the step that `press` and `release` state: the state after
/// `ops` followed by `op` is the step from the state after `ops`.
/// (A new tracker is the state after no operations.)
pub proof fn law_trace_extends(ops: Seq<TouchOp>, op: TouchOp)
    ensures
        touches_after(ops.push(op)) == touches_step(touches_after(ops), op),
        sticks_after(ops.push(op)) == sticks_step(sticks_after(ops), op),
{
    assert(ops.push(op).drop_last() =~= ops);
}

/// After any operations from a new tracker, a touch holds a control exactly
/// when its latest press that hit a control came after its last release,
/// and the control it holds is the one that press hit.
pub proof fn law_touch_trace(ops: Seq<TouchOp>, t: u64)
    ensures
        touches_after(ops).contains_key(t) <==> held_after(ops).contains(t),
        touches_after(ops).contains_key(t) ==> touches_after(ops)[t] == last_pressed_id(ops, t),
    decreases ops.len(),
{
    if ops.len() > 0 {
        let prev = ops.drop_last();
        law_touch_trace(prev, t);
        if !is_touch_event(ops.last(), t) {
            assert(last_touch_event(ops, t) == last_touch_event(prev, t));
            if let Some(i) = last_touch_event(prev, t) {
                lemma_last_touch_event_bound(prev, t);
                assert(ops[i] == prev[i]);
            }
        }
    }
}

/// The latest deciding operation lies within the operations.
proof fn lemma_last_touch_event_bound(ops: Seq<TouchOp>, t: u64)
    ensures
        last_touch_event(ops, t) matches Some(i) ==> 0 <= i < ops.len() && is_touch_event(
            ops[i],
            t,
        ),
    decreases ops.len(),
{
    if ops.len() > 0 {
        lemma_last_touch_event_bound(ops.drop_last(), t);
    }
}

/// The latest thumbstick operation lies within the operations.
proof fn lemma_last_stick_event_bound(ops: Seq<TouchOp>, t: u64)
    ensures
        last_stick_event(ops, t) matches Some(i) ==> 0 <= i < ops.len() && is_stick_event(
            ops[i],
            t,
        ),
    decreases ops.len(),
{
    if ops.len() > 0 {
        lemma_last_stick_event_bound(ops.drop_last(), t);
    }
}

/// After any operations from a new tracker, a touch has a thumbstick record
/// exactly when its latest press on a thumbstick control came after its last
/// release, and the record holds that control and where that press began.
pub proof fn law_stick_trace(ops: Seq<TouchOp>, t: u64)
    ensures
        sticks_after(ops).contains_key(t) <==> (last_stick_event(ops, t) matches Some(i)
            && ops[i] is Press),
        sticks_after(ops).contains_key(t) ==> sticks_after(ops)[t] == recorded_stick(
            ops[last_stick_event(ops, t)->0],
        ),
    decreases ops.len(),
{
    if ops.len() > 0 {
        let prev = ops.drop_last();
        law_stick_trace(prev, t);
        lemma_last_stick_event_bound(prev, t);
        if !is_stick_event(ops.last(), t) {
            assert(last_stick_event(ops, t) == last_stick_event(prev, t));
            if let Some(i) = last_stick_event(prev, t) {
                assert(ops[i] == prev[i]);
            }
        }
    }
}

/// After any operations from a new tracker, `pressed_ids` lists, once per
/// touch whose latest successful press came after its last release, the id
/// of the control that press hit (two touches on one control list it twice).
pub proof fn law_pressed_ids_trace(ops: Seq<TouchOp>, ids: Seq<u32>)
    requires
        lists_held_ids(touches_after(ops), ids),
    ensures
        exists|order: Seq<u64>|
            {
                &&& order.no_duplicates()
                &&& order.to_set() == held_after(ops)
                &&& ids == order.map_values(|t: u64| last_pressed_id(ops, t))
            },
{
    let m = touches_after(ops);
    let order = choose|order: Seq<u64>|
        {
            &&& order.no_duplicates()
            &&& order.to_set() == m.dom()
            &&& ids == order.map_values(|t: u64| m[t])
        };
    assert forall|t: u64| m.dom().contains(t) == held_after(ops).contains(t) by {
        law_touch_trace(ops, t);
    }
    assert(m.dom() =~= held_after(ops));
    assert forall|k: int| 0 <= k < order.len() implies m[order[k]] == last_pressed_id(
        ops,
        order[k],
    ) by {
        assert(order.to_set().contains(order[k]));
        law_touch_trace(ops, order[k]);
    }
    assert(ids =~= order.map_values(|t: u64| last_pressed_id(ops, t)));
}

/// Some touch holds a control exactly when `pressed_ids` lists something.
pub proof fn law_active_iff_ids_listed(m: Map<u64, u32>, ids: Seq<u32>)
    requires
        m.dom().finite(),
        lists_held_ids(m, ids),
    ensures
        (m.dom().len() > 0) <==> (ids.len() > 0),
{
    let order = choose|order: Seq<u64>|
        {
            &&& order.no_duplicates()
            &&& order.to_set() == m.dom()
            &&& ids == order.map_values(|t: u64| m[t])
        };
    order.unique_seq_to_set();
}

/// Pressing with a touch and then releasing it leaves the tracker holding
/// what it held before, except that the touch holds nothing; when the touch
/// held nothing before the press, the tracker is back where it started.
pub proof fn law_press_release_frees_touch(
    touches: Map<u64, u32>,
    sticks: Map<u64, StickState>,
    touch_id: u64,
    control_id: u32,
    stick: StickState,
)
    ensures
        touches.insert(touch_id, control_id).remove(touch_id) == touches.remove(touch_id),
        sticks.insert(touch_id, stick).remove(touch_id) == sticks.remove(touch_id),
        !touches.contains_key(touch_id) ==> touches.insert(touch_id, control_id).remove(touch_id)
            == touches,
        !sticks.contains_key(touch_id) ==> sticks.insert(touch_id, stick).remove(touch_id)
            == sticks,
{
    assert(touches.insert(touch_id, control_id).remove(touch_id) =~= touches.remove(touch_id));
    assert(sticks.insert(touch_id, stick).remove(touch_id) =~= sticks.remove(touch_id));
    if !touches.contains_key(touch_id) {
        assert(touches.remove(touch_id) =~= touches);
    }
    if !sticks.contains_key(touch_id) {
        assert(sticks.remove(touch_id) =~= sticks);
    }
}

/// Resizing twice to the same size does what resizing once does: the
/// second resize leaves the pixmap alone.
pub proof fn law_resize_is_idempotent(p0: Pixmap, p1: Pixmap, p2: Pixmap, w: u32, h: u32)
    requires
        resized(p0, p1, w, h),
        resized(p1, p2, w, h),
    ensures
        p2 == p1,
{
}

/// A transparent pixmap, freshly made or cleared, turns into zero words:
/// every copied pixel is `0x00000000`.
pub proof fn law_blank_pixmap_renders_zero(n: nat, i: int)
    requires
        0 <= i < n / 4,
    ensures
        argb_of_pixel(transparent_bytes(n), i) == 0,
{
    assert(4 * i + 3 < n) by (nonlinear_arith)
        requires
            0 <= i < n / 4,
    ;
}

/// The word of a pixel holds its bytes in the order alpha, red, green, blue,
/// from the most significant byte down.
pub proof fn law_argb_word_bytes(r: u8, g: u8, b: u8, a: u8)
    ensures
        argb(r, g, b, a) / 0x1000000 == a,
        argb(r, g, b, a) / 0x10000 % 0x100 == r,
        argb(r, g, b, a) / 0x100 % 0x100 == g,
        argb(r, g, b, a) % 0x100 == b,
{
    let w = a as int * 0x1000000 + r as int * 0x10000 + g as int * 0x100 + b as int;
    assert(0 <= w <= u32::MAX);
    assert(argb(r, g, b, a) == w);
    assert(w / 0x1000000 == a) by (nonlinear_arith)
        requires
            w == a as int * 0x1000000 + r as int * 0x10000 + g as int * 0x100 + b as int,
            r < 256,
            g < 256,
            b < 256,
    ;
    assert(w / 0x10000 % 0x100 == r) by (nonlinear_arith)
        requires
            w == a as int * 0x1000000 + r as int * 0x10000 + g as int * 0x100 + b as int,
            r < 256,
            g < 256,
            b < 256,
            a < 256,
    ;
    assert(w / 0x100 % 0x100 == g) by (nonlinear_arith)
        requires
            w == a as int * 0x1000000 + r as int * 0x10000 + g as int * 0x100 + b as int,
            r < 256,
            g < 256,
            b < 256,
            a < 256,
    ;
    assert(w % 0x100 == b) by (nonlinear_arith)
        requires
            w == a as int * 0x1000000 + r as int * 0x10000 + g as int * 0x100 + b as int,
            b < 256,
    ;
}

/// A press whose topmost hit control is any part of a thumbstick (its knob
/// or its axis ring, left or right) records where the touch began, under
/// that control's id, whatever the tracker held before.
pub proof fn law_stick_press_records_origin(
    sticks: Map<u64, StickState>,
    touch_id: u64,
    origin_x: u32,
    origin_y: u32,
    id: u32,
    input: GamepadInput,
)
    requires
        input == GamepadInput::StickLeft || input == GamepadInput::StickRight || input
            == GamepadInput::StickLeftAxis || input == GamepadInput::StickRightAxis,
    ensures
        ({
            let after = sticks_step(
                sticks,
                TouchOp::Press { touch_id, origin_x, origin_y, hit: Some((id, input)) },
            );
            &&& after.contains_key(touch_id)
            &&& after[touch_id] == (StickState { control_id: id, origin_x, origin_y })
        }),
{
}

/// A press whose topmost hit control is not part of a thumbstick leaves the
/// thumbstick records as they were.
pub proof fn law_button_press_keeps_sticks(
    sticks: Map<u64, StickState>,
    touch_id: u64,
    origin_x: u32,
    origin_y: u32,
    id: u32,
    input: GamepadInput,
)
    requires
        input != GamepadInput::StickLeft,
        input != GamepadInput::StickRight,
        input != GamepadInput::StickLeftAxis,
        input != GamepadInput::StickRightAxis,
    ensures
        sticks_step(sticks, TouchOp::Press { touch_id, origin_x, origin_y, hit: Some((id, input)) })
            == sticks,
{
}

/// In the default layout the thumbstick controls are exactly the last four:
/// the two axis rings and the two knobs.
pub proof fn law_default_stick_controls(i: int)
    requires
        0 <= i < 16,
    ensures
        default_xbox_input(i).spec_is_stick() <==> 12 <= i,
{
}

/// After a resize to an accepted size the pixmap has exactly that size,
/// whether one side or both changed; after a resize to the size it already
/// has, it is left alone.
pub proof fn law_resize_reaches_size(before: Pixmap, after: Pixmap, w: u32, h: u32)
    requires
        resized(before, after, w, h),
    ensures
        pixmap_size_ok(w, h) ==> pixmap_size(after) == (w, h),
        pixmap_size(before) == (w, h) ==> after == before,
        !pixmap_size_ok(w, h) ==> after == before,
{
}

/// The conversion to window words covers as many pixels as both the buffer
/// and the pixmap hold: never more than either, and all of the smaller one.
pub proof fn law_copy_covers_smaller(buffer_len: nat, data: Seq<u8>)
    ensures
        copied_pixels(buffer_len, data) <= buffer_len,
        4 * copied_pixels(buffer_len, data) <= data.len(),
        copied_pixels(buffer_len, data) == buffer_len || copied_pixels(buffer_len, data) == data.len()
            / 4,
{
}

/// The rim of a round control: the guide button's rim is its own opaque
/// green; every other control's rim has the control's own red, green and
/// blue, opaque-ish (200) on the face buttons and faint (100) on the rest.
pub proof fn law_rim_colors(role: CircleRole, color: [u8; 4])
    ensures
        role == CircleRole::Xbox ==> rim_color_of(role, color)@ == seq![34u8, 197, 94, 220],
        role != CircleRole::Xbox ==> {
            &&& rim_color_of(role, color)[0] == color[0]
            &&& rim_color_of(role, color)[1] == color[1]
            &&& rim_color_of(role, color)[2] == color[2]
        },
        role == CircleRole::FaceButton ==> rim_color_of(role, color)[3] == 200,
        role != CircleRole::Xbox && role != CircleRole::FaceButton ==> rim_color_of(role, color)[3]
            == 100,
{
    assert(rim_color_of(role, color)@ =~= seq![
        rim_color_of(role, color)[0],
        rim_color_of(role, color)[1],
        rim_color_of(role, color)[2],
        rim_color_of(role, color)[3],
    ]);
}

/// Which captions are spelled out in small glyphs, in terms of how the
/// control is drawn: face-button letters and thumbstick captions always are;
/// the guide, view and menu buttons, drawn as icons, never are; nor is an
/// empty caption; any other non-empty caption is.
pub proof fn law_small_label_roles(label: Seq<char>)
    ensures
        circle_role_of(label) == CircleRole::FaceButton ==> shows_small_label_of(label),
        circle_role_of(label) == CircleRole::StickKnob ==> shows_small_label_of(label),
        circle_role_of(label) == CircleRole::Xbox ==> !shows_small_label_of(label),
        circle_role_of(label) == CircleRole::Select ==> !shows_small_label_of(label),
        circle_role_of(label) == CircleRole::Menu ==> !shows_small_label_of(label),
        label.len() == 0 ==> !shows_small_label_of(label),
        label.len() > 0 && circle_role_of(label) == CircleRole::Plain ==> shows_small_label_of(
            label,
        ),
{
    reveal_strlit("");
    reveal_strlit("xbox");
    reveal_strlit("sel");
    reveal_strlit("men");
    reveal_strlit("Y");
    reveal_strlit("X");
    reveal_strlit("B");
    reveal_strlit("A");
    reveal_strlit("L3");
    reveal_strlit("R3");
    if label.len() == 0 {
        assert(label =~= ""@);
    }
}

/// In the default layout every caption is spelled out in small glyphs but
/// those of the view, guide and menu buttons, of the d-pad and of the two
/// thumbstick rings (which have none).
pub proof fn law_default_small_labels(i: int)
    requires
        0 <= i < 16,
    ensures
        shows_small_label_of(default_xbox_label(i)) <==> !(4 <= i <= 7 || i == 12 || i == 14),
{
    lemma_caption_literals();
    let label = default_xbox_label(i);
    if 4 <= i <= 7 || i == 12 || i == 14 {
        assert(!shows_small_label_of(label));
    } else {
        assert(label.len() == 1 || label.len() == 2);
        assert(label != ""@ && label != "xbox"@ && label != "sel"@ && label != "men"@);
    }
}

/// The topmost hit is found from the top of the drawing order down: with
/// no controls nothing is hit; a control added on top that is hit is the
/// topmost hit; one added on top that is not hit changes nothing.
pub proof fn law_topmost_hit_from_the_top(hits: Seq<bool>)
    ensures
        topmost_hit(Seq::<bool>::empty()) is None,
        topmost_hit(hits.push(true)) == Some(hits.len() as int),
        topmost_hit(hits.push(false)) == topmost_hit(hits),
{
    let e = Seq::<bool>::empty();
    assert(!exists|i: int| is_topmost_hit(e, i));
    let t = hits.push(true);
    assert(is_topmost_hit(t, hits.len() as int));
    let k = choose|k: int| is_topmost_hit(t, k);
    assert(k == hits.len() as int) by {
        if k < hits.len() {
            assert(t[hits.len() as int]);
        }
    }
    let f = hits.push(false);
    assert forall|i: int| is_topmost_hit(f, i) <==> is_topmost_hit(hits, i) by {
        if 0 <= i < hits.len() {
            assert(f[i] == hits[i]);
            if is_topmost_hit(hits, i) {
                assert forall|j: int| i < j < f.len() implies !#[trigger] f[j] by {
                    if j < hits.len() {
                        assert(f[j] == hits[j]);
                    }
                }
            }
            if is_topmost_hit(f, i) {
                assert forall|j: int| i < j < hits.len() implies !#[trigger] hits[j] by {
                    assert(f[j] == hits[j]);
                }
            }
        }
    }
}

/// Looking a control up by id finds the first match in list order: a list
/// that starts with a control of that id gives index 0; a list that starts
/// with another id gives the lookup in the rest, one further on.
pub proof fn law_find_first_in_order(c: ControlInfo, rest: Seq<ControlInfo>, id: u32)
    ensures
        c.id == id ==> first_with_id(seq![c] + rest, id) == Some(0int),
        c.id != id ==> first_with_id(seq![c] + rest, id) == match first_with_id(rest, id) {
            Some(k) => Some(k + 1),
            None => None,
        },
        first_with_id(Seq::<ControlInfo>::empty(), id) is None,
{
    let s = seq![c] + rest;
    assert(s[0] == c);
    assert forall|k: int| 0 <= k < rest.len() implies s[k + 1] == rest[k] by {}
    if c.id == id {
        assert(is_first_with_id(s, id, 0));
        let k = choose|k: int| is_first_with_id(s, id, k);
        assert(k == 0) by {
            if k > 0 {
                assert(s[0].id != id);
            }
        }
    } else {
        assert forall|k: int| is_first_with_id(s, id, k + 1) <==> is_first_with_id(rest, id, k) by {
            if is_first_with_id(rest, id, k) {
                assert forall|j: int| 0 <= j < k + 1 implies #[trigger] s[j].id != id by {
                    if j > 0 {
                        assert(s[j] == rest[j - 1]);
                    }
                }
            }
            if is_first_with_id(s, id, k + 1) {
                assert forall|j: int| 0 <= j < k implies #[trigger] rest[j].id != id by {
                    assert(s[j + 1] == rest[j]);
                }
            }
        }
        assert(!is_first_with_id(s, id, 0));
        if exists|k: int| is_first_with_id(rest, id, k) {
            let k = choose|k: int| is_first_with_id(rest, id, k);
            assert(is_first_with_id(s, id, k + 1));
            let m = choose|m: int| is_first_with_id(s, id, m);
            assert(m == k + 1) by {
                if m < k + 1 {
                    assert(s[m].id != id);
                } else if m > k + 1 {
                    assert(s[k + 1].id != id);
                }
            }
            let k2 = choose|k2: int| is_first_with_id(rest, id, k2);
            assert(k2 == k);
        } else {
            assert forall|m: int| !is_first_with_id(s, id, m) by {
                if m > 0 && is_first_with_id(s, id, m) {
                    assert(is_first_with_id(rest, id, m - 1));
                }
            }
        }
    }
    let e = Seq::<ControlInfo>::empty();
    assert(!exists|k: int| is_first_with_id(e, id, k));
}

/// How each control of the default layout is drawn: the view, guide and
/// menu buttons by their icons, the four face buttons with their letters,
/// the two knobs as thumbsticks, everything else plainly.
pub proof fn law_default_circle_roles(i: int)
    requires
        0 <= i < 16,
    ensures
        circle_role_of(default_xbox_label(i)) == if i == 4 {
            CircleRole::Select
        } else if i == 5 {
            CircleRole::Xbox
        } else if i == 6 {
            CircleRole::Menu
        } else if 8 <= i <= 11 {
            CircleRole::FaceButton
        } else if i == 13 || i == 15 {
            CircleRole::StickKnob
        } else {
            CircleRole::Plain
        },
{
    lemma_caption_literals();
}

/// In the default layout each face button and each thumbstick knob is
/// captioned with the name of the input it drives.
pub proof fn law_default_captions_name_inputs(i: int)
    requires
        0 <= i < 16,
    ensures
        default_xbox_input(i) == GamepadInput::ButtonA <==> default_xbox_label(i) == "A"@,
        default_xbox_input(i) == GamepadInput::ButtonB <==> default_xbox_label(i) == "B"@,
        default_xbox_input(i) == GamepadInput::ButtonX <==> default_xbox_label(i) == "X"@,
        default_xbox_input(i) == GamepadInput::ButtonY <==> default_xbox_label(i) == "Y"@,
        default_xbox_input(i) == GamepadInput::StickLeft <==> default_xbox_label(i) == "L3"@,
        default_xbox_input(i) == GamepadInput::StickRight <==> default_xbox_label(i) == "R3"@,
        default_xbox_input(i) == GamepadInput::TriggerLeft <==> default_xbox_label(i) == "LT"@,
        default_xbox_input(i) == GamepadInput::TriggerRight <==> default_xbox_label(i) == "RT"@,
        default_xbox_input(i) == GamepadInput::BumperLeft <==> default_xbox_label(i) == "LB"@,
        default_xbox_input(i) == GamepadInput::BumperRight <==> default_xbox_label(i) == "RB"@,
{
    lemma_caption_literals();
}

/// Which pixmap sizes are accepted: none with an empty side, none whose row
/// of bytes would not fit in an `i32`, and an ordinary window size is.
pub proof fn law_pixmap_sizes(w: u32, h: u32)
    ensures
        !pixmap_size_ok(0, h),
        !pixmap_size_ok(w, 0),
        w >= 0x2000_0000 ==> !pixmap_size_ok(w, h),
        pixmap_size_ok(1280, 720),
        pixmap_size_ok(1, 1),
{
}

/// The button gradient: with no brightening the top colour is the base
/// `(25, 35, 60)`; brightening adds its amount to red and green alike and
/// the blue boost to blue. The bottom colour gets half the brightening on
/// red and green and all of it on blue, never going past 255 and never
/// below the base, and never brighter on red and green than the top colour.
pub proof fn law_button_shades(bright: u8, blue_boost: u8)
    ensures
        lit_shade_of(0, 0) == seq![25u8, 35, 60],
        dim_shade_of(0) == seq![25u8, 35, 60],
        bright <= 220 && blue_boost <= 195 ==> {
            &&& lit_shade_of(bright, blue_boost)[0] == 25 + bright
            &&& lit_shade_of(bright, blue_boost)[1] == lit_shade_of(bright, blue_boost)[0] + 10
            &&& lit_shade_of(bright, blue_boost)[2] == 60 + blue_boost
        },
        dim_shade_of(bright)[0] == 25 + bright / 2,
        dim_shade_of(bright)[1] == 35 + bright / 2,
        dim_shade_of(bright)[2] == if bright <= 195 { 60 + bright } else { 255 },
        bright <= 220 && blue_boost <= 195 ==> {
            &&& dim_shade_of(bright)[0] <= lit_shade_of(bright, blue_boost)[0]
            &&& dim_shade_of(bright)[1] <= lit_shade_of(bright, blue_boost)[1]
        },
{
    assert(lit_shade_of(0, 0) =~= seq![25u8, 35, 60]);
    assert(dim_shade_of(0) =~= seq![25u8, 35, 60]);
}

/// The characters of the captions that the default layout and the styling use.
proof fn lemma_caption_literals()
    ensures
        ""@.len() == 0,
        "xbox"@.len() == 4 && "xbox"@[0] == 'x' && "xbox"@[1] == 'b' && "xbox"@[2] == 'o' && "xbox"@[3] == 'x',
        "sel"@.len() == 3 && "sel"@[0] == 's' && "sel"@[1] == 'e' && "sel"@[2] == 'l',
        "men"@.len() == 3 && "men"@[0] == 'm' && "men"@[1] == 'e' && "men"@[2] == 'n',
        "LT"@.len() == 2 && "LT"@[0] == 'L' && "LT"@[1] == 'T',
        "LB"@.len() == 2 && "LB"@[0] == 'L' && "LB"@[1] == 'B',
        "RT"@.len() == 2 && "RT"@[0] == 'R' && "RT"@[1] == 'T',
        "RB"@.len() == 2 && "RB"@[0] == 'R' && "RB"@[1] == 'B',
        "Y"@.len() == 1 && "Y"@[0] == 'Y',
        "X"@.len() == 1 && "X"@[0] == 'X',
        "B"@.len() == 1 && "B"@[0] == 'B',
        "A"@.len() == 1 && "A"@[0] == 'A',
        "L3"@.len() == 2 && "L3"@[0] == 'L' && "L3"@[1] == '3',
        "R3"@.len() == 2 && "R3"@[0] == 'R' && "R3"@[1] == '3',
{
    reveal_strlit("");
    reveal_strlit("xbox");
    reveal_strlit("sel");
    reveal_strlit("men");
    reveal_strlit("LT");
    reveal_strlit("LB");
    reveal_strlit("RT");
    reveal_strlit("RB");
    reveal_strlit("Y");
    reveal_strlit("X");
    reveal_strlit("B");
    reveal_strlit("A");
    reveal_strlit("L3");
    reveal_strlit("R3");
    assert(""@ =~= Seq::<char>::empty());
    assert("xbox"@ =~= seq!['x', 'b', 'o', 'x']);
    assert("sel"@ =~= seq!['s', 'e', 'l']);
    assert("men"@ =~= seq!['m', 'e', 'n']);
    assert("LT"@ =~= seq!['L', 'T']);
    assert("LB"@ =~= seq!['L', 'B']);
    assert("RT"@ =~= seq!['R', 'T']);
    assert("RB"@ =~= seq!['R', 'B']);
    assert("Y"@ =~= seq!['Y']);
    assert("X"@ =~= seq!['X']);
    assert("B"@ =~= seq!['B']);
    assert("A"@ =~= seq!['A']);
    assert("L3"@ =~= seq!['L', '3']);
    assert("R3"@ =~= seq!['R', '3']);
}

/// An event names the control it is about by that control's own id and
/// input, and a press and a release of one control differ only in their state.
pub proof fn law_events_name_their_control(c: ControlInfo)
    ensures
        event_for(c, PressState::Pressed).control_id == c.id,
        event_for(c, PressState::Pressed).input == c.input,
        event_for(c, PressState::Pressed).state == PressState::Pressed,
        event_for(c, PressState::Released).state == PressState::Released,
        event_for(c, PressState::Released).control_id == event_for(c, PressState::Pressed).control_id,
        event_for(c, PressState::Released).input == event_for(c, PressState::Pressed).input,
{
}

/// The colours of the default layout: the four shoulder controls share one
/// colour, the view and menu buttons another, the two thumbstick rings and
/// the two knobs one each; the guide button has the green of the A button;
/// every control is drawn at alpha 235 but the rings, at 220.
pub proof fn law_default_colors(i: int)
    requires
        0 <= i < 16,
    ensures
        default_xbox_color(i).len() == 4,
        0 <= i < 4 ==> default_xbox_color(i) == default_xbox_color(0),
        default_xbox_color(4) == default_xbox_color(6),
        default_xbox_color(12) == default_xbox_color(14),
        default_xbox_color(13) == default_xbox_color(15),
        default_xbox_color(5) == default_xbox_color(11),
        default_xbox_color(i)[3] == if i == 12 || i == 14 { 220u8 } else { 235u8 },
{
}

} // verus!
