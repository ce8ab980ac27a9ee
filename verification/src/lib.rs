//! Touch-driven virtual gamepad: the bookkeeping behind an on-screen
//! controller overlay.
//!
//! The library keeps track of which touch holds which on-screen control,
//! describes the default Xbox-style control set, decides how each round
//! control is styled, and turns the rendered RGBA pixmap into the ARGB
//! words that a window surface expects.
//!
//! Modules:
//! - `gamepad`: the gamepad inputs and the press/release events;
//! - `layout`: what identifies a control, and the default Xbox control set;
//! - `input`: the touch tracker (which touch holds which control);
//! - `render`: the pixmap the overlay is drawn into, and its conversion to
//!   window pixels;
//! - `style`: caption-driven styling decisions for drawing;
//! - `laws`: properties that relate several operations.

mod gamepad;
mod input;
mod laws;
mod layout;
mod render;
mod style;

pub use gamepad::{GamepadInput, InputEvent, PressState};
pub use input::{
    event_for, is_topmost_hit, lists_held_ids, press_op, sticks_after, sticks_step,
    topmost_hit, topmost_hit_index, touches_after, touches_step, InputTracker, StickState,
    TouchOp,
};
pub use laws::{
    held_after, is_stick_event, is_touch_event, last_pressed_id, last_stick_event,
    last_touch_event, law_active_iff_ids_listed, law_pressed_ids_trace, law_stick_trace,
    law_touch_trace, law_trace_extends, law_button_press_keeps_sticks, law_copy_covers_smaller,
    law_default_small_labels, law_default_stick_controls, law_resize_reaches_size, law_rim_colors,
    law_small_label_roles, law_stick_press_records_origin, law_button_shades,
    law_default_captions_name_inputs, law_default_circle_roles, law_find_first_in_order,
    law_pixmap_sizes, law_topmost_hit_from_the_top, law_default_colors,
    law_events_name_their_control, recorded_stick, law_argb_word_bytes, law_blank_pixmap_renders_zero, law_press_release_frees_touch,
    law_release_reports_pressed_control, law_resize_is_idempotent,
};
pub use layout::{
    default_xbox_color, default_xbox_controls, default_xbox_input, default_xbox_label,
    default_xbox_len, find_control, first_with_id, ids_unique, is_default_xbox_control,
    is_first_with_id, ControlInfo,
};
pub use render::{
    argb, argb_of_pixel, copied_pixels, is_blank_pixmap, pixmap_data, pixmap_size,
    pixmap_size_ok, resized, transparent_bytes, Renderer,
};
pub use style::{
    circle_role, circle_role_of, dim_shade, dim_shade_of, lit_shade, lit_shade_of, rim_color,
    rim_color_of, sat_add, shows_small_label, shows_small_label_of, text_eq, CircleRole,
};
