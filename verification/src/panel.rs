//! The control panel's per-frame decisions. The immediate-mode UI host
//! draws the widgets and reports, as plain booleans and values, what the
//! user did this frame; this function turns those reports into the frame's
//! color and selection edits. The panel holds no state of its own: it is
//! rebuilt from the two state resources every frame.

use vstd::prelude::*;
use crate::color::{ColorState, UNIT, clamped};
use crate::selection::SelectionState;

verus! {

/// What the UI host reported for this frame: whether the randomize button
/// and the informational panel's confirm button were clicked, and for each
/// slider the new value if it changed (`None` when untouched).
#[derive(Clone, Copy, Debug)]
pub struct PanelInput {
    pub randomize_clicked: bool,
    pub confirm_clicked: bool,
    pub r_edit: Option<i64>,
    pub g_edit: Option<i64>,
    pub b_edit: Option<i64>,
}

/// The frame reported at least one color edit: the randomize button or a
/// slider change.
pub open spec fn color_edited(input: PanelInput) -> bool {
    ||| input.randomize_clicked
    ||| input.r_edit is Some
    ||| input.g_edit is Some
    ||| input.b_edit is Some
}

/// The selection after the panel's frame: confirming the shown panel
/// dismisses it (the selection itself is kept); everything else leaves the
/// state alone.
pub open spec fn spec_panel_sel(s: SelectionState, input: PanelInput) -> SelectionState {
    if s.panel_visible && input.confirm_clicked {
        s.spec_dismiss()
    } else {
        s
    }
}

/// Runs one frame of the control panel over the host's widget reports:
/// dismisses the informational panel on confirm, then draws a random color
/// on the randomize click, then applies the slider edits in order, each as
/// a full-triple `set` (last write wins within the frame). Returns whether
/// the informational panel was shown this frame.
pub fn panel_frame(color: &mut ColorState, sel: &mut SelectionState, input: &PanelInput) -> (
    info_shown: bool)
    requires
        old(color).wf(),
    ensures
        info_shown == old(sel).panel_visible,
        *final(sel) == spec_panel_sel(*old(sel), *input),
        final(color).wf(),
        color_edited(*input) ==> final(color).dirty,
        !color_edited(*input) ==> *final(color) == *old(color),
        input.r_edit matches Some(v) ==> final(color).rgb.r == clamped(v as int, 0, UNIT as int),
        input.g_edit matches Some(v) ==> final(color).rgb.g == clamped(v as int, 0, UNIT as int),
        input.b_edit matches Some(v) ==> final(color).rgb.b == clamped(v as int, 0, UNIT as int),
        input.r_edit is None && !input.randomize_clicked ==> final(color).rgb.r == old(
            color,
        ).rgb.r,
        input.g_edit is None && !input.randomize_clicked ==> final(color).rgb.g == old(
            color,
        ).rgb.g,
        input.b_edit is None && !input.randomize_clicked ==> final(color).rgb.b == old(
            color,
        ).rgb.b,
        input.r_edit is None && input.randomize_clicked ==> 0 <= final(color).rgb.r < UNIT,
        input.g_edit is None && input.randomize_clicked ==> 0 <= final(color).rgb.g < UNIT,
        input.b_edit is None && input.randomize_clicked ==> 0 <= final(color).rgb.b < UNIT,
{
    let info_shown = sel.panel_visible;
    if sel.panel_visible && input.confirm_clicked {
        sel.dismiss();
    }
    if input.randomize_clicked {
        color.randomize();
    }
    if let Some(v) = input.r_edit {
        let g = color.rgb.g;
        let b = color.rgb.b;
        color.set(v, g, b);
    }
    if let Some(v) = input.g_edit {
        let r = color.rgb.r;
        let b = color.rgb.b;
        color.set(r, v, b);
    }
    if let Some(v) = input.b_edit {
        let r = color.rgb.r;
        let g = color.rgb.g;
        color.set(r, g, v);
    }
    info_shown
}

} // verus!
