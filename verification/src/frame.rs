//! One frame tick: the fixed-order, single-threaded pipeline. Each frame
//! runs, in this order: pick event derivation, selection transitions,
//! the control panel, the color broadcast, and the gizmo drag. The order
//! makes a click observable by the panel in the same frame, and a color
//! edit visible to the renderer in the same frame.

use vstd::prelude::*;
use crate::color::{ColorState, UNIT, clamped};
use crate::gizmo::apply_drag;
use crate::panel::{PanelInput, panel_frame, spec_panel_sel, color_edited};
use crate::pick::{PickEvent, PickPipeline, process_events, spec_process, lemma_click_shows_panel};
use crate::selection::SelectionState;
use crate::store::{Store, ObjectId};
use crate::transform::{DragDelta, spec_combine};

verus! {

/// Everything the engine hands the core for one frame: the ray-cast hit
/// under the pointer, the pointer's press and release edges, the panel
/// widgets' reports, and the gizmo's drag delta (the zero delta on an idle
/// frame — no drag input is dropped).
#[derive(Clone, Copy, Debug)]
pub struct FrameInput {
    pub hit: Option<ObjectId>,
    pub press: bool,
    pub release: bool,
    pub panel: PanelInput,
    pub drag: DragDelta,
}

/// The pick events this frame derives.
pub open spec fn frame_events(pipe: PickPipeline, input: FrameInput) -> Seq<PickEvent> {
    pipe.spec_frame_events(input.hit, input.press, input.release)
}

/// The selection as the frame's consumers (panel and gizmo) read it:
/// after the pick events have been drained.
pub open spec fn sel_after_pick(
    pipe: PickPipeline,
    sel: SelectionState,
    input: FrameInput,
) -> SelectionState {
    spec_process(sel, frame_events(pipe, input))
}

/// Some event of the frame is a click.
pub open spec fn has_click(events: Seq<PickEvent>) -> bool {
    exists|i: int| 0 <= i < events.len() && events[i] is Click
}

/// The frame broadcasts a color: either the color was already dirty when
/// the frame began, or the panel edited it this frame.
pub open spec fn broadcasts(c: ColorState, input: FrameInput) -> bool {
    c.dirty || color_edited(input.panel)
}

/// The frame's drag lands on store entry `i`: that entry is selected.
pub open spec fn drags_object(sel: SelectionState, i: int) -> bool {
    match sel.selected {
        Some(id) => id.idx == i,
        None => false,
    }
}

/// Runs one frame tick over all state resources, in the fixed stage order.
/// Returns the frame's pick events (for the engine's log) and whether the
/// informational panel was shown this frame.
pub fn frame_tick(
    pipe: &mut PickPipeline,
    sel: &mut SelectionState,
    color: &mut ColorState,
    store: &mut Store,
    input: &FrameInput,
) -> (out: (Vec<PickEvent>, bool))
    requires
        old(color).wf(),
        old(store).wf(),
        input.drag.wf(),
    ensures
        out.0@ == frame_events(*old(pipe), *input),
        *final(pipe) == old(pipe).spec_frame_state(input.hit, input.press, input.release),
        *final(sel) == spec_panel_sel(
            sel_after_pick(*old(pipe), *old(sel), *input),
            input.panel,
        ),
        out.1 == sel_after_pick(*old(pipe), *old(sel), *input).panel_visible,
        has_click(frame_events(*old(pipe), *input)) ==> out.1,
        final(color).wf(),
        !final(color).dirty,
        input.panel.r_edit matches Some(v) ==> final(color).rgb.r == clamped(
            v as int,
            0,
            UNIT as int,
        ),
        input.panel.g_edit matches Some(v) ==> final(color).rgb.g == clamped(
            v as int,
            0,
            UNIT as int,
        ),
        input.panel.b_edit matches Some(v) ==> final(color).rgb.b == clamped(
            v as int,
            0,
            UNIT as int,
        ),
        input.panel.r_edit is None && !input.panel.randomize_clicked ==> final(color).rgb.r == old(
            color,
        ).rgb.r,
        input.panel.g_edit is None && !input.panel.randomize_clicked ==> final(color).rgb.g == old(
            color,
        ).rgb.g,
        input.panel.b_edit is None && !input.panel.randomize_clicked ==> final(color).rgb.b == old(
            color,
        ).rgb.b,
        input.panel.r_edit is None && input.panel.randomize_clicked ==> 0 <= final(color).rgb.r
            < UNIT,
        input.panel.g_edit is None && input.panel.randomize_clicked ==> 0 <= final(color).rgb.g
            < UNIT,
        input.panel.b_edit is None && input.panel.randomize_clicked ==> 0 <= final(color).rgb.b
            < UNIT,
        final(store).wf(),
        final(store).objects@.len() == old(store).objects@.len(),
        forall|i: int|
            0 <= i < old(store).objects@.len() ==> {
                let o = #[trigger] old(store).objects@[i];
                let n = final(store).objects@[i];
                &&& n.kind == o.kind
                &&& (broadcasts(*old(color), *input) && o.material is Some ==> n.material == Some(
                    final(color).rgb,
                ))
                &&& (o.material is None ==> n.material is None)
                &&& (!broadcasts(*old(color), *input) ==> n.material == o.material)
                &&& (drags_object(sel_after_pick(*old(pipe), *old(sel), *input), i)
                    ==> n.transform == spec_combine(o.transform, input.drag))
                &&& (!drags_object(sel_after_pick(*old(pipe), *old(sel), *input), i)
                    ==> n.transform == o.transform)
            },
{
    let events = pipe.frame(input.hit, input.press, input.release);
    process_events(&events, sel);
    let shown = panel_frame(color, sel, &input.panel);
    proof {
        if has_click(frame_events(*old(pipe), *input)) {
            lemma_click_shows_panel(*old(sel), frame_events(*old(pipe), *input));
        }
    }
    color.apply(store);
    apply_drag(sel, store, &input.drag);
    (events, shown)
}

} // verus!
