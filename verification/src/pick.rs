//! The pick event pipeline: turns the frame's pointer state (the ray-cast
//! hit, the press and release edges) into an ordered sequence of pick
//! events, and drains that sequence into the selection state. Events are
//! produced and consumed within one frame and never stored across frames.

use vstd::prelude::*;
use crate::store::ObjectId;
use crate::selection::SelectionState;

verus! {

/// A pick event, in the order of detection within one frame: an object
/// newly under the pointer, an object entering the pressed (highlighted)
/// state, or a completed press-release over one object.
#[derive(Clone, Copy, Debug, PartialEq, Eq, Structural)]
pub enum PickEvent {
    Hover(ObjectId),
    Select(ObjectId),
    Click(ObjectId),
}

/// Compares two optional handles.
fn opt_id_eq(a: &Option<ObjectId>, b: &Option<ObjectId>) -> (r: bool)
    ensures
        r == (*a == *b),
{
    match (a, b) {
        (None, None) => true,
        (Some(x), Some(y)) => x.idx == y.idx,
        _ => false,
    }
}

/// The pipeline's state across frames: what was under the pointer last
/// frame, and over which object a press began and is still held.
#[derive(Clone, Copy, Debug)]
pub struct PickPipeline {
    pub hovered: Option<ObjectId>,
    pub pressed_over: Option<ObjectId>,
}

impl PickPipeline {
    /// The events of one frame, in temporal order: a Hover for an object
    /// newly under the pointer, a Select for an object a press lands on,
    /// a Click for a release over the object the press began on.
    pub open spec fn spec_frame_events(
        self,
        hit: Option<ObjectId>,
        press: bool,
        release: bool,
    ) -> Seq<PickEvent> {
        let hover: Seq<PickEvent> = if hit is Some && hit != self.hovered {
            seq![PickEvent::Hover(hit->Some_0)]
        } else {
            Seq::empty()
        };
        let select: Seq<PickEvent> = if press && hit is Some {
            seq![PickEvent::Select(hit->Some_0)]
        } else {
            Seq::empty()
        };
        let held = if press {
            hit
        } else {
            self.pressed_over
        };
        let click: Seq<PickEvent> = if release && held is Some && hit == held {
            seq![PickEvent::Click(hit->Some_0)]
        } else {
            Seq::empty()
        };
        hover + select + click
    }

    /// The pipeline's state after one frame: the hit becomes the hovered
    /// object, and the held press is dropped on release.
    pub open spec fn spec_frame_state(
        self,
        hit: Option<ObjectId>,
        press: bool,
        release: bool,
    ) -> PickPipeline {
        let held = if press {
            hit
        } else {
            self.pressed_over
        };
        PickPipeline { hovered: hit, pressed_over: if release {
            None
        } else {
            held
        } }
    }

    /// Runs one frame of edge detection over the pointer state and returns
    /// the frame's events in temporal order.
    pub fn frame(&mut self, hit: Option<ObjectId>, press: bool, release: bool) -> (events: Vec<
        PickEvent,
    >)
        ensures
            *final(self) == old(self).spec_frame_state(hit, press, release),
            events@ == old(self).spec_frame_events(hit, press, release),
    {
        let mut events: Vec<PickEvent> = Vec::new();
        let newly_hovered = !opt_id_eq(&hit, &self.hovered);
        if let Some(h) = hit {
            if newly_hovered {
                events.push(PickEvent::Hover(h));
            }
            if press {
                events.push(PickEvent::Select(h));
            }
        }
        let held = if press {
            hit
        } else {
            self.pressed_over
        };
        if release {
            if let Some(p) = held {
                if let Some(h) = hit {
                    if p.idx == h.idx {
                        events.push(PickEvent::Click(h));
                    }
                }
            }
        }
        self.hovered = hit;
        self.pressed_over = if release {
            None
        } else {
            held
        };
        proof {
            assert(events@ =~= old(self).spec_frame_events(hit, press, release));
        }
        events
    }
}

impl Default for PickPipeline {
    /// At startup nothing is hovered and no press is held.
    fn default() -> (p: PickPipeline)
        ensures
            p.hovered is None,
            p.pressed_over is None,
    {
        PickPipeline { hovered: None, pressed_over: None }
    }
}

/// One event's effect on the selection: a click selects the clicked object
/// and shows the panel; hovers and highlights leave the selection alone.
pub open spec fn apply_event(s: SelectionState, e: PickEvent) -> SelectionState {
    match e {
        PickEvent::Click(id) => s.spec_on_click(id),
        _ => s,
    }
}

/// The selection after draining a frame's events in order.
pub open spec fn spec_process(s: SelectionState, events: Seq<PickEvent>) -> SelectionState
    decreases events.len(),
{
    if events.len() == 0 {
        s
    } else {
        apply_event(spec_process(s, events.drop_last()), events.last())
    }
}

/// Drains one frame's events, in order, into the selection state.
pub fn process_events(events: &Vec<PickEvent>, sel: &mut SelectionState)
    ensures
        *final(sel) == spec_process(*old(sel), events@),
{
    let n = events.len();
    let mut i: usize = 0;
    while i < n
        invariant
            n == events@.len(),
            i <= n,
            *sel == spec_process(*old(sel), events@.subrange(0, i as int)),
        decreases n - i,
    {
        match events[i] {
            PickEvent::Click(id) => sel.on_click(id),
            _ => {},
        }
        proof {
            assert(events@.subrange(0, i + 1 as int).drop_last() =~= events@.subrange(0, i as int));
            assert(events@.subrange(0, i + 1 as int).last() == events@[i as int]);
        }
        i += 1;
    }
    proof {
        assert(events@.subrange(0, n as int) =~= events@);
    }
}

/// Law: a click is never delayed. If any event of the frame is a Click,
/// the selection that the frame's consumers read has the panel visible in
/// that same frame.
pub proof fn lemma_click_shows_panel(s: SelectionState, events: Seq<PickEvent>)
    requires
        exists|i: int| 0 <= i < events.len() && events[i] is Click,
    ensures
        spec_process(s, events).panel_visible,
    decreases events.len(),
{
    let i = choose|i: int| 0 <= i < events.len() && events[i] is Click;
    if i < events.len() - 1 {
        assert(events.drop_last()[i] is Click);
        lemma_click_shows_panel(s, events.drop_last());
    }
}

} // verus!
