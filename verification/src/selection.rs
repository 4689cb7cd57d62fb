//! The selection state: the single source of truth for what is selected
//! and whether the informational panel is shown. A click selects the
//! clicked object and shows the panel; a dismissal hides the panel and
//! keeps the selection.

use vstd::prelude::*;
use crate::store::ObjectId;

verus! {

/// The current selection and the visibility of the informational panel.
#[derive(Clone, Copy, Debug)]
pub struct SelectionState {
    pub selected: Option<ObjectId>,
    pub panel_visible: bool,
}

impl SelectionState {
    /// What a click leaves behind: the clicked object selected, the panel
    /// shown. Re-clicking while the panel is already shown re-enters the
    /// same state, never toggles it off.
    pub open spec fn spec_on_click(self, id: ObjectId) -> SelectionState {
        SelectionState { selected: Some(id), panel_visible: true }
    }

    /// What a dismissal leaves behind: the panel hidden, the selection
    /// kept.
    pub open spec fn spec_dismiss(self) -> SelectionState {
        SelectionState { selected: self.selected, panel_visible: false }
    }

    /// Records a click on `id`: selects it and shows the panel.
    pub fn on_click(&mut self, id: ObjectId)
        ensures
            *final(self) == old(self).spec_on_click(id),
    {
        self.selected = Some(id);
        self.panel_visible = true;
    }

    /// Hides the panel; the selection is untouched.
    pub fn dismiss(&mut self)
        ensures
            *final(self) == old(self).spec_dismiss(),
    {
        self.panel_visible = false;
    }
}

impl Default for SelectionState {
    /// At startup nothing is selected and the panel is hidden.
    fn default() -> (s: SelectionState)
        ensures
            s.selected is None,
            !s.panel_visible,
    {
        SelectionState { selected: None, panel_visible: false }
    }
}

/// Law: dismissing is idempotent. A dismissal when the panel is already
/// hidden leaves the whole state unchanged, and a second dismissal never
/// does more than the first.
pub proof fn lemma_dismiss_idempotent(s: SelectionState)
    ensures
        !s.panel_visible ==> s.spec_dismiss() == s,
        s.spec_dismiss().spec_dismiss() == s.spec_dismiss(),
{
}

/// Law: a later click wins. Clicking object `a` and then object `b` leaves
/// `b` selected with the panel still shown, exactly as clicking `b` alone
/// would.
pub proof fn lemma_click_retriggers(s: SelectionState, a: ObjectId, b: ObjectId)
    ensures
        s.spec_on_click(a).spec_on_click(b) == s.spec_on_click(b),
        s.spec_on_click(a).spec_on_click(b).panel_visible,
        s.spec_on_click(a).spec_on_click(b).selected == Some(b),
{
}

} // verus!
