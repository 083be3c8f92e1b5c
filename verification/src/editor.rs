//! What the scheduler reads of the host editor at the moment of a check.

use vstd::prelude::*;

use crate::trigger::{DocumentId, Trigger, ViewId};

verus! {

/// The interaction mode of the host editor.
#[derive(Debug, Clone, Copy, PartialEq, Eq, Structural)]
pub enum Mode {
    Normal,
    Select,
    /// The mode in which text is typed, and the only one in which
    /// completions are asked for and shown.
    Insert,
}

/// The editor as it is when a check is made: never an earlier snapshot.
#[derive(Debug, Clone, Copy, PartialEq, Eq, Structural)]
pub struct EditorState {
    pub mode: Mode,
    /// The active view.
    pub view: ViewId,
    /// The document shown in the active view.
    pub doc: DocumentId,
    /// The offset of the primary cursor in that view.
    pub cursor: usize,
}

impl EditorState {
    /// Whether the editor still is where the trigger was recorded: in insert
    /// mode, in the trigger's view and document.
    pub open spec fn spec_is_at(&self, trigger: Trigger) -> bool {
        self.mode == Mode::Insert && self.view == trigger.view && self.doc == trigger.doc
    }

    /// Tells whether the editor still is where the trigger was recorded.
    #[verifier::when_used_as_spec(spec_is_at)]
    pub fn is_at(&self, trigger: Trigger) -> (at: bool)
        ensures
            at == self.spec_is_at(trigger),
    {
        self.mode == Mode::Insert && self.view == trigger.view && self.doc == trigger.doc
    }
}

} // verus!
