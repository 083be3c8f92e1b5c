//! Triggers and the events that arm, replace or clear them.

use vstd::prelude::*;

verus! {

/// Identifies a view (a window onto a document) of the host editor.
#[derive(Debug, Clone, Copy, PartialEq, Eq, Hash, Structural)]
pub struct ViewId(pub u64);

/// Identifies a document of the host editor.
#[derive(Debug, Clone, Copy, PartialEq, Eq, Hash, Structural)]
pub struct DocumentId(pub u64);

/// How a completion request came about.
#[derive(Debug, Clone, Copy, PartialEq, Eq, Structural)]
pub enum TriggerKind {
    /// The user typed part of a word.
    Auto,
    /// The user typed a character that a provider declared as a trigger.
    TriggerChar,
    /// The user asked for completions explicitly.
    Manual,
}

/// A recorded intent to request completions.
#[derive(Debug, Clone, Copy, PartialEq, Eq, Structural)]
pub struct Trigger {
    /// Cursor offset at which the request was asked for.
    pub pos: usize,
    pub view: ViewId,
    pub doc: DocumentId,
    pub kind: TriggerKind,
}

/// What the host editor reports to the debounce scheduler.
#[derive(Debug, Clone, Copy, PartialEq, Eq, Structural)]
pub enum CompletionEvent {
    /// Typing made a completion desirable.
    AutoTrigger { cursor: usize, doc: DocumentId, view: ViewId },
    /// A provider's trigger character was typed.
    TriggerChar { cursor: usize, doc: DocumentId, view: ViewId },
    /// Completions were asked for explicitly.
    ManualTrigger { cursor: usize, doc: DocumentId, view: ViewId },
    /// Whatever is pending or in flight is no longer wanted.
    Cancel,
    /// Text was deleted; `cursor` is the cursor offset after the deletion.
    DeleteText { cursor: usize },
}

impl CompletionEvent {
    /// The trigger that the event asks for, if it asks for one.
    pub open spec fn requested(self) -> Option<Trigger> {
        match self {
            CompletionEvent::AutoTrigger { cursor, doc, view } => Some(
                Trigger { pos: cursor, view, doc, kind: TriggerKind::Auto },
            ),
            CompletionEvent::TriggerChar { cursor, doc, view } => Some(
                Trigger { pos: cursor, view, doc, kind: TriggerKind::TriggerChar },
            ),
            CompletionEvent::ManualTrigger { cursor, doc, view } => Some(
                Trigger { pos: cursor, view, doc, kind: TriggerKind::Manual },
            ),
            CompletionEvent::Cancel => None,
            CompletionEvent::DeleteText { .. } => None,
        }
    }

    /// An automatic trigger for the given document and view.
    pub open spec fn is_auto_for(self, doc: DocumentId, view: ViewId) -> bool {
        self matches CompletionEvent::AutoTrigger { doc: d, view: v, .. } && d == doc && v == view
    }
}

} // verus!
