//! The staleness gate: what of a merged result is shown, if anything.

use std::collections::HashMap;
use vstd::prelude::*;
use vstd::std_specs::hash::spec_hash_map_iter;
use vstd::std_specs::iter::IteratorSpec;

use crate::editor::EditorState;
use crate::provider::ProviderId;
use crate::response::{clone_item, CompletionDetails, RawItem};
use crate::trigger::Trigger;

verus! {

/// The completions on display: what was last delivered to the display.
pub struct CompletionSession {
    /// The items on display.
    pub items: Vec<RawItem>,
    /// What the providers of the latest request said of their answers. A
    /// provider without an entry counts as complete.
    pub details: HashMap<ProviderId, CompletionDetails>,
    /// The cursor offset to which the display is anchored.
    pub trigger_offset: usize,
}

impl CompletionSession {
    /// Whether the provider's answer on display is marked partial.
    pub open spec fn marks_incomplete(self, provider: ProviderId) -> bool {
        self.details@.contains_key(provider) && self.details@[provider].is_incomplete
    }

    /// The items on display that came from providers not marked partial.
    pub open spec fn kept_items(self) -> Seq<RawItem> {
        self.items@.filter(|item: RawItem| !self.marks_incomplete(item.provider))
    }

    /// Tells whether the provider's answer on display is marked partial.
    pub fn is_incomplete(&self, provider: ProviderId) -> (partial: bool)
        ensures
            partial == self.marks_incomplete(provider),
    {
        broadcast use vstd::std_specs::hash::group_hash_axioms;

        match self.details.get(&provider) {
            Some(details) => details.is_incomplete,
            None => false,
        }
    }

    /// Tells whether any provider's answer on display is marked partial.
    pub fn has_incomplete(&self) -> (any: bool)
        ensures
            any <==> exists|provider: ProviderId| self.marks_incomplete(provider),
    {
        broadcast use vstd::std_specs::hash::group_hash_axioms;

        for entry in it: self.details.iter()
            invariant
                forall|i: int|
                    0 <= i < it.index() ==> !(#[trigger] it.seq()[i]).1.is_incomplete,
                it.seq() == spec_hash_map_iter(&self.details).remaining(),
        {
            if entry.1.is_incomplete {
                assert(self.marks_incomplete(*entry.0));
                return true;
            }
        }
        assert forall|provider: ProviderId| !self.marks_incomplete(provider) by {
            if self.details@.contains_key(provider) {
                let entries = spec_hash_map_iter(&self.details).remaining();
                assert(entries.contains((&provider, &self.details@[provider])));
            }
        }
        false
    }

    /// The items on display that came from providers not marked partial, in
    /// their order.
    pub fn complete_items(&self) -> (kept: Vec<RawItem>)
        ensures
            kept@ == self.kept_items(),
    {
        let mut kept: Vec<RawItem> = Vec::new();
        let ghost keep = |item: RawItem| !self.marks_incomplete(item.provider);
        let mut i: usize = 0;
        while i < self.items.len()
            invariant
                i <= self.items.len(),
                keep == |item: RawItem| !self.marks_incomplete(item.provider),
                kept@ == self.items@.take(i as int).filter(keep),
            decreases self.items.len() - i,
        {
            let item = &self.items[i];
            proof {
                reveal(Seq::filter);
                assert(self.items@.take(i + 1).drop_last() == self.items@.take(i as int));
            }
            if !self.is_incomplete(item.provider) {
                kept.push(
                    RawItem {
                        item: clone_item(&item.item),
                        provider: item.provider,
                        resolved: item.resolved,
                    },
                );
            }
            i += 1;
        }
        assert(self.items@.take(i as int) == self.items@);
        kept
    }
}

/// What a delivery shows: the items of the providers that were complete
/// before, kept as they are, and behind them the new items.
pub open spec fn shown_items(open: Option<&CompletionSession>, items: Seq<RawItem>) -> Seq<
    RawItem,
> {
    match open {
        Some(session) => session.kept_items() + items,
        None => items,
    }
}

/// Where a delivery anchors the display: where the open session is anchored,
/// or at the trigger's position where none is open.
pub open spec fn shown_offset(open: Option<&CompletionSession>, trigger: Trigger) -> usize {
    match open {
        Some(session) => session.trigger_offset,
        None => trigger.pos,
    }
}

/// Passes a merged result through the staleness gate.
///
/// `editor` is the editor as it is now, `open` the session on display, if
/// one is. Nothing is shown if the editor has left insert mode or the
/// trigger's view or document in the meantime, and nothing if there are no
/// items. Otherwise the new session holds the items that the open session
/// had from providers not marked partial, followed by the new items, with
/// the new word of the providers on their answers.
pub fn show_completion(
    editor: &EditorState,
    open: Option<&CompletionSession>,
    items: Vec<RawItem>,
    details: HashMap<ProviderId, CompletionDetails>,
    trigger: Trigger,
) -> (shown: Option<CompletionSession>)
    ensures
        shown is Some <==> editor.is_at(trigger) && items@.len() > 0,
        shown matches Some(session) ==> session.items@ == shown_items(open, items@)
            && session.details@ == details@ && session.trigger_offset == shown_offset(
            open,
            trigger,
        ),
{
    if !editor.is_at(trigger) || items.is_empty() {
        return None;
    }
    let mut items = items;
    match open {
        Some(session) => {
            let mut all_items = session.complete_items();
            all_items.append(&mut items);
            Some(
                CompletionSession {
                    items: all_items,
                    details,
                    trigger_offset: session.trigger_offset,
                },
            )
        },
        None => Some(CompletionSession { items, details, trigger_offset: trigger.pos }),
    }
}

} // verus!
