//! The fan-out: which providers a fired trigger asks, and with what context.

use std::collections::HashSet;
use vstd::prelude::*;

use crate::delivery::CompletionSession;
use crate::editor::EditorState;
use crate::provider::{Provider, ProviderId};
use crate::text::{chars_of, ends_with, first_suffix, first_suffix_from};
use crate::trigger::{Trigger, TriggerKind};

verus! {

/// How a request tells its provider that it came about.
#[derive(Debug, Clone, Copy, PartialEq, Eq, Structural)]
pub enum CompletionTriggerKind {
    /// Completion was invoked, by the user or by typing.
    Invoked,
    /// Completion was triggered by one of the provider's trigger strings.
    TriggerCharacter,
}

/// The context of a request to one provider.
pub struct CompletionContext {
    pub trigger_kind: CompletionTriggerKind,
    /// The trigger string that was typed, where that is what triggered.
    pub trigger_character: Option<String>,
}

/// A context as seen by contracts.
pub struct ContextModel {
    pub trigger_kind: CompletionTriggerKind,
    pub trigger_character: Option<Seq<char>>,
}

impl View for CompletionContext {
    type V = ContextModel;

    open spec fn view(&self) -> ContextModel {
        ContextModel {
            trigger_kind: self.trigger_kind,
            trigger_character: match self.trigger_character {
                Some(s) => Some(s@),
                None => None,
            },
        }
    }
}

/// The request that goes to one provider.
pub struct ProviderRequest {
    pub provider: ProviderId,
    /// The cursor offset for which completions are asked.
    pub position: usize,
    pub context: CompletionContext,
}

/// A request as seen by contracts.
pub struct RequestModel {
    pub provider: ProviderId,
    pub position: usize,
    pub context: ContextModel,
}

impl View for ProviderRequest {
    type V = RequestModel;

    open spec fn view(&self) -> RequestModel {
        RequestModel { provider: self.provider, position: self.position, context: self.context@ }
    }
}

/// What a fired trigger sets in motion.
pub struct RequestPlan {
    /// The trigger, moved to the cursor offset at which the requests are made.
    pub trigger: Trigger,
    /// One request for each provider that is asked, in the providers' order.
    pub requests: Vec<ProviderRequest>,
}

impl RequestPlan {
    /// The requests of the plan as seen by contracts.
    pub open spec fn requests_view(self) -> Seq<RequestModel> {
        self.requests@.map_values(|r: ProviderRequest| r@)
    }
}

/// The context for a provider with the given trigger strings.
///
/// A manual trigger invokes. Any other trigger counts as triggered by the
/// first of the provider's trigger strings that ends the text before the
/// cursor, and invokes where none does.
pub open spec fn context_for(kind: TriggerKind, triggers: Seq<Seq<char>>, text: Seq<char>) -> ContextModel {
    if kind != TriggerKind::Manual && first_suffix(triggers, text) is Some {
        ContextModel {
            trigger_kind: CompletionTriggerKind::TriggerCharacter,
            trigger_character: Some(triggers[first_suffix(triggers, text)->0]),
        }
    } else {
        ContextModel { trigger_kind: CompletionTriggerKind::Invoked, trigger_character: None }
    }
}

/// Whether the `i`-th provider is asked: it supports completion, no provider
/// before it that does has the same identity, and, where a session is open,
/// the session marks its answer partial.
pub open spec fn is_asked(providers: Seq<Provider>, open: Option<&CompletionSession>, i: int) -> bool {
    &&& providers[i].supports_completion
    &&& forall|j: int|
        0 <= j < i && (#[trigger] providers[j]).supports_completion ==> providers[j].id
            != providers[i].id
    &&& open matches Some(session) ==> session.marks_incomplete(providers[i].id)
}

/// The request that goes to a provider.
pub open spec fn request_for(
    provider: Provider,
    kind: TriggerKind,
    text: Seq<char>,
    cursor: usize,
) -> RequestModel {
    RequestModel {
        provider: provider.id,
        position: cursor,
        context: context_for(kind, provider.triggers(), text),
    }
}

/// The requests of a dispatch: one for each provider that is asked, in the
/// providers' order.
pub open spec fn planned_requests(
    providers: Seq<Provider>,
    open: Option<&CompletionSession>,
    kind: TriggerKind,
    text: Seq<char>,
    cursor: usize,
) -> Seq<RequestModel>
    decreases providers.len(),
{
    if providers.len() == 0 {
        Seq::empty()
    } else {
        let before = planned_requests(providers.drop_last(), open, kind, text, cursor);
        if is_asked(providers, open, providers.len() - 1) {
            before.push(request_for(providers.last(), kind, text, cursor))
        } else {
            before
        }
    }
}

/// Whether a fired trigger may still be dispatched: the editor is in insert
/// mode, in the trigger's view and document, with the cursor not in front of
/// the trigger's position, and the session on display, if one is open, has a
/// provider left to ask again.
pub open spec fn dispatchable(
    trigger: Trigger,
    editor: EditorState,
    open: Option<&CompletionSession>,
) -> bool {
    &&& editor.is_at(trigger)
    &&& editor.cursor >= trigger.pos
    &&& open matches Some(session) ==> exists|provider: ProviderId|
        session.marks_incomplete(provider)
}

/// Finds the first trigger string that ends the text.
pub fn find_trigger(triggers: &Vec<String>, text: &Vec<char>) -> (found: Option<usize>)
    ensures
        match found {
            Some(i) => i < triggers.len() && first_suffix(
                triggers@.map_values(|s: String| s@),
                text@,
            ) == Some(i as int),
            None => first_suffix(triggers@.map_values(|s: String| s@), text@) is None,
        },
{
    let ghost needles = triggers@.map_values(|s: String| s@);
    let mut i: usize = 0;
    while i < triggers.len()
        invariant
            i <= triggers.len(),
            needles == triggers@.map_values(|s: String| s@),
            first_suffix(needles, text@) == first_suffix_from(needles, text@, i as int),
        decreases triggers.len() - i,
    {
        let needle = chars_of(triggers[i].as_str());
        assert(needle@ == needles[i as int]);
        if ends_with(text, &needle) {
            return Some(i);
        }
        i += 1;
    }
    None
}

/// Builds the context of a request to a provider with the given trigger
/// strings.
pub fn completion_context(kind: TriggerKind, triggers: &Vec<String>, text: &Vec<char>) -> (context:
    CompletionContext)
    ensures
        context@ == context_for(kind, triggers@.map_values(|s: String| s@), text@),
{
    let invoked = CompletionContext {
        trigger_kind: CompletionTriggerKind::Invoked,
        trigger_character: None,
    };
    match kind {
        TriggerKind::Manual => invoked,
        _ => match find_trigger(triggers, text) {
            Some(i) => CompletionContext {
                trigger_kind: CompletionTriggerKind::TriggerCharacter,
                trigger_character: Some(triggers[i].clone()),
            },
            None => invoked,
        },
    }
}

/// Plans the requests of a fired trigger, or abandons it.
///
/// `editor` is the editor as it is now, `open` the session on display, if
/// one is, `providers` the providers associated with the active document and
/// `text_before_cursor` the text that ends at the cursor. The requests are
/// made for the cursor as it is now, not as it was when the trigger was
/// recorded.
pub fn request_completion(
    trigger: Trigger,
    editor: &EditorState,
    open: Option<&CompletionSession>,
    providers: &Vec<Provider>,
    text_before_cursor: &str,
) -> (plan: Option<RequestPlan>)
    ensures
        plan is Some <==> dispatchable(trigger, *editor, open),
        plan matches Some(p) ==> p.trigger == (Trigger { pos: editor.cursor, ..trigger })
            && p.requests_view() == planned_requests(
            providers@,
            open,
            trigger.kind,
            text_before_cursor@,
            editor.cursor,
        ),
{
    broadcast use vstd::std_specs::hash::group_hash_axioms;

    let exhausted = match open {
        Some(session) => !session.has_incomplete(),
        None => false,
    };
    if exhausted || !editor.is_at(trigger) || editor.cursor < trigger.pos {
        return None;
    }
    let cursor = editor.cursor;
    let text = chars_of(text_before_cursor);
    let mut seen: HashSet<ProviderId> = HashSet::new();
    let mut requests: Vec<ProviderRequest> = Vec::new();
    let mut i: usize = 0;
    while i < providers.len()
        invariant
            i <= providers.len(),
            text@ == text_before_cursor@,
            forall|id: ProviderId|
                seen@.contains(id) <==> exists|j: int|
                    0 <= j < i && (#[trigger] providers@[j]).supports_completion
                        && providers@[j].id == id,
            requests@.map_values(|r: ProviderRequest| r@) == planned_requests(
                providers@.take(i as int),
                open,
                trigger.kind,
                text@,
                cursor,
            ),
        decreases providers.len() - i,
    {
        let provider = &providers[i];
        let ghost upto = providers@.take(i + 1);
        let ghost was_seen = seen@.contains(provider.id);
        proof {
            assert(upto.drop_last() == providers@.take(i as int));
            assert(upto.last() == providers@[i as int]);
            assert forall|j: int| 0 <= j <= i implies upto[j] == providers@[j] by {}
            if was_seen {
                let j = choose|j: int|
                    0 <= j < i && (#[trigger] providers@[j]).supports_completion
                        && providers@[j].id == provider.id;
                assert(upto[j].supports_completion && upto[j].id == upto[i as int].id);
            }
        }
        let first = provider.supports_completion && seen.insert(provider.id);
        let asked = first && match open {
            Some(session) => session.is_incomplete(provider.id),
            None => true,
        };
        proof {
            assert(first == (provider.supports_completion && !was_seen));
            assert(asked == is_asked(upto, open, i as int));
            assert forall|id: ProviderId|
                seen@.contains(id) <==> exists|j: int|
                    0 <= j < i + 1 && (#[trigger] providers@[j]).supports_completion
                        && providers@[j].id == id by {
                if provider.supports_completion && id == provider.id {
                    assert(providers@[i as int].supports_completion);
                }
            }
        }
        if asked {
            let ghost before = requests@.map_values(|r: ProviderRequest| r@);
            let request = ProviderRequest {
                provider: provider.id,
                position: cursor,
                context: completion_context(trigger.kind, &provider.trigger_characters, &text),
            };
            requests.push(request);
            assert(requests@.map_values(|r: ProviderRequest| r@) == before.push(request@));
        }
        i += 1;
    }
    assert(providers@.take(i as int) == providers@);
    Some(RequestPlan { trigger: Trigger { pos: cursor, ..trigger }, requests })
}

} // verus!
