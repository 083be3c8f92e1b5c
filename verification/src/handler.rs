//! The debounce scheduler's state and its reaction to events.
//!
//! The handler holds at most one pending trigger and at most one token of a
//! request in flight. Every event is turned into a new state and an
//! [`Outcome`] that tells the event loop what to wait for or to dispatch.

use vstd::prelude::*;

use crate::cancel::{cancelation, is_closed, CancelRx, CancelTx};
use crate::trigger::{CompletionEvent, DocumentId, Trigger, TriggerKind, ViewId};

verus! {

/// Debounce, in milliseconds, of a trigger character and of a request that
/// replaces one still in flight: enough to coalesce a burst of events.
pub const RESTART_DEBOUNCE_MS: u64 = 5;

/// The editor settings that completion reads.
#[derive(Debug, Clone, Copy, PartialEq, Eq, Structural)]
pub struct CompletionConfig {
    /// Whether typing asks for completions at all.
    pub auto_completion: bool,
    /// How many characters before the cursor must belong to a word for typing
    /// to ask for completions.
    pub completion_trigger_len: u8,
    /// Debounce of an automatic trigger, in milliseconds.
    pub completion_timeout: u64,
}

/// What the handler holds, as seen by contracts.
pub struct HandlerState {
    /// The trigger that fires when the debounce deadline elapses.
    pub trigger: Option<Trigger>,
    /// Whether the token of a dispatched request is held.
    pub request: bool,
}

impl HandlerState {
    /// Nothing pending and nothing in flight.
    pub open spec fn idle() -> HandlerState {
        HandlerState { trigger: None, request: false }
    }

    /// A trigger is never pending while a request token is held: arming a
    /// trigger gives the token up, and dispatching consumes the trigger.
    pub open spec fn wf(self) -> bool {
        !(self.trigger is Some && self.request)
    }
}

/// The state once the event itself has been taken in, before any debounce is
/// armed or any request dispatched.
pub open spec fn absorbed(s: HandlerState, event: CompletionEvent) -> HandlerState {
    match event {
        CompletionEvent::AutoTrigger { cursor, doc, view } => {
            if s.trigger matches Some(t) && t.doc == doc && t.view == view {
                s
            } else {
                HandlerState { trigger: event.requested(), request: s.request }
            }
        },
        CompletionEvent::TriggerChar { .. } => HandlerState {
            trigger: event.requested(),
            request: false,
        },
        CompletionEvent::ManualTrigger { .. } => HandlerState {
            trigger: event.requested(),
            request: false,
        },
        CompletionEvent::Cancel => HandlerState::idle(),
        CompletionEvent::DeleteText { cursor } => {
            if s.trigger matches Some(t) && cursor < t.pos {
                HandlerState::idle()
            } else {
                s
            }
        },
    }
}

/// The state after a dispatch: the trigger is consumed and a fresh token held.
pub open spec fn dispatched() -> HandlerState {
    HandlerState { trigger: None, request: true }
}

/// The state in which an event leaves the handler.
pub open spec fn next_state(s: HandlerState, event: CompletionEvent) -> HandlerState {
    let a = absorbed(s, event);
    match event {
        CompletionEvent::ManualTrigger { .. } => dispatched(),
        CompletionEvent::DeleteText { .. } => a,
        _ => if a.trigger is Some {
            HandlerState { trigger: a.trigger, request: false }
        } else {
            a
        },
    }
}

/// How long a trigger of the given kind is debounced. `restart` says that the
/// new trigger cancelled a request that was still open.
pub open spec fn spec_debounce_timeout(
    kind: TriggerKind,
    restart: bool,
    config: CompletionConfig,
) -> u64 {
    if kind == TriggerKind::Auto && !restart {
        config.completion_timeout
    } else {
        RESTART_DEBOUNCE_MS
    }
}

/// What the event loop is told after an event, as seen by contracts.
pub enum Reaction {
    /// Nothing is pending: there is no deadline.
    Idle,
    /// The pending trigger and its deadline stay as they are.
    Unchanged,
    /// The pending trigger fires `timeout_ms` milliseconds from now.
    Debounce { timeout_ms: u64 },
    /// The trigger fires at once.
    Dispatch { trigger: Trigger },
}

/// The reaction to an event. `open` says whether the token that the handler
/// held, if any, belonged to a request that was still running.
pub open spec fn reaction(
    s: HandlerState,
    event: CompletionEvent,
    open: bool,
    config: CompletionConfig,
) -> Reaction {
    let a = absorbed(s, event);
    match event {
        CompletionEvent::ManualTrigger { .. } => Reaction::Dispatch { trigger: a.trigger->0 },
        CompletionEvent::DeleteText { .. } => if a.trigger is Some {
            Reaction::Unchanged
        } else {
            Reaction::Idle
        },
        _ => match a.trigger {
            Some(t) => Reaction::Debounce {
                timeout_ms: spec_debounce_timeout(t.kind, a.request && open, config),
            },
            None => Reaction::Idle,
        },
    }
}

/// A trigger on its way to the providers, with the receiving half of the
/// token that cancels it.
pub struct Dispatch {
    pub trigger: Trigger,
    pub cancel: CancelRx,
}

/// What the event loop is told after an event.
pub enum Outcome {
    /// Nothing is pending: there is no deadline.
    Idle,
    /// The pending trigger and its deadline stay as they are.
    Unchanged,
    /// The pending trigger fires `timeout_ms` milliseconds from now.
    Debounce { timeout_ms: u64 },
    /// The trigger fires at once.
    Dispatch(Dispatch),
}

/// The reaction that an outcome stands for. The receiving half of a
/// dispatch's token is opaque and is left out.
impl View for Outcome {
    type V = Reaction;

    open spec fn view(&self) -> Reaction {
        match *self {
            Outcome::Idle => Reaction::Idle,
            Outcome::Unchanged => Reaction::Unchanged,
            Outcome::Debounce { timeout_ms } => Reaction::Debounce { timeout_ms },
            Outcome::Dispatch(d) => Reaction::Dispatch { trigger: d.trigger },
        }
    }
}

/// Computes the debounce of a trigger of the given kind. `restart` says that
/// the trigger cancelled a request that was still open.
pub fn debounce_timeout(kind: TriggerKind, restart: bool, config: &CompletionConfig) -> (timeout_ms:
    u64)
    ensures
        timeout_ms == spec_debounce_timeout(kind, restart, *config),
{
    match kind {
        TriggerKind::Auto => if restart {
            RESTART_DEBOUNCE_MS
        } else {
            config.completion_timeout
        },
        _ => RESTART_DEBOUNCE_MS,
    }
}

/// The state of the debounce scheduler.
pub struct CompletionHandler {
    /// The trigger that causes a request once the debounce deadline elapses.
    trigger: Option<Trigger>,
    /// The token of the request in flight. Dropping it aborts the request.
    request: Option<CancelTx>,
}

impl View for CompletionHandler {
    type V = HandlerState;

    closed spec fn view(&self) -> HandlerState {
        HandlerState { trigger: self.trigger, request: self.request is Some }
    }
}

impl CompletionHandler {
    /// A handler with nothing pending and nothing in flight.
    pub fn new() -> (handler: CompletionHandler)
        ensures
            handler@ == HandlerState::idle(),
    {
        CompletionHandler { trigger: None, request: None }
    }

    /// Takes in the event itself: arms, replaces or clears the pending
    /// trigger, and gives up the token where the event cancels the request.
    fn absorb(&mut self, event: CompletionEvent)
        ensures
            final(self)@ == absorbed(old(self)@, event),
    {
        match event {
            CompletionEvent::AutoTrigger { cursor, doc, view } => {
                let same_place = match self.trigger {
                    Some(t) => t.doc == doc && t.view == view,
                    None => false,
                };
                if !same_place {
                    self.trigger = Some(Trigger { pos: cursor, view, doc, kind: TriggerKind::Auto });
                }
            },
            CompletionEvent::TriggerChar { cursor, doc, view } => {
                self.request = None;
                self.trigger = Some(
                    Trigger { pos: cursor, view, doc, kind: TriggerKind::TriggerChar },
                );
            },
            CompletionEvent::ManualTrigger { cursor, doc, view } => {
                self.request = None;
                self.trigger = Some(Trigger { pos: cursor, view, doc, kind: TriggerKind::Manual });
            },
            CompletionEvent::Cancel => {
                self.trigger = None;
                self.request = None;
            },
            CompletionEvent::DeleteText { cursor } => {
                let deleted = match self.trigger {
                    Some(t) => cursor < t.pos,
                    None => false,
                };
                if deleted {
                    self.trigger = None;
                    self.request = None;
                }
            },
        }
    }

    /// Reacts to one event.
    ///
    /// The new state depends on the old state and the event alone. The
    /// debounce of an automatic trigger also depends on whether the request
    /// that it replaces was still running, which only the token can tell: the
    /// outcome is the reaction for one of the two answers.
    pub fn handle_event(&mut self, event: CompletionEvent, config: &CompletionConfig) -> (outcome:
        Outcome)
        ensures
            final(self)@ == next_state(old(self)@, event),
            outcome@ == reaction(old(self)@, event, false, *config) || outcome@ == reaction(
                old(self)@,
                event,
                true,
                *config,
            ),
            old(self)@.wf() ==> final(self)@.wf(),
    {
        self.absorb(event);
        match event {
            CompletionEvent::ManualTrigger { .. } => Outcome::Dispatch(self.finish_debounce()),
            CompletionEvent::DeleteText { .. } => {
                if self.trigger.is_some() {
                    Outcome::Unchanged
                } else {
                    Outcome::Idle
                }
            },
            _ => match self.trigger {
                Some(trigger) => {
                    let restart = match self.request.take() {
                        Some(request) => !is_closed(&request),
                        None => false,
                    };
                    Outcome::Debounce { timeout_ms: debounce_timeout(trigger.kind, restart, config) }
                },
                None => Outcome::Idle,
            },
        }
    }

    /// Fires the pending trigger: consumes it, replaces the token by a fresh
    /// one, and hands out the trigger with the token's receiving half.
    pub fn finish_debounce(&mut self) -> (dispatch: Dispatch)
        requires
            old(self)@.trigger is Some,
        ensures
            dispatch.trigger == old(self)@.trigger->0,
            final(self)@ == dispatched(),
    {
        let trigger = self.trigger.take().unwrap();
        let (tx, rx) = cancelation();
        self.request = Some(tx);
        Dispatch { trigger, cancel: rx }
    }

    /// The trigger that is waiting for its deadline.
    pub fn pending(&self) -> (trigger: Option<Trigger>)
        ensures
            trigger == self@.trigger,
    {
        self.trigger
    }

    /// Whether the token of a dispatched request is held.
    pub fn has_request(&self) -> (held: bool)
        ensures
            held == self@.request,
    {
        self.request.is_some()
    }
}

/// The state after a sequence of events, taken in their order of arrival.
pub open spec fn run(s: HandlerState, events: Seq<CompletionEvent>) -> HandlerState
    decreases events.len(),
{
    if events.len() == 0 {
        s
    } else {
        next_state(run(s, events.drop_last()), events.last())
    }
}

/// No event leads from a state in which trigger and token exclude each other
/// to one in which both are held.
pub proof fn lemma_next_state_wf(s: HandlerState, event: CompletionEvent)
    requires
        s.wf(),
    ensures
        next_state(s, event).wf(),
{
}

/// Trigger and token exclude each other in every state that a sequence of
/// events reaches from a state with that property; a dispatch keeps it too.
pub proof fn lemma_run_wf(s: HandlerState, events: Seq<CompletionEvent>)
    requires
        s.wf(),
    ensures
        run(s, events).wf(),
        dispatched().wf(),
        HandlerState::idle().wf(),
    decreases events.len(),
{
    if events.len() > 0 {
        lemma_run_wf(s, events.drop_last());
        lemma_next_state_wf(run(s, events.drop_last()), events.last());
    }
}

/// A trigger character and a manual trigger give up the token of the request
/// in flight before their own trigger is armed, whatever the state was. The
/// trigger character is then debounced for the short delay; the manual
/// trigger is dispatched at once, under a fresh token.
pub proof fn lemma_trigger_cancels_before_arming(
    s: HandlerState,
    event: CompletionEvent,
    open: bool,
    config: CompletionConfig,
)
    requires
        event is TriggerChar || event is ManualTrigger,
    ensures
        absorbed(s, event) == (HandlerState { trigger: event.requested(), request: false }),
        event is TriggerChar ==> next_state(s, event) == absorbed(s, event) && reaction(
            s,
            event,
            open,
            config,
        ) == (Reaction::Debounce { timeout_ms: RESTART_DEBOUNCE_MS }),
        event is ManualTrigger ==> next_state(s, event) == dispatched() && reaction(
            s,
            event,
            open,
            config,
        ) == (Reaction::Dispatch { trigger: event.requested()->0 }),
{
}

/// Deleting text in front of the pending trigger's position clears the
/// trigger and gives up the token. Any other deletion changes nothing: not the
/// pending trigger, not the token, not the deadline.
pub proof fn lemma_delete_text(s: HandlerState, cursor: usize, open: bool, config: CompletionConfig)
    ensures
        (s.trigger matches Some(t) && cursor < t.pos) ==> next_state(
            s,
            CompletionEvent::DeleteText { cursor },
        ) == HandlerState::idle() && reaction(s, CompletionEvent::DeleteText { cursor }, open, config)
            == Reaction::Idle,
        (s.trigger matches Some(t) && cursor >= t.pos) ==> next_state(
            s,
            CompletionEvent::DeleteText { cursor },
        ) == s && reaction(s, CompletionEvent::DeleteText { cursor }, open, config)
            == Reaction::Unchanged,
        s.trigger is None ==> next_state(s, CompletionEvent::DeleteText { cursor }) == s
            && reaction(s, CompletionEvent::DeleteText { cursor }, open, config) == Reaction::Idle,
{
}

/// A run of automatic triggers for one document and view leaves exactly the
/// state that its first event left: one trigger is pending, for that document
/// and view, and no token is held. Every event of the run only re-arms the
/// debounce, so nothing is dispatched before the deadline of the last one
/// elapses, and then the one pending trigger is.
pub proof fn lemma_auto_triggers_coalesce(
    s: HandlerState,
    events: Seq<CompletionEvent>,
    doc: DocumentId,
    view: ViewId,
    open: bool,
    config: CompletionConfig,
)
    requires
        events.len() > 0,
        forall|i: int| 0 <= i < events.len() ==> (#[trigger] events[i]).is_auto_for(doc, view),
    ensures
        run(s, events) == next_state(s, events[0]),
        run(s, events).trigger matches Some(t) && t.doc == doc && t.view == view,
        !run(s, events).request,
        reaction(run(s, events.drop_last()), events.last(), open, config) is Debounce,
        events.len() > 1 ==> reaction(run(s, events.drop_last()), events.last(), open, config) == (
        Reaction::Debounce {
            timeout_ms: spec_debounce_timeout(run(s, events).trigger->0.kind, false, config),
        }),
    decreases events.len(),
{
    let first = events[0];
    assert(first.is_auto_for(doc, view));
    assert(events.last().is_auto_for(doc, view));
    if events.len() == 1 {
        assert(events.drop_last().len() == 0);
        assert(run(s, events.drop_last()) == s);
    } else {
        let init = events.drop_last();
        assert(init[0] == events[0]);
        assert forall|i: int| 0 <= i < init.len() implies (#[trigger] init[i]).is_auto_for(
            doc,
            view,
        ) by {
            assert(init[i] == events[i]);
        }
        lemma_auto_triggers_coalesce(s, init, doc, view, open, config);
    }
}

/// Of a run of automatic triggers for one document and view, the most recent
/// one is what fires, after the configured timeout where the run has more
/// than one event. This is stated for the runs whose first event arms a
/// trigger at the cursor offset of the last: a later automatic trigger for
/// the same document and view does not move a pending trigger.
pub proof fn lemma_latest_auto_trigger_fires(
    s: HandlerState,
    events: Seq<CompletionEvent>,
    doc: DocumentId,
    view: ViewId,
    open: bool,
    config: CompletionConfig,
)
    requires
        events.len() > 0,
        forall|i: int| 0 <= i < events.len() ==> (#[trigger] events[i]).is_auto_for(doc, view),
        next_state(s, events[0]).trigger == events.last().requested(),
    ensures
        run(s, events) == (HandlerState { trigger: events.last().requested(), request: false }),
        events.len() > 1 ==> reaction(run(s, events.drop_last()), events.last(), open, config) == (
        Reaction::Debounce { timeout_ms: config.completion_timeout }),
{
    lemma_auto_triggers_coalesce(s, events, doc, view, open, config);
    assert(events.last().is_auto_for(doc, view));
}

} // verus!
