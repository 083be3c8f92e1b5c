use std::collections::HashMap;

use completion_handler::delivery::CompletionSession;
use completion_handler::dispatch::{
    completion_context, find_trigger, request_completion, CompletionTriggerKind,
};
use completion_handler::editor::{EditorState, Mode};
use completion_handler::provider::Provider;
use completion_handler::response::CompletionDetails;
use completion_handler::trigger::{DocumentId, Trigger, TriggerKind, ViewId};

fn insert_at(cursor: usize) -> EditorState {
    EditorState { mode: Mode::Insert, view: ViewId(1), doc: DocumentId(1), cursor }
}

fn fired(pos: usize, kind: TriggerKind) -> Trigger {
    Trigger { pos, view: ViewId(1), doc: DocumentId(1), kind }
}

fn provider(id: u64, triggers: &[&str]) -> Provider {
    Provider {
        id,
        supports_completion: true,
        trigger_characters: triggers.iter().map(|t| t.to_string()).collect(),
    }
}

fn session_with(flags: &[(u64, bool)]) -> CompletionSession {
    let mut details = HashMap::new();
    for (id, is_incomplete) in flags {
        details.insert(*id, CompletionDetails { is_incomplete: *is_incomplete });
    }
    CompletionSession { items: Vec::new(), details, trigger_offset: 0 }
}

fn asked(plan: &completion_handler::dispatch::RequestPlan) -> Vec<u64> {
    plan.requests.iter().map(|r| r.provider).collect()
}

#[test]
fn dispatch_abandoned_outside_insert_mode() {
    let providers = vec![provider(1, &[])];
    for mode in [Mode::Normal, Mode::Select] {
        let editor = EditorState { mode, view: ViewId(1), doc: DocumentId(1), cursor: 4 };
        let plan = request_completion(fired(4, TriggerKind::Auto), &editor, None, &providers, "text");
        assert!(plan.is_none());
    }
}

#[test]
fn dispatch_abandoned_in_other_view_or_document() {
    let providers = vec![provider(1, &[])];
    let other_view =
        EditorState { mode: Mode::Insert, view: ViewId(2), doc: DocumentId(1), cursor: 4 };
    let other_doc =
        EditorState { mode: Mode::Insert, view: ViewId(1), doc: DocumentId(2), cursor: 4 };
    let trigger = fired(4, TriggerKind::Manual);
    assert!(request_completion(trigger, &other_view, None, &providers, "text").is_none());
    assert!(request_completion(trigger, &other_doc, None, &providers, "text").is_none());
}

#[test]
fn dispatch_abandoned_with_cursor_before_trigger() {
    let providers = vec![provider(1, &[])];
    let plan =
        request_completion(fired(5, TriggerKind::Auto), &insert_at(4), None, &providers, "text");
    assert!(plan.is_none());
}

#[test]
fn dispatch_uses_the_live_cursor() {
    let providers = vec![provider(1, &[]), provider(2, &[])];
    let plan = request_completion(
        fired(4, TriggerKind::Auto),
        &insert_at(7),
        None,
        &providers,
        "text is",
    )
    .unwrap();
    assert_eq!(plan.trigger, fired(7, TriggerKind::Auto));
    assert_eq!(plan.requests.len(), 2);
    assert!(plan.requests.iter().all(|r| r.position == 7));
}

#[test]
fn dispatch_at_trigger_position_goes_ahead() {
    let providers = vec![provider(1, &[])];
    let plan =
        request_completion(fired(4, TriggerKind::Auto), &insert_at(4), None, &providers, "text")
            .unwrap();
    assert_eq!(plan.trigger, fired(4, TriggerKind::Auto));
    assert_eq!(asked(&plan), vec![1]);
}

#[test]
fn dispatch_without_providers_plans_no_request() {
    let providers = Vec::new();
    let plan =
        request_completion(fired(4, TriggerKind::Auto), &insert_at(4), None, &providers, "text")
            .unwrap();
    assert!(plan.requests.is_empty());
}

#[test]
fn providers_are_asked_once_in_their_order() {
    let providers =
        vec![provider(3, &[]), provider(1, &[]), provider(3, &["."]), provider(2, &[]), provider(1, &[])];
    let plan =
        request_completion(fired(0, TriggerKind::Auto), &insert_at(4), None, &providers, "foo.")
            .unwrap();
    assert_eq!(asked(&plan), vec![3, 1, 2]);
    assert_eq!(plan.requests[0].context.trigger_kind, CompletionTriggerKind::Invoked);
}

#[test]
fn providers_without_completion_support_are_skipped() {
    let mut silent = provider(1, &["."]);
    silent.supports_completion = false;
    let providers = vec![silent, provider(2, &[]), provider(1, &[])];
    let plan =
        request_completion(fired(0, TriggerKind::Auto), &insert_at(4), None, &providers, "foo.")
            .unwrap();
    assert_eq!(asked(&plan), vec![2, 1]);
}

#[test]
fn open_session_restricts_to_incomplete_providers() {
    let providers = vec![provider(1, &[]), provider(2, &[]), provider(3, &[])];
    let session = session_with(&[(1, false), (2, true)]);
    let plan = request_completion(
        fired(0, TriggerKind::Auto),
        &insert_at(4),
        Some(&session),
        &providers,
        "text",
    )
    .unwrap();
    assert_eq!(asked(&plan), vec![2]);
}

#[test]
fn open_session_without_incomplete_provider_abandons() {
    let providers = vec![provider(1, &[]), provider(2, &[])];
    let complete = session_with(&[(1, false), (2, false)]);
    let empty = session_with(&[]);
    let trigger = fired(0, TriggerKind::Manual);
    assert!(request_completion(trigger, &insert_at(4), Some(&complete), &providers, "t").is_none());
    assert!(request_completion(trigger, &insert_at(4), Some(&empty), &providers, "t").is_none());
}

#[test]
fn incomplete_provider_that_is_gone_plans_no_request() {
    let providers = vec![provider(1, &[])];
    let session = session_with(&[(9, true)]);
    let plan = request_completion(
        fired(0, TriggerKind::Auto),
        &insert_at(4),
        Some(&session),
        &providers,
        "text",
    )
    .unwrap();
    assert!(plan.requests.is_empty());
}

#[test]
fn manual_trigger_invokes() {
    let providers = vec![provider(1, &["."])];
    let plan =
        request_completion(fired(0, TriggerKind::Manual), &insert_at(4), None, &providers, "foo.")
            .unwrap();
    assert_eq!(plan.requests[0].context.trigger_kind, CompletionTriggerKind::Invoked);
    assert_eq!(plan.requests[0].context.trigger_character, None);
}

#[test]
fn context_names_the_typed_trigger_per_provider() {
    let providers = vec![provider(1, &[".", "::"]), provider(2, &[":"]), provider(3, &["("])];
    let plan =
        request_completion(fired(0, TriggerKind::Auto), &insert_at(5), None, &providers, "foo::")
            .unwrap();
    let contexts: Vec<(CompletionTriggerKind, Option<String>)> = plan
        .requests
        .into_iter()
        .map(|r| (r.context.trigger_kind, r.context.trigger_character))
        .collect();
    assert_eq!(
        contexts,
        vec![
            (CompletionTriggerKind::TriggerCharacter, Some("::".to_string())),
            (CompletionTriggerKind::TriggerCharacter, Some(":".to_string())),
            (CompletionTriggerKind::Invoked, None),
        ]
    );
}

#[test]
fn first_matching_trigger_wins() {
    let triggers = vec![">".to_string(), "->".to_string(), "".to_string()];
    let text: Vec<char> = "x->".chars().collect();
    assert_eq!(find_trigger(&triggers, &text), Some(0));
    let dot: Vec<char> = "x.".chars().collect();
    assert_eq!(find_trigger(&triggers, &dot), Some(2));
    let none = vec!["(".to_string()];
    assert_eq!(find_trigger(&none, &dot), None);
    assert_eq!(find_trigger(&Vec::new(), &dot), None);
}

#[test]
fn context_of_trigger_char_kind() {
    let triggers = vec![".".to_string()];
    let text: Vec<char> = "foo.".chars().collect();
    let typed = completion_context(TriggerKind::TriggerChar, &triggers, &text);
    assert_eq!(typed.trigger_kind, CompletionTriggerKind::TriggerCharacter);
    assert_eq!(typed.trigger_character, Some(".".to_string()));
    let word: Vec<char> = "foo".chars().collect();
    let invoked = completion_context(TriggerKind::TriggerChar, &triggers, &word);
    assert_eq!(invoked.trigger_kind, CompletionTriggerKind::Invoked);
    assert_eq!(invoked.trigger_character, None);
}
