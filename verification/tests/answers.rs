use std::collections::HashMap;

use completion_handler::delivery::{show_completion, CompletionSession};
use completion_handler::dispatch::request_completion;
use completion_handler::editor::{EditorState, Mode};
use completion_handler::handler::{CompletionConfig, CompletionHandler};
use completion_handler::merge::{merge, settle, MergedResult};
use completion_handler::provider::Provider;
use completion_handler::response::{
    provider_outcome, provider_result, tag, CompletionDetails, ProviderFailure, ProviderOutcome,
    ProviderResponse, RawItem,
};
use completion_handler::trigger::{CompletionEvent, DocumentId, Trigger, TriggerKind, ViewId};

fn json(text: &str) -> serde_json::Value {
    serde_json::from_str(text).unwrap()
}

fn lsp_item(label: &str) -> lsp_types::CompletionItem {
    lsp_types::CompletionItem::new_simple(label.to_string(), String::new())
}

fn labels(items: &[RawItem]) -> Vec<(String, u64)> {
    items.iter().map(|item| (item.item.label.clone(), item.provider)).collect()
}

fn answer(provider: u64, names: &[&str], is_incomplete: bool) -> ProviderOutcome {
    let items = names.iter().map(|n| lsp_item(n)).collect();
    Ok(provider_result(Some(ProviderResponse::List { is_incomplete, items }), provider))
}

fn editing() -> EditorState {
    EditorState { mode: Mode::Insert, view: ViewId(1), doc: DocumentId(1), cursor: 12 }
}

fn recorded() -> Trigger {
    Trigger { pos: 10, view: ViewId(1), doc: DocumentId(1), kind: TriggerKind::Auto }
}

fn named(pairs: &[(&str, u64)]) -> Vec<(String, u64)> {
    pairs.iter().map(|(l, p)| (l.to_string(), *p)).collect()
}

#[test]
fn tag_marks_every_item() {
    let items = tag(vec![lsp_item("a"), lsp_item("b")], 7);
    assert_eq!(labels(&items), named(&[("a", 7), ("b", 7)]));
    assert!(items.iter().all(|item| !item.resolved));
    assert!(tag(Vec::new(), 7).is_empty());
}

#[test]
fn bare_list_is_complete() {
    let result =
        provider_result(Some(ProviderResponse::Array(vec![lsp_item("a"), lsp_item("b")])), 3)
            .unwrap();
    assert_eq!(result.provider, 3);
    assert_eq!(result.details, CompletionDetails { is_incomplete: false });
    assert_eq!(labels(&result.items), named(&[("a", 3), ("b", 3)]));
}

#[test]
fn list_keeps_its_word_on_completeness() {
    let partial =
        provider_result(Some(ProviderResponse::List { is_incomplete: true, items: vec![lsp_item("a")] }), 3)
            .unwrap();
    assert!(partial.details.is_incomplete);
    let whole =
        provider_result(Some(ProviderResponse::List { is_incomplete: false, items: Vec::new() }), 3)
            .unwrap();
    assert!(!whole.details.is_incomplete);
    assert!(whole.items.is_empty());
}

#[test]
fn no_response_has_no_result() {
    assert!(provider_result(None, 3).is_none());
}

#[test]
fn default_details_are_complete() {
    assert_eq!(CompletionDetails::default(), CompletionDetails { is_incomplete: false });
}

#[test]
fn reply_with_array_decodes() {
    let outcome = provider_outcome(Ok(json(r#"[{"label":"alpha"},{"label":"beta"}]"#)), 4);
    let result = outcome.ok().unwrap().unwrap();
    assert_eq!(result.provider, 4);
    assert!(!result.details.is_incomplete);
    assert_eq!(labels(&result.items), named(&[("alpha", 4), ("beta", 4)]));
    assert!(result.items.iter().all(|item| !item.resolved));
}

#[test]
fn reply_with_list_decodes() {
    let outcome = provider_outcome(
        Ok(json(r#"{"isIncomplete":true,"items":[{"label":"gamma","detail":"fn()"}]}"#)),
        5,
    );
    let result = outcome.ok().unwrap().unwrap();
    assert!(result.details.is_incomplete);
    assert_eq!(labels(&result.items), named(&[("gamma", 5)]));
    assert_eq!(result.items[0].item.detail, Some("fn()".to_string()));
}

#[test]
fn null_reply_is_no_answer() {
    let outcome = provider_outcome(Ok(json("null")), 5);
    assert!(matches!(outcome, Ok(None)));
}

#[test]
fn undecodable_reply_is_a_decode_failure() {
    for text in [r#"{"items":"nope"}"#, "42", r#"[{"nolabel":true}]"#, r#""text""#] {
        let outcome = provider_outcome(Ok(json(text)), 5);
        assert!(matches!(outcome, Err(ProviderFailure::Decode(_))));
    }
}

#[test]
fn transport_failure_is_passed_on() {
    let outcome = provider_outcome(Err(ProviderFailure::Transport("timed out".to_string())), 5);
    match outcome {
        Err(ProviderFailure::Transport(reason)) => assert_eq!(reason, "timed out"),
        _ => panic!("a transport failure stays a transport failure"),
    }
}

#[test]
fn merge_appends_in_arrival_order() {
    let merged = merge(vec![
        answer(2, &["b1", "b2"], false),
        answer(1, &["a1"], true),
        answer(3, &[], false),
        answer(4, &["d1", "d2", "d3"], false),
    ]);
    assert_eq!(
        labels(&merged.items),
        named(&[("b1", 2), ("b2", 2), ("a1", 1), ("d1", 4), ("d2", 4), ("d3", 4)])
    );
    assert_eq!(merged.details.len(), 4);
    assert_eq!(merged.details[&1], CompletionDetails { is_incomplete: true });
    assert_eq!(merged.details[&2], CompletionDetails { is_incomplete: false });
    assert_eq!(merged.details[&3], CompletionDetails { is_incomplete: false });
}

#[test]
fn merge_keeps_each_providers_order() {
    let forward = merge(vec![answer(1, &["x", "y", "z"], false), answer(2, &["p", "q"], false)]);
    let backward = merge(vec![answer(2, &["p", "q"], false), answer(1, &["x", "y", "z"], false)]);
    for merged in [forward, backward] {
        let of_one: Vec<String> = merged
            .items
            .iter()
            .filter(|item| item.provider == 1)
            .map(|item| item.item.label.clone())
            .collect();
        let of_two: Vec<String> = merged
            .items
            .iter()
            .filter(|item| item.provider == 2)
            .map(|item| item.item.label.clone())
            .collect();
        assert_eq!(of_one, vec!["x", "y", "z"]);
        assert_eq!(of_two, vec!["p", "q"]);
    }
}

#[test]
fn failures_and_silence_contribute_nothing() {
    let merged = merge(vec![
        Err(ProviderFailure::Transport("gone".to_string())),
        answer(1, &["a"], false),
        Ok(None),
        provider_outcome(Ok(json("17")), 2),
    ]);
    assert_eq!(labels(&merged.items), named(&[("a", 1)]));
    assert_eq!(merged.details.len(), 1);
    assert!(merged.details.contains_key(&1));
}

#[test]
fn merge_of_nothing_is_empty() {
    let merged = merge(Vec::new());
    assert!(merged.items.is_empty());
    assert!(merged.details.is_empty());
    let fresh = MergedResult::new();
    assert!(fresh.items.is_empty() && fresh.details.is_empty());
    let default = MergedResult::default();
    assert!(default.items.is_empty() && default.details.is_empty());
}

#[test]
fn absorb_merges_one_outcome_at_a_time() {
    let mut merged = MergedResult::new();
    merged.absorb(answer(1, &["a"], true));
    merged.absorb(Ok(None));
    merged.absorb(answer(1, &["b"], false));
    assert_eq!(labels(&merged.items), named(&[("a", 1), ("b", 1)]));
    assert_eq!(merged.details[&1], CompletionDetails { is_incomplete: false });
}

#[test]
fn cancelled_request_delivers_nothing() {
    assert!(settle(None).is_none());
}

#[test]
fn request_without_items_delivers_nothing() {
    assert!(settle(Some(merge(vec![answer(1, &[], true)]))).is_none());
    assert!(settle(Some(MergedResult::new())).is_none());
}

#[test]
fn settled_request_delivers_what_was_merged() {
    let ready = settle(Some(merge(vec![answer(1, &["a", "b"], true)]))).unwrap();
    assert_eq!(labels(&ready.items), named(&[("a", 1), ("b", 1)]));
    assert!(ready.details[&1].is_incomplete);
}

#[test]
fn cancel_during_flight_suppresses_delivery() {
    let cfg =
        CompletionConfig { auto_completion: true, completion_trigger_len: 2, completion_timeout: 250 };
    let mut handler = CompletionHandler::new();
    handler.handle_event(
        CompletionEvent::AutoTrigger { cursor: 10, doc: DocumentId(1), view: ViewId(1) },
        &cfg,
    );
    let mut dispatch = handler.finish_debounce();
    handler.handle_event(CompletionEvent::Cancel, &cfg);
    let late = merge(vec![answer(1, &["a", "b"], false)]);
    let raced = match dispatch.cancel.try_recv() {
        Err(tokio::sync::oneshot::error::TryRecvError::Empty) => Some(late),
        _ => None,
    };
    assert!(settle(raced).is_none());
}

#[test]
fn delivery_suppressed_when_stale() {
    let merged = || merge(vec![answer(1, &["a"], false)]);
    let trigger = recorded();
    let normal = EditorState { mode: Mode::Normal, ..editing() };
    let select = EditorState { mode: Mode::Select, ..editing() };
    let other_view = EditorState { view: ViewId(2), ..editing() };
    let other_doc = EditorState { doc: DocumentId(2), ..editing() };
    for editor in [normal, select, other_view, other_doc] {
        let m = merged();
        assert!(show_completion(&editor, None, m.items, m.details, trigger).is_none());
    }
}

#[test]
fn delivery_of_no_items_is_a_no_op() {
    let shown = show_completion(&editing(), None, Vec::new(), HashMap::new(), recorded());
    assert!(shown.is_none());
}

#[test]
fn first_delivery_anchors_at_the_trigger() {
    let m = merge(vec![answer(1, &["a", "b"], true)]);
    let shown = show_completion(&editing(), None, m.items, m.details, recorded()).unwrap();
    assert_eq!(labels(&shown.items), named(&[("a", 1), ("b", 1)]));
    assert_eq!(shown.trigger_offset, 10);
    assert!(shown.is_incomplete(1));
    assert!(shown.has_incomplete());
}

#[test]
fn delivery_with_moved_cursor_still_shows() {
    let m = merge(vec![answer(1, &["a"], false)]);
    let editor = EditorState { cursor: 99, ..editing() };
    assert!(show_completion(&editor, None, m.items, m.details, recorded()).is_some());
}

#[test]
fn later_delivery_keeps_complete_providers_items() {
    let first = merge(vec![answer(1, &["a1", "a2", "a3"], false), answer(2, &["b1", "b2"], true)]);
    let open = show_completion(&editing(), None, first.items, first.details, recorded()).unwrap();
    let second = merge(vec![answer(2, &["b3"], true)]);
    let later = Trigger { pos: 12, ..recorded() };
    let shown =
        show_completion(&editing(), Some(&open), second.items, second.details, later).unwrap();
    assert_eq!(labels(&shown.items), named(&[("a1", 1), ("a2", 1), ("a3", 1), ("b3", 2)]));
    assert_eq!(shown.trigger_offset, 10);
    assert_eq!(shown.details.len(), 1);
    assert!(shown.is_incomplete(2));
    assert!(!shown.is_incomplete(1));
    assert_eq!(labels(&open.items).len(), 5);
}

#[test]
fn complete_items_keep_order_and_content() {
    let mut details = HashMap::new();
    details.insert(2, CompletionDetails { is_incomplete: true });
    details.insert(3, CompletionDetails { is_incomplete: false });
    let mut item = lsp_item("kept");
    item.detail = Some("detail".to_string());
    let session = CompletionSession {
        items: vec![
            RawItem { item: lsp_item("x"), provider: 2, resolved: false },
            RawItem { item, provider: 1, resolved: true },
            RawItem { item: lsp_item("y"), provider: 3, resolved: false },
            RawItem { item: lsp_item("z"), provider: 2, resolved: false },
        ],
        details,
        trigger_offset: 4,
    };
    let kept = session.complete_items();
    assert_eq!(labels(&kept), named(&[("kept", 1), ("y", 3)]));
    assert_eq!(kept[0].item.detail, Some("detail".to_string()));
    assert!(kept[0].resolved);
    assert!(!kept[1].resolved);
    assert!(session.has_incomplete());
    assert!(session.is_incomplete(2));
    assert!(!session.is_incomplete(3));
    assert!(!session.is_incomplete(1));
}

#[test]
fn session_without_partial_answers() {
    let mut details = HashMap::new();
    details.insert(3, CompletionDetails { is_incomplete: false });
    let session = CompletionSession { items: Vec::new(), details, trigger_offset: 0 };
    assert!(!session.has_incomplete());
    let empty = CompletionSession { items: Vec::new(), details: HashMap::new(), trigger_offset: 0 };
    assert!(!empty.has_incomplete());
}

#[test]
fn fast_complete_and_slow_incomplete_provider() {
    let a = provider_outcome(Ok(json(r#"[{"label":"a1"},{"label":"a2"},{"label":"a3"}]"#)), 1);
    let b = provider_outcome(
        Ok(json(r#"{"isIncomplete":true,"items":[{"label":"b1"},{"label":"b2"}]}"#)),
        2,
    );
    let merged = settle(Some(merge(vec![a, b]))).unwrap();
    assert_eq!(merged.items.len(), 5);
    assert_eq!(
        labels(&merged.items),
        named(&[("a1", 1), ("a2", 1), ("a3", 1), ("b1", 2), ("b2", 2)])
    );
    assert_eq!(merged.details.len(), 2);
    assert_eq!(merged.details[&1], CompletionDetails { is_incomplete: false });
    assert_eq!(merged.details[&2], CompletionDetails { is_incomplete: true });

    let open = show_completion(&editing(), None, merged.items, merged.details, recorded()).unwrap();
    let providers = vec![
        Provider { id: 1, supports_completion: true, trigger_characters: Vec::new() },
        Provider { id: 2, supports_completion: true, trigger_characters: Vec::new() },
    ];
    let plan = request_completion(recorded(), &editing(), Some(&open), &providers, "some text be")
        .unwrap();
    let asked: Vec<u64> = plan.requests.iter().map(|r| r.provider).collect();
    assert_eq!(asked, vec![2]);
}
