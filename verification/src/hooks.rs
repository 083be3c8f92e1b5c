//! What the editor's notifications mean for completion.
//!
//! The editor reports commands, mode switches and typed characters. The
//! functions here turn each report into what is to be done about it; the
//! editor then does it.

use vstd::prelude::*;

use crate::delivery::CompletionSession;
use crate::dispatch::find_trigger;
use crate::editor::{EditorState, Mode};
use crate::handler::CompletionConfig;
use crate::provider::Provider;
use crate::text::{chars_of, ends_in_word, first_suffix, tail_is_word};
use crate::trigger::CompletionEvent;

verus! {

/// What a notification asks the editor to do.
#[derive(Debug, Clone, Copy, PartialEq, Eq, Structural)]
pub enum HookAction {
    Nothing,
    /// Update the completions on display for the typed character, or for a
    /// deleted one where there is none.
    UpdateCompletions(Option<char>),
    /// Close the completions on display.
    ClearCompletions,
    /// Send the event to the debounce scheduler.
    Send(CompletionEvent),
    /// Send a cancel event to the scheduler and close the completions on
    /// display.
    CancelAndClear,
    /// Find out whether the text at the cursor triggers a completion.
    TriggerAutoCompletion,
}

/// The commands that completion tells apart.
#[derive(Debug, Clone, Copy, PartialEq, Eq, Structural)]
pub enum CommandKind {
    /// `delete_char_backward`
    DeleteBackward,
    /// `delete_word_forward` and `delete_char_forward`
    DeleteForward,
    /// `completion`
    Completion,
    /// `insert_mode` and `append_mode`
    EnterInsert,
    /// Any other command.
    Other,
}

/// The kind of the command with the given name. A command without a name
/// (a typed command, a macro) is like any other.
pub open spec fn command_kind(name: Option<Seq<char>>) -> CommandKind {
    match name {
        None => CommandKind::Other,
        Some(n) => if n == "delete_char_backward"@ {
            CommandKind::DeleteBackward
        } else if n == "delete_word_forward"@ || n == "delete_char_forward"@ {
            CommandKind::DeleteForward
        } else if n == "completion"@ {
            CommandKind::Completion
        } else if n == "insert_mode"@ || n == "append_mode"@ {
            CommandKind::EnterInsert
        } else {
            CommandKind::Other
        },
    }
}

/// What follows a command of the given kind.
///
/// Outside insert mode, nothing. While a completion is being applied,
/// deleting backward updates the display, deleting forward and the
/// completion command leave it alone, and anything else closes it.
/// Otherwise a deletion is reported to the scheduler with the cursor offset,
/// the commands that are handled elsewhere are passed over, and anything
/// else cancels.
pub open spec fn after_command(
    mode: Mode,
    completion_active: bool,
    kind: CommandKind,
    cursor: usize,
) -> HookAction {
    if mode != Mode::Insert {
        HookAction::Nothing
    } else if completion_active {
        match kind {
            CommandKind::DeleteForward | CommandKind::Completion => HookAction::Nothing,
            CommandKind::DeleteBackward => HookAction::UpdateCompletions(None),
            _ => HookAction::ClearCompletions,
        }
    } else {
        match kind {
            CommandKind::DeleteBackward | CommandKind::DeleteForward => HookAction::Send(
                CompletionEvent::DeleteText { cursor },
            ),
            CommandKind::Completion | CommandKind::EnterInsert => HookAction::Nothing,
            CommandKind::Other => HookAction::Send(CompletionEvent::Cancel),
        }
    }
}

/// What follows a switch of mode: leaving insert mode cancels and closes,
/// entering it looks for a trigger.
pub open spec fn after_mode_switch(old_mode: Mode, new_mode: Mode) -> HookAction {
    if old_mode == Mode::Insert {
        HookAction::CancelAndClear
    } else if new_mode == Mode::Insert {
        HookAction::TriggerAutoCompletion
    } else {
        HookAction::Nothing
    }
}

/// Whether one of the providers that support completion has a trigger string
/// that ends the text.
pub open spec fn trigger_typed(providers: Seq<Provider>, text: Seq<char>) -> bool {
    exists|i: int|
        0 <= i < providers.len() && (#[trigger] providers[i]).supports_completion && first_suffix(
            providers[i].triggers(),
            text,
        ) is Some
}

/// The event that the text at the cursor asks for.
///
/// None where automatic completion is switched off. A typed trigger string
/// asks for a trigger-character event. Failing that, and unless only trigger
/// characters count, text that ends in a word asks for an automatic trigger.
pub open spec fn triggered_event(
    config: CompletionConfig,
    editor: EditorState,
    trigger_typed: bool,
    ends_in_word: bool,
    trigger_char_only: bool,
) -> Option<CompletionEvent> {
    if !config.auto_completion {
        None
    } else if trigger_typed {
        Some(
            CompletionEvent::TriggerChar {
                cursor: editor.cursor,
                doc: editor.doc,
                view: editor.view,
            },
        )
    } else if !trigger_char_only && ends_in_word {
        Some(
            CompletionEvent::AutoTrigger {
                cursor: editor.cursor,
                doc: editor.doc,
                view: editor.view,
            },
        )
    } else {
        None
    }
}

/// Tells whether two strings hold the same characters.
pub fn same_text(a: &str, b: &str) -> (same: bool)
    ensures
        same == (a@ == b@),
{
    let x = chars_of(a);
    let y = chars_of(b);
    if x.len() != y.len() {
        return false;
    }
    let mut i: usize = 0;
    while i < x.len()
        invariant
            x@ == a@,
            y@ == b@,
            x.len() == y.len(),
            i <= x.len(),
            forall|j: int| 0 <= j < i ==> x@[j] == y@[j],
        decreases x.len() - i,
    {
        if x[i] != y[i] {
            return false;
        }
        i += 1;
    }
    assert(x@ =~= y@);
    true
}

/// Tells the kind of the command with the given name.
pub fn classify_command(name: Option<&str>) -> (kind: CommandKind)
    ensures
        kind == command_kind(
            match name {
                Some(n) => Some(n@),
                None => None,
            },
        ),
{
    match name {
        None => CommandKind::Other,
        Some(n) => {
            if same_text(n, "delete_char_backward") {
                CommandKind::DeleteBackward
            } else if same_text(n, "delete_word_forward") || same_text(n, "delete_char_forward") {
                CommandKind::DeleteForward
            } else if same_text(n, "completion") {
                CommandKind::Completion
            } else if same_text(n, "insert_mode") || same_text(n, "append_mode") {
                CommandKind::EnterInsert
            } else {
                CommandKind::Other
            }
        },
    }
}

/// Decides what follows a command that the editor has just run.
///
/// `completion_active` says whether a completion is being applied, `command`
/// is the name of the command, if it has one, and `cursor` the cursor offset
/// after the command.
pub fn completion_post_command_hook(
    mode: Mode,
    completion_active: bool,
    command: Option<&str>,
    cursor: usize,
) -> (action: HookAction)
    ensures
        action == after_command(
            mode,
            completion_active,
            command_kind(
                match command {
                    Some(n) => Some(n@),
                    None => None,
                },
            ),
            cursor,
        ),
{
    if mode != Mode::Insert {
        return HookAction::Nothing;
    }
    let kind = classify_command(command);
    if completion_active {
        match kind {
            CommandKind::DeleteForward | CommandKind::Completion => HookAction::Nothing,
            CommandKind::DeleteBackward => HookAction::UpdateCompletions(None),
            _ => HookAction::ClearCompletions,
        }
    } else {
        match kind {
            CommandKind::DeleteBackward | CommandKind::DeleteForward => HookAction::Send(
                CompletionEvent::DeleteText { cursor },
            ),
            CommandKind::Completion | CommandKind::EnterInsert => HookAction::Nothing,
            CommandKind::Other => HookAction::Send(CompletionEvent::Cancel),
        }
    }
}

/// Decides what follows a switch of mode.
pub fn on_mode_switch(old_mode: Mode, new_mode: Mode) -> (action: HookAction)
    ensures
        action == after_mode_switch(old_mode, new_mode),
{
    if old_mode == Mode::Insert {
        HookAction::CancelAndClear
    } else if new_mode == Mode::Insert {
        HookAction::TriggerAutoCompletion
    } else {
        HookAction::Nothing
    }
}

/// Decides what follows a typed character: it updates a completion that is
/// being applied, and looks for a trigger otherwise.
pub fn on_post_insert_char(completion_active: bool, c: char) -> (action: HookAction)
    ensures
        action == if completion_active {
            HookAction::UpdateCompletions(Some(c))
        } else {
            HookAction::TriggerAutoCompletion
        },
{
    if completion_active {
        HookAction::UpdateCompletions(Some(c))
    } else {
        HookAction::TriggerAutoCompletion
    }
}

/// Tells whether a provider that supports completion has a trigger string
/// that ends the text.
pub fn is_trigger_typed(providers: &Vec<Provider>, text: &Vec<char>) -> (typed: bool)
    ensures
        typed == trigger_typed(providers@, text@),
{
    let mut i: usize = 0;
    while i < providers.len()
        invariant
            i <= providers.len(),
            forall|j: int|
                0 <= j < i ==> !((#[trigger] providers@[j]).supports_completion && first_suffix(
                    providers@[j].triggers(),
                    text@,
                ) is Some),
        decreases providers.len() - i,
    {
        let provider = &providers[i];
        if provider.supports_completion && find_trigger(&provider.trigger_characters, text).is_some() {
            return true;
        }
        i += 1;
    }
    false
}

/// Picks the event for what was found at the cursor.
pub fn decide_trigger(
    config: &CompletionConfig,
    editor: &EditorState,
    trigger_typed: bool,
    ends_in_word: bool,
    trigger_char_only: bool,
) -> (event: Option<CompletionEvent>)
    ensures
        event == triggered_event(*config, *editor, trigger_typed, ends_in_word, trigger_char_only),
{
    if !config.auto_completion {
        None
    } else if trigger_typed {
        Some(
            CompletionEvent::TriggerChar {
                cursor: editor.cursor,
                doc: editor.doc,
                view: editor.view,
            },
        )
    } else if !trigger_char_only && ends_in_word {
        Some(
            CompletionEvent::AutoTrigger {
                cursor: editor.cursor,
                doc: editor.doc,
                view: editor.view,
            },
        )
    } else {
        None
    }
}

/// Finds the event, if any, that the text at the cursor asks for.
///
/// `providers` are the providers associated with the active document and
/// `text_before_cursor` is the text that ends at the cursor.
pub fn trigger_auto_completion(
    config: &CompletionConfig,
    editor: &EditorState,
    providers: &Vec<Provider>,
    text_before_cursor: &str,
    trigger_char_only: bool,
) -> (event: Option<CompletionEvent>)
    ensures
        event == triggered_event(
            *config,
            *editor,
            trigger_typed(providers@, text_before_cursor@),
            ends_in_word(text_before_cursor@, config.completion_trigger_len as nat),
            trigger_char_only,
        ),
{
    if !config.auto_completion {
        return None;
    }
    let text = chars_of(text_before_cursor);
    let typed = is_trigger_typed(providers, &text);
    let word = tail_is_word(&text, config.completion_trigger_len as usize);
    decide_trigger(config, editor, typed, word, trigger_char_only)
}

/// What an update of the completions on display leads to.
#[derive(Debug, Clone, Copy, PartialEq, Eq, Structural)]
pub struct Update {
    /// A provider's answer is partial: look for a trigger, so that it is
    /// asked again.
    pub refresh: bool,
    /// The display was closed because nothing on it matches any more.
    pub cleared: bool,
    /// The display was closed by a typed character: look for a trigger.
    pub retrigger: bool,
}

/// Updates the completions on display after the editor has narrowed them to
/// what was typed.
///
/// `c` is the typed character, absent after a deletion, and `filtered_empty`
/// says that nothing on display matches any more. Without a display nothing
/// happens.
pub fn update_completions(
    open: &mut Option<CompletionSession>,
    c: Option<char>,
    filtered_empty: bool,
) -> (update: Update)
    ensures
        *old(open) is None ==> *final(open) == *old(open) && update == (Update {
            refresh: false,
            cleared: false,
            retrigger: false,
        }),
        *old(open) matches Some(session) ==> update == (Update {
            refresh: exists|provider: u64| session.marks_incomplete(provider),
            cleared: filtered_empty,
            retrigger: filtered_empty && c is Some,
        }) && *final(open) == if filtered_empty {
            None
        } else {
            *old(open)
        },
{
    let refresh = match open {
        Some(session) => session.has_incomplete(),
        None => {
            return Update { refresh: false, cleared: false, retrigger: false };
        },
    };
    if filtered_empty {
        clear_completions(open);
    }
    Update { refresh, cleared: filtered_empty, retrigger: filtered_empty && c.is_some() }
}

/// Closes the completions on display.
pub fn clear_completions(open: &mut Option<CompletionSession>)
    ensures
        *final(open) is None,
{
    *open = None;
}

} // verus!
