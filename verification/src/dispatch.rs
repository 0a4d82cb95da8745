//! The command dispatcher: from a message of the hosted UI to what the
//! application is to do, and from the outcome of doing it to the reply.

use vstd::prelude::*;
use vstd::string::*;
use crate::error::{DispatchError, DispatchErrorView};
use crate::json::{json_error_text, json_parse, parse};
use crate::message::{
    decode_message, decoded, invalid_message, MessageView, SynchronousMessage,
};
use crate::operation::{lemma_operation_named, operation_named, parse_operation, Operation};
use crate::prefs::optional_text;
use crate::state::{lemma_labels_distinct, window_label, AppState};
use crate::text::texts;
use crate::window::{
    create_new_window, create_window_internal, requested_prefs, resolved_window, WindowRequest,
    WindowRequestView,
};

verus! {

/// The exit code of an application that was asked to quit.
pub const EXIT_CODE: i32 = 0;

/// The width of an enlarged window, in pixels.
pub const ENLARGED_WIDTH: u32 = 1400;

/// The height of an enlarged window, in pixels.
pub const ENLARGED_HEIGHT: u32 = 1050;

/// The width of a reduced window, in pixels.
pub const REDUCED_WIDTH: u32 = 1024;

/// The height of a reduced window, in pixels.
pub const REDUCED_HEIGHT: u32 = 768;

/// What the application is to do for a command. Resizing and maximizing
/// concern the window that sent the command, and no other.
#[derive(Debug, PartialEq, Eq)]
pub enum Action {
    /// Terminate the application process with this exit code.
    Exit { code: i32 },
    /// Ask the windowing service for this window.
    OpenWindow { window: WindowRequest },
    /// Give the sending window this size, in pixels.
    Resize { width: u32, height: u32 },
    /// Maximize the sending window.
    Maximize,
    /// Restore the sending window from maximized.
    Unmaximize,
}

/// What an action holds, with each text as a sequence of characters.
pub enum ActionView {
    Exit { code: i32 },
    OpenWindow { window: WindowRequestView },
    Resize { width: u32, height: u32 },
    Maximize,
    Unmaximize,
}

impl View for Action {
    type V = ActionView;

    open spec fn view(&self) -> ActionView {
        match self {
            Action::Exit { code } => ActionView::Exit { code: *code },
            Action::OpenWindow { window } => ActionView::OpenWindow { window: window@ },
            Action::Resize { width, height } => ActionView::Resize {
                width: *width,
                height: *height,
            },
            Action::Maximize => ActionView::Maximize,
            Action::Unmaximize => ActionView::Unmaximize,
        }
    }
}

/// A command that was understood: the operation, and what to do for it.
#[derive(Debug, PartialEq, Eq)]
pub struct Command {
    pub operation: Operation,
    pub action: Action,
}

/// What a command holds.
pub struct CommandView {
    pub operation: Operation,
    pub action: ActionView,
}

impl View for Command {
    type V = CommandView;

    open spec fn view(&self) -> CommandView {
        CommandView { operation: self.operation, action: self.action@ }
    }
}

/// The reply to a command that was carried out.
pub open spec fn ok_reply() -> Seq<char> {
    "ok"@
}

/// The argument vector of the graphical shell.
pub open spec fn shell_argv() -> Seq<Seq<char>> {
    seq!["shell"@]
}

/// What an operation asks of the application, when `issued` labels have
/// been given out and the message is `message`. A new window gets the
/// next label.
pub open spec fn action_for(operation: Operation, issued: nat, message: MessageView) -> ActionView {
    match operation {
        Operation::Quit => ActionView::Exit { code: EXIT_CODE },
        Operation::NewWindow => ActionView::OpenWindow {
            window: resolved_window(
                window_label(issued + 1),
                message.argv,
                Some(requested_prefs(message.width, message.height, message.title)),
            ),
        },
        Operation::OpenGraphicalShell => ActionView::OpenWindow {
            window: resolved_window(window_label(issued + 1), Some(shell_argv()), None),
        },
        Operation::EnlargeWindow => ActionView::Resize {
            width: ENLARGED_WIDTH,
            height: ENLARGED_HEIGHT,
        },
        Operation::ReduceWindow => ActionView::Resize {
            width: REDUCED_WIDTH,
            height: REDUCED_HEIGHT,
        },
        Operation::MaximizeWindow => ActionView::Maximize,
        Operation::UnmaximizeWindow => ActionView::Unmaximize,
    }
}

/// The command that a message stands for, or the error that it ends in,
/// when `issued` labels have been given out.
pub open spec fn planned(issued: nat, message: MessageView) -> Result<
    CommandView,
    DispatchErrorView,
> {
    match operation_named(message.operation) {
        Some(operation) => Ok(
            CommandView { operation, action: action_for(operation, issued, message) },
        ),
        None => Err(DispatchErrorView::UnknownOperation { name: message.operation }),
    }
}

/// A counter, of open windows or of labels issued, once the outcome is
/// known: one more if a window was asked for, the same otherwise.
pub open spec fn count_after(count: nat, outcome: Result<CommandView, DispatchErrorView>) -> nat {
    match outcome {
        Ok(command) => if command.operation.creates_window() {
            count + 1
        } else {
            count
        },
        Err(_) => count,
    }
}

/// The outcome of dispatching a raw message.
pub open spec fn handled(issued: nat, text: Seq<char>) -> Result<CommandView, DispatchErrorView> {
    match decoded(text) {
        Ok(message) => planned(issued, message),
        Err(error) => Err(error),
    }
}

/// What the result of dispatching holds.
pub open spec fn outcome_view(r: Result<Command, DispatchError>) -> Result<
    CommandView,
    DispatchErrorView,
> {
    match r {
        Ok(command) => Ok(command@),
        Err(error) => Err(error@),
    }
}

/// The reply to the hosted UI once the windowing service has answered:
/// `ok`, or the service's refusal with what was being attempted. Quitting
/// asks nothing of the service and is always answered with `ok`.
pub open spec fn reply_for(operation: Operation, refusal: Option<Seq<char>>) -> Result<
    Seq<char>,
    DispatchErrorView,
> {
    match refusal {
        Some(detail) if operation != Operation::Quit => Err(
            DispatchErrorView::WindowServiceError {
                context: operation.failure_context(),
                detail,
            },
        ),
        _ => Ok(ok_reply()),
    }
}

/// Whether a message asks for a new window.
pub open spec fn asks_for_window(message: MessageView) -> bool {
    operation_named(message.operation) matches Some(operation) && operation.creates_window()
}

/// The label of the window that an outcome asks for, if it asks for one.
pub open spec fn opened_label(outcome: Result<CommandView, DispatchErrorView>) -> Option<Seq<char>> {
    match outcome {
        Ok(CommandView { action: ActionView::OpenWindow { window }, .. }) => Some(window.label),
        _ => None,
    }
}

/// Whether an outcome asks the application to terminate.
pub open spec fn exits(outcome: Result<CommandView, DispatchErrorView>) -> bool {
    outcome matches Ok(command) && command.action is Exit
}

/// The number of labels issued after the messages have been dispatched
/// one after another.
pub open spec fn issued_after_messages(issued: nat, messages: Seq<MessageView>) -> nat
    decreases messages.len(),
{
    if messages.len() == 0 {
        issued
    } else {
        let before = issued_after_messages(issued, messages.drop_last());
        count_after(before, planned(before, messages.last()))
    }
}

/// The outcome of the `k`-th of the messages, counted from zero, when they
/// are dispatched one after another.
pub open spec fn outcome_at(issued: nat, messages: Seq<MessageView>, k: int) -> Result<
    CommandView,
    DispatchErrorView,
> {
    planned(issued_after_messages(issued, messages.take(k)), messages[k])
}

/// The number of windows accounted open after the messages have been
/// dispatched one after another, with no window closed in between.
pub open spec fn open_after_messages(open: nat, issued: nat, messages: Seq<MessageView>) -> nat
    decreases messages.len(),
{
    if messages.len() == 0 {
        open
    } else {
        count_after(
            open_after_messages(open, issued, messages.drop_last()),
            outcome_at(issued, messages, messages.len() - 1),
        )
    }
}

/// Dispatching messages never lowers the number of labels issued.
pub proof fn lemma_issued_never_goes_down(
    issued: nat,
    messages: Seq<MessageView>,
    j: int,
    k: int,
)
    requires
        0 <= j <= k <= messages.len(),
    ensures
        issued_after_messages(issued, messages.take(j)) <= issued_after_messages(
            issued,
            messages.take(k),
        ),
    decreases k - j,
{
    if j < k {
        assert(messages.take(k).drop_last() =~= messages.take(k - 1));
        lemma_issued_never_goes_down(issued, messages, j, k - 1);
    }
}

/// No two messages are ever given the same label. Whatever messages are
/// dispatched one after another, and whatever windows are closed in
/// between (a close leaves the number of labels issued alone), a message
/// that asks for a window gets a label that no earlier message got.
pub proof fn lemma_messages_never_reuse_labels(
    issued: nat,
    messages: Seq<MessageView>,
    j: int,
    k: int,
)
    requires
        0 <= j < k < messages.len(),
        opened_label(outcome_at(issued, messages, j)) is Some,
        opened_label(outcome_at(issued, messages, k)) is Some,
    ensures
        opened_label(outcome_at(issued, messages, j)) != opened_label(
            outcome_at(issued, messages, k),
        ),
{
    let at_j = issued_after_messages(issued, messages.take(j));
    let at_k = issued_after_messages(issued, messages.take(k));
    assert(messages.take(j + 1).drop_last() =~= messages.take(j));
    assert(messages.take(j + 1).last() == messages[j]);
    assert(issued_after_messages(issued, messages.take(j + 1)) == at_j + 1);
    lemma_issued_never_goes_down(issued, messages, j + 1, k);
    lemma_labels_distinct(at_j + 1, at_k + 1);
}

/// Dispatching messages that all ask for a window raises both counters by
/// the number of messages.
pub proof fn lemma_count_after_window_messages(
    open: nat,
    issued: nat,
    messages: Seq<MessageView>,
)
    requires
        forall|k: int| 0 <= k < messages.len() ==> asks_for_window(#[trigger] messages[k]),
    ensures
        issued_after_messages(issued, messages) == issued + messages.len(),
        open_after_messages(open, issued, messages) == open + messages.len(),
    decreases messages.len(),
{
    if messages.len() > 0 {
        let earlier = messages.drop_last();
        assert forall|k: int| 0 <= k < earlier.len() implies asks_for_window(
            #[trigger] earlier[k],
        ) by {
            assert(earlier[k] == messages[k]);
        }
        lemma_count_after_window_messages(open, issued, earlier);
        assert(asks_for_window(messages[messages.len() - 1]));
        assert(messages.last() == messages[messages.len() - 1]);
    }
}

/// When `new-window` and `open-graphical-shell` messages are dispatched one
/// after another, starting with `open` windows and `issued` labels, both
/// counters end higher by the number of messages, the `k`-th message
/// (counted from zero) asks for the window labelled `main-<issued + k + 1>`,
/// and no two of the messages ask for the same label.
pub proof fn lemma_window_messages_give_fresh_labels(
    open: nat,
    issued: nat,
    messages: Seq<MessageView>,
)
    requires
        forall|k: int| 0 <= k < messages.len() ==> asks_for_window(#[trigger] messages[k]),
    ensures
        open_after_messages(open, issued, messages) == open + messages.len(),
        issued_after_messages(issued, messages) == issued + messages.len(),
        forall|k: int|
            0 <= k < messages.len() ==> opened_label(#[trigger] outcome_at(issued, messages, k))
                == Some(window_label((issued + k + 1) as nat)),
        forall|j: int, k: int|
            0 <= j < k < messages.len() ==> opened_label(#[trigger] outcome_at(issued, messages, j))
                != opened_label(#[trigger] outcome_at(issued, messages, k)),
{
    lemma_count_after_window_messages(open, issued, messages);
    assert forall|k: int| 0 <= k < messages.len() implies opened_label(
        #[trigger] outcome_at(issued, messages, k),
    ) == Some(window_label((issued + k + 1) as nat)) by {
        let earlier = messages.take(k);
        assert forall|i: int| 0 <= i < earlier.len() implies asks_for_window(
            #[trigger] earlier[i],
        ) by {
            assert(earlier[i] == messages[i]);
        }
        lemma_count_after_window_messages(open, issued, earlier);
        assert(asks_for_window(messages[k]));
    }
    assert forall|j: int, k: int| 0 <= j < k < messages.len() implies opened_label(
        #[trigger] outcome_at(issued, messages, j),
    ) != opened_label(#[trigger] outcome_at(issued, messages, k)) by {
        lemma_labels_distinct((issued + j + 1) as nat, (issued + k + 1) as nat);
    }
}

/// A message asks the application to terminate exactly when its operation
/// is `quit`; the exit code is then zero.
pub proof fn lemma_only_quit_exits(issued: nat, message: MessageView)
    ensures
        exits(planned(issued, message)) <==> message.operation == Operation::Quit.wire_name(),
        exits(planned(issued, message)) ==> planned(issued, message)->Ok_0.action
            == (ActionView::Exit { code: EXIT_CODE }),
        EXIT_CODE == 0,
{
    lemma_operation_named(Operation::Quit, message.operation);
}

/// A raw message that asks the application to terminate carries the
/// operation `quit`.
pub proof fn lemma_only_quit_message_exits(issued: nat, text: Seq<char>)
    ensures
        exits(handled(issued, text)) <==> (decoded(text) matches Ok(message) && message.operation
            == Operation::Quit.wire_name()),
{
    if decoded(text) is Ok {
        lemma_only_quit_exits(issued, decoded(text)->Ok_0);
    }
}

/// A message that names no supported operation fails with that name and
/// leaves both counters as they were.
pub proof fn lemma_unknown_operation_changes_nothing(
    open: nat,
    issued: nat,
    message: MessageView,
)
    requires
        operation_named(message.operation) is None,
    ensures
        planned(issued, message) == Err::<CommandView, DispatchErrorView>(
            DispatchErrorView::UnknownOperation { name: message.operation },
        ),
        count_after(open, planned(issued, message)) == open,
        count_after(issued, planned(issued, message)) == issued,
{
}

/// A raw message that is not well-formed JSON fails as an invalid message,
/// in the parser's words, and leaves both counters as they were.
pub proof fn lemma_malformed_json_changes_nothing(open: nat, issued: nat, text: Seq<char>)
    requires
        json_parse(text) is Err,
    ensures
        handled(issued, text) == Err::<CommandView, DispatchErrorView>(
            DispatchErrorView::InvalidMessage {
                detail: json_error_text(json_parse(text)->Err_0),
            },
        ),
        count_after(open, handled(issued, text)) == open,
        count_after(issued, handled(issued, text)) == issued,
{
}

/// Only an outcome that asks for a window changes a counter.
pub proof fn lemma_counter_changes_only_for_windows(count: nat, issued: nat, text: Seq<char>)
    ensures
        count_after(count, handled(issued, text)) != count ==> (opened_label(
            handled(issued, text),
        ) is Some),
        handled(issued, text) is Err ==> count_after(count, handled(issued, text)) == count,
{
}

/// What precedes the windowing service's own words when an operation fails.
pub fn failure_context(operation: Operation) -> (r: &'static str)
    ensures
        r@ == operation.failure_context(),
{
    proof {
        reveal_strlit("");
        assert(""@ =~= Seq::<char>::empty());
    }
    match operation {
        Operation::Quit => "",
        Operation::NewWindow => "Failed to create window",
        Operation::OpenGraphicalShell => "Failed to create shell window",
        Operation::EnlargeWindow => "Failed to enlarge window",
        Operation::ReduceWindow => "Failed to reduce window",
        Operation::MaximizeWindow => "Failed to maximize window",
        Operation::UnmaximizeWindow => "Failed to unmaximize window",
    }
}

/// Decides what a decoded message asks of the application.
///
/// An unknown operation changes nothing. Only `new-window` and
/// `open-graphical-shell` count a window and reserve a label, and the
/// label is one that no window had before.
pub fn dispatch(state: &mut AppState, message: SynchronousMessage) -> (r: Result<
    Command,
    DispatchError,
>)
    requires
        asks_for_window(message@) ==> old(state).window_count < usize::MAX,
        asks_for_window(message@) ==> old(state).labels_issued < usize::MAX,
    ensures
        outcome_view(r) == planned(old(state).labels_issued as nat, message@),
        final(state).window_count == count_after(old(state).window_count as nat, outcome_view(r)),
        final(state).labels_issued == count_after(
            old(state).labels_issued as nat,
            outcome_view(r),
        ),
        final(state).fixed_windows == old(state).fixed_windows,
{
    let operation = match parse_operation(&message.operation) {
        Some(operation) => operation,
        None => {
            return Err(DispatchError::UnknownOperation { name: message.operation });
        },
    };
    let action = match operation {
        Operation::Quit => Action::Exit { code: EXIT_CODE },
        Operation::NewWindow => {
            let window = create_new_window(
                state,
                message.argv,
                message.width,
                message.height,
                message.title,
            );
            Action::OpenWindow { window }
        },
        Operation::OpenGraphicalShell => {
            let mut argv: Vec<String> = Vec::new();
            argv.push(String::from_str("shell"));
            assert(texts(argv@) =~= shell_argv());
            let window = create_window_internal(state, Some(argv), None);
            Action::OpenWindow { window }
        },
        Operation::EnlargeWindow => Action::Resize {
            width: ENLARGED_WIDTH,
            height: ENLARGED_HEIGHT,
        },
        Operation::ReduceWindow => Action::Resize { width: REDUCED_WIDTH, height: REDUCED_HEIGHT },
        Operation::MaximizeWindow => Action::Maximize,
        Operation::UnmaximizeWindow => Action::Unmaximize,
    };
    Ok(Command { operation, action })
}

/// Handle synchronous messages from renderer: decodes the raw message and
/// decides what it asks of the application.
///
/// A message that cannot be decoded, or that names an unknown operation,
/// ends in an error and leaves the state as it was.
pub fn synchronous_message(state: &mut AppState, message: &str) -> (r: Result<
    Command,
    DispatchError,
>)
    requires
        old(state).window_count < usize::MAX,
        old(state).labels_issued < usize::MAX,
    ensures
        outcome_view(r) == handled(old(state).labels_issued as nat, message@),
        final(state).window_count == count_after(old(state).window_count as nat, outcome_view(r)),
        final(state).labels_issued == count_after(
            old(state).labels_issued as nat,
            outcome_view(r),
        ),
        final(state).fixed_windows == old(state).fixed_windows,
        r is Err ==> final(state).window_count == old(state).window_count,
        r is Err ==> final(state).labels_issued == old(state).labels_issued,
        json_parse(message@) is Err ==> r matches Err(DispatchError::InvalidMessage { .. }),
        exits(outcome_view(r)) ==> (decoded(message@) matches Ok(m) && m.operation
            == Operation::Quit.wire_name()),
{
    proof {
        lemma_only_quit_message_exits(old(state).labels_issued as nat, message@);
    }
    match decode_message(message) {
        Ok(decoded_message) => dispatch(state, decoded_message),
        Err(error) => Err(error),
    }
}

/// Makes the reply to the hosted UI from what the windowing service
/// answered: nothing if it did as asked, its own words if it refused.
pub fn conclude(operation: Operation, refusal: Option<String>) -> (r: Result<String, DispatchError>)
    ensures
        match r {
            Ok(reply) => reply_for(operation, optional_text(refusal)) == Ok::<
                Seq<char>,
                DispatchErrorView,
            >(reply@),
            Err(error) => reply_for(operation, optional_text(refusal)) == Err::<
                Seq<char>,
                DispatchErrorView,
            >(error@),
        },
{
    match refusal {
        Some(detail) => {
            if operation == Operation::Quit {
                Ok(String::from_str("ok"))
            } else {
                Err(
                    DispatchError::WindowServiceError {
                        context: String::from_str(failure_context(operation)),
                        detail,
                    },
                )
            }
        },
        None => Ok(String::from_str("ok")),
    }
}

/// The answer to a request to run plugin code in the main process.
#[derive(Debug, PartialEq, Eq)]
pub struct ExecReply {
    /// Whether the request was accepted.
    pub success: bool,
    /// What the plugin code returned; nothing is run yet, so nothing is.
    pub return_value: Option<String>,
}

/// Execute plugin code in main process. No plugin code is run yet: a
/// message that is well-formed JSON is accepted, with nothing returned.
pub fn exec_invoke(message: &str) -> (r: Result<ExecReply, DispatchError>)
    ensures
        match json_parse(message@) {
            Ok(_) => r matches Ok(reply) && reply.success && reply.return_value is None,
            Err(error) => r matches Err(e) && e@ == (DispatchErrorView::InvalidMessage {
                detail: json_error_text(error),
            }),
        },
{
    match parse(message) {
        Ok(_) => Ok(ExecReply { success: true, return_value: None }),
        Err(error) => Err(invalid_message(&error)),
    }
}

/// Capture page to clipboard. Capturing is not available yet: the
/// request is accepted for any region, and nothing is captured.
pub fn capture_to_clipboard(x: i32, y: i32, width: u32, height: u32) -> (r: Result<(), String>)
    ensures
        r is Ok,
{
    Ok(())
}

} // verus!
