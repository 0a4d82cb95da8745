use kui::dispatch::{
    capture_to_clipboard, conclude, dispatch, exec_invoke, failure_context, synchronous_message,
    Action, Command, ExecReply,
};
use kui::dispatch::{ENLARGED_HEIGHT, ENLARGED_WIDTH, EXIT_CODE, REDUCED_HEIGHT, REDUCED_WIDTH};
use kui::error::DispatchError;
use kui::menu::init;
use kui::message::{decode_message, read_message, truncate_to_u32, SynchronousMessage};
use kui::operation::{parse_operation, Operation};
use kui::state::AppState;

fn state_with(count: usize) -> AppState {
    let mut state = AppState::new();
    for _ in 0..count {
        state.allocate_label();
    }
    state
}

fn all_operations() -> Vec<Operation> {
    vec![
        Operation::Quit,
        Operation::NewWindow,
        Operation::OpenGraphicalShell,
        Operation::EnlargeWindow,
        Operation::ReduceWindow,
        Operation::MaximizeWindow,
        Operation::UnmaximizeWindow,
    ]
}

#[test]
fn quit_exits_with_code_zero() {
    let mut state = state_with(2);
    let command = synchronous_message(&mut state, "{\"operation\":\"quit\"}").unwrap();
    assert_eq!(command, Command { operation: Operation::Quit, action: Action::Exit { code: 0 } });
    assert_eq!(EXIT_CODE, 0);
    assert_eq!(state.open_windows(), 2);
    assert_eq!(conclude(command.operation, None), Ok("ok".to_string()));
}

#[test]
fn only_quit_exits() {
    for operation in all_operations() {
        let mut state = state_with(1);
        let text = format!("{{\"operation\":\"{}\"}}", operation.name());
        let command = synchronous_message(&mut state, &text).unwrap();
        assert_eq!(command.operation, operation);
        let exits = matches!(command.action, Action::Exit { .. });
        assert_eq!(exits, operation == Operation::Quit);
    }
}

#[test]
fn bogus_operation_fails_and_changes_nothing() {
    let mut state = state_with(3);
    let error = synchronous_message(&mut state, "{\"operation\":\"bogus\"}").unwrap_err();
    assert_eq!(error, DispatchError::UnknownOperation { name: "bogus".to_string() });
    assert_eq!(error.message(), "Unknown operation: bogus");
    assert!(error.message().contains("bogus"));
    assert_eq!(state.open_windows(), 3);
    assert_eq!(state.labels_issued, 3);
    assert!(state.fixed_windows.is_empty());
}

#[test]
fn operation_names_are_case_sensitive() {
    let mut state = state_with(0);
    let error = synchronous_message(&mut state, "{\"operation\":\"Quit\"}").unwrap_err();
    assert_eq!(error, DispatchError::UnknownOperation { name: "Quit".to_string() });
    let error = synchronous_message(&mut state, "{\"operation\":\"quit \"}").unwrap_err();
    assert_eq!(error, DispatchError::UnknownOperation { name: "quit ".to_string() });
    let error = synchronous_message(&mut state, "{\"operation\":\"\"}").unwrap_err();
    assert_eq!(error, DispatchError::UnknownOperation { name: "".to_string() });
    assert_eq!(state.open_windows(), 0);
}

#[test]
fn enlarge_resizes_the_dispatching_window() {
    let mut state = state_with(2);
    let command = synchronous_message(&mut state, "{\"operation\":\"enlarge-window\"}").unwrap();
    assert_eq!(command.operation, Operation::EnlargeWindow);
    assert_eq!(command.action, Action::Resize { width: 1400, height: 1050 });
    assert_eq!((ENLARGED_WIDTH, ENLARGED_HEIGHT), (1400, 1050));
    assert_eq!(state.open_windows(), 2);
    assert_eq!(conclude(command.operation, None), Ok("ok".to_string()));
}

#[test]
fn reduce_resizes_the_dispatching_window() {
    let mut state = state_with(1);
    let command = synchronous_message(&mut state, "{\"operation\":\"reduce-window\"}").unwrap();
    assert_eq!(command.action, Action::Resize { width: 1024, height: 768 });
    assert_eq!((REDUCED_WIDTH, REDUCED_HEIGHT), (1024, 768));
    assert_eq!(state.open_windows(), 1);
}

#[test]
fn maximize_and_unmaximize() {
    let mut state = state_with(1);
    let command = synchronous_message(&mut state, "{\"operation\":\"maximize-window\"}").unwrap();
    assert_eq!(command.action, Action::Maximize);
    let command = synchronous_message(&mut state, "{\"operation\":\"unmaximize-window\"}").unwrap();
    assert_eq!(command.action, Action::Unmaximize);
    assert_eq!(state.open_windows(), 1);
}

#[test]
fn open_graphical_shell_creates_a_shell_window() {
    let mut state = state_with(1);
    let command =
        synchronous_message(&mut state, "{\"operation\":\"open-graphical-shell\"}").unwrap();
    assert_eq!(command.operation, Operation::OpenGraphicalShell);
    match command.action {
        Action::OpenWindow { window } => {
            assert_eq!(window.label, "main-2");
            assert_eq!(window.title, "Kui");
            assert_eq!((window.width, window.height), (1280, 960));
            assert_eq!(window.url, "index.html?executeThisArgvPlease=%5B%22shell%22%5D");
            assert!(window.centered && window.resizable);
        }
        other => panic!("unexpected action {:?}", other),
    }
    assert_eq!(state.open_windows(), 2);
}

#[test]
fn new_window_reads_its_payload() {
    let mut state = state_with(0);
    let text = "{\"operation\":\"new-window\",\"argv\":[\"ls\"],\"width\":900,\"height\":500,\"title\":\"Files\"}";
    let command = synchronous_message(&mut state, text).unwrap();
    assert_eq!(command.operation, Operation::NewWindow);
    match command.action {
        Action::OpenWindow { window } => {
            assert_eq!(window.label, "main-1");
            assert_eq!(window.title, "Files");
            assert_eq!((window.width, window.height), (900, 500));
            assert_eq!(
                window.url,
                "index.html?executeThisArgvPlease=%5B%22ls%22%5D\
&subwindow=%7B%22title%22%3A%22Files%22%2C%22width%22%3A900%2C%22height%22%3A500%7D"
            );
        }
        other => panic!("unexpected action {:?}", other),
    }
    assert_eq!(state.open_windows(), 1);
}

#[test]
fn new_window_without_payload_uses_defaults() {
    let mut state = state_with(0);
    let command = synchronous_message(&mut state, "{\"operation\":\"new-window\"}").unwrap();
    match command.action {
        Action::OpenWindow { window } => {
            assert_eq!(window.title, "Kui");
            assert_eq!((window.width, window.height), (1280, 960));
            assert_eq!(window.url, "index.html?subwindow=%7B%7D");
        }
        other => panic!("unexpected action {:?}", other),
    }
}

#[test]
fn n_window_commands_give_n_labels() {
    let mut state = AppState::new();
    let mut labels = Vec::new();
    for k in 0..10 {
        let text = if k % 2 == 0 {
            "{\"operation\":\"new-window\"}"
        } else {
            "{\"operation\":\"open-graphical-shell\"}"
        };
        match synchronous_message(&mut state, text).unwrap().action {
            Action::OpenWindow { window } => labels.push(window.label),
            other => panic!("unexpected action {:?}", other),
        }
    }
    assert_eq!(state.open_windows(), 10);
    assert_eq!(state.labels_issued, 10);
    let expected: Vec<String> = (1..=10).map(|k| format!("main-{}", k)).collect();
    assert_eq!(labels, expected);
}

#[test]
fn window_commands_never_reuse_a_label_after_closes() {
    let mut state = AppState::new();
    let mut labels = Vec::new();
    for k in 0..8 {
        let text = if k % 2 == 0 {
            "{\"operation\":\"open-graphical-shell\"}"
        } else {
            "{\"operation\":\"new-window\"}"
        };
        match synchronous_message(&mut state, text).unwrap().action {
            Action::OpenWindow { window } => labels.push(window.label),
            other => panic!("unexpected action {:?}", other),
        }
        state.release();
        if k == 3 {
            state.release();
        }
        synchronous_message(&mut state, "{\"operation\":\"maximize-window\"}").unwrap();
        synchronous_message(&mut state, "{\"operation\":\"bogus\"}").unwrap_err();
        synchronous_message(&mut state, "{").unwrap_err();
    }
    let expected: Vec<String> = (1..=8).map(|k| format!("main-{}", k)).collect();
    assert_eq!(labels, expected);
    assert_eq!(state.open_windows(), 0);
    assert_eq!(state.labels_issued, 8);
}

#[test]
fn malformed_json_is_an_invalid_message() {
    let mut state = state_with(4);
    for text in ["", "{", "{not json", "{\"operation\":\"quit\"", "quit", "{\"operation\":}"] {
        let error = synchronous_message(&mut state, text).unwrap_err();
        let expected = serde_json::from_str::<serde_json::Value>(text).unwrap_err().to_string();
        assert_eq!(error, DispatchError::InvalidMessage { detail: expected.clone() });
        assert_eq!(error.message(), format!("Invalid message: {}", expected));
        assert_eq!(state.open_windows(), 4);
        assert_eq!(state.labels_issued, 4);
    }
}

#[test]
fn malformed_json_detail_names_the_place() {
    let error = decode_message("{not json").unwrap_err();
    assert_eq!(
        error,
        DispatchError::InvalidMessage { detail: "key must be a string at line 1 column 2".to_string() }
    );
}

#[test]
fn message_without_operation_is_invalid() {
    let mut state = state_with(1);
    for text in ["{}", "{\"argv\":[\"ls\"]}", "[]", "[\"quit\"]", "\"quit\"", "null", "7"] {
        let error = synchronous_message(&mut state, text).unwrap_err();
        assert_eq!(
            error,
            DispatchError::InvalidMessage { detail: "missing field `operation`".to_string() }
        );
        assert_eq!(error.message(), "Invalid message: missing field `operation`");
    }
    for text in ["{\"operation\":7}", "{\"operation\":null}", "{\"operation\":[\"quit\"]}"] {
        let error = synchronous_message(&mut state, text).unwrap_err();
        assert_eq!(
            error,
            DispatchError::InvalidMessage { detail: "field `operation` is not a string".to_string() }
        );
    }
    assert_eq!(state.open_windows(), 1);
}

#[test]
fn payload_of_the_wrong_kind_counts_as_absent() {
    let text = "{\"operation\":\"new-window\",\"argv\":\"ls\",\"width\":\"wide\",\"height\":-3,\"title\":5}";
    let message = decode_message(text).unwrap();
    assert_eq!(
        message,
        SynchronousMessage {
            operation: "new-window".to_string(),
            argv: None,
            width: None,
            height: None,
            title: None,
        }
    );
    let text = "{\"operation\":\"new-window\",\"argv\":[\"ls\",1],\"width\":1.5,\"height\":null}";
    let message = decode_message(text).unwrap();
    assert_eq!(message.argv, None);
    assert_eq!(message.width, None);
    assert_eq!(message.height, None);
    let mut state = state_with(0);
    match dispatch(&mut state, message).unwrap().action {
        Action::OpenWindow { window } => {
            assert_eq!((window.width, window.height), (1280, 960));
            assert_eq!(window.url, "index.html?subwindow=%7B%7D");
        }
        other => panic!("unexpected action {:?}", other),
    }
}

#[test]
fn decode_reads_every_field() {
    let text = "{\"title\":\"T\",\"height\":2,\"width\":1,\"argv\":[],\"operation\":\"x\",\"more\":true}";
    let message = decode_message(text).unwrap();
    assert_eq!(
        message,
        SynchronousMessage {
            operation: "x".to_string(),
            argv: Some(Vec::new()),
            width: Some(1),
            height: Some(2),
            title: Some("T".to_string()),
        }
    );
}

#[test]
fn read_message_takes_a_parsed_document() {
    let doc: serde_json::Value =
        serde_json::from_str("{\"operation\":\"new-window\",\"argv\":[\"a\",\"b\"]}").unwrap();
    let message = read_message(&doc).unwrap();
    assert_eq!(message.operation, "new-window");
    assert_eq!(message.argv, Some(vec!["a".to_string(), "b".to_string()]));
}

#[test]
fn sizes_keep_their_low_32_bits() {
    assert_eq!(truncate_to_u32(0), 0);
    assert_eq!(truncate_to_u32(4294967295), 4294967295);
    assert_eq!(truncate_to_u32(4294967296), 0);
    assert_eq!(truncate_to_u32(4294967301), 5);
    assert_eq!(truncate_to_u32(u64::MAX), u32::MAX);
    let message = decode_message("{\"operation\":\"new-window\",\"width\":4294967301}").unwrap();
    assert_eq!(message.width, Some(5));
}

#[test]
fn dispatch_decides_on_plain_values() {
    let mut state = state_with(6);
    let message = SynchronousMessage {
        operation: "new-window".to_string(),
        argv: Some(vec!["top".to_string()]),
        width: None,
        height: Some(400),
        title: None,
    };
    match dispatch(&mut state, message).unwrap().action {
        Action::OpenWindow { window } => {
            assert_eq!(window.label, "main-7");
            assert_eq!(window.title, "Kui");
            assert_eq!((window.width, window.height), (1280, 400));
            assert_eq!(
                window.url,
                "index.html?executeThisArgvPlease=%5B%22top%22%5D&subwindow=%7B%22height%22%3A400%7D"
            );
        }
        other => panic!("unexpected action {:?}", other),
    }
    assert_eq!(state.open_windows(), 7);
    let unknown = SynchronousMessage {
        operation: "close-window".to_string(),
        argv: None,
        width: None,
        height: None,
        title: None,
    };
    assert_eq!(
        dispatch(&mut state, unknown),
        Err(DispatchError::UnknownOperation { name: "close-window".to_string() })
    );
    assert_eq!(state.open_windows(), 7);
}

#[test]
fn refusal_of_the_window_service_is_wrapped() {
    let expected = [
        (Operation::NewWindow, "Failed to create window"),
        (Operation::OpenGraphicalShell, "Failed to create shell window"),
        (Operation::EnlargeWindow, "Failed to enlarge window"),
        (Operation::ReduceWindow, "Failed to reduce window"),
        (Operation::MaximizeWindow, "Failed to maximize window"),
        (Operation::UnmaximizeWindow, "Failed to unmaximize window"),
    ];
    for (operation, context) in expected {
        assert_eq!(failure_context(operation), context);
        let error = conclude(operation, Some("display lost".to_string())).unwrap_err();
        assert_eq!(
            error,
            DispatchError::WindowServiceError {
                context: context.to_string(),
                detail: "display lost".to_string(),
            }
        );
        assert_eq!(error.message(), format!("{}: display lost", context));
        assert_eq!(conclude(operation, None), Ok("ok".to_string()));
    }
    assert_eq!(conclude(Operation::Quit, Some("ignored".to_string())), Ok("ok".to_string()));
}

#[test]
fn operations_are_found_by_their_names() {
    let names = [
        "quit",
        "new-window",
        "open-graphical-shell",
        "enlarge-window",
        "reduce-window",
        "maximize-window",
        "unmaximize-window",
    ];
    let operations = all_operations();
    for i in 0..names.len() {
        assert_eq!(operations[i].name(), names[i]);
        assert_eq!(parse_operation(&names[i].to_string()), Some(operations[i]));
    }
    assert_eq!(parse_operation(&"bogus".to_string()), None);
    assert_eq!(parse_operation(&"QUIT".to_string()), None);
}

#[test]
fn exec_invoke_accepts_any_json() {
    let expected = ExecReply { success: true, return_value: None };
    assert_eq!(exec_invoke("{\"module\":\"x\"}"), Ok(ExecReply { success: true, return_value: None }));
    assert_eq!(exec_invoke("null"), Ok(expected));
    let error = exec_invoke("{oops").unwrap_err();
    let detail = serde_json::from_str::<serde_json::Value>("{oops").unwrap_err().to_string();
    assert_eq!(error.message(), format!("Invalid message: {}", detail));
    assert_eq!(error, DispatchError::InvalidMessage { detail });
}

#[test]
fn capture_to_clipboard_accepts_any_region() {
    assert_eq!(capture_to_clipboard(0, 0, 0, 0), Ok(()));
    assert_eq!(capture_to_clipboard(-10, 20, 300, 400), Ok(()));
    assert_eq!(capture_to_clipboard(i32::MIN, i32::MAX, u32::MAX, u32::MAX), Ok(()));
}

#[test]
fn init_returns() {
    init();
    init();
}
