use lc3_lsp::completion::CompletionItem;
use lc3_lsp::diagnostics::{DiagnosticSeverity, PublishDiagnostics};
use lc3_lsp::dispatcher::{
    answer_completion, apply_did_change, apply_did_open, Action, Dispatcher, ErrorKind, Message,
    Notification, NotificationHandler, ProtocolError, Request, RequestHandler, ResponseBody,
};
use lc3_lsp::store::DocumentStore;
use lsp_server::RequestId;
use serde_json::Value;

fn json(s: &str) -> Value {
    serde_json::from_str(s).unwrap()
}

fn open_note(uri: &str, text: &str) -> Notification {
    let params = format!(
        r#"{{"textDocument":{{"uri":"{uri}","languageId":"lc3","version":1,"text":{}}}}}"#,
        Value::String(text.to_string())
    );
    Notification { method: "textDocument/didOpen".to_string(), params: json(&params) }
}

fn change_note(uri: &str, texts: &[&str]) -> Notification {
    let changes: Vec<String> = texts
        .iter()
        .map(|t| format!(r#"{{"text":{}}}"#, Value::String(t.to_string())))
        .collect();
    let params = format!(
        r#"{{"textDocument":{{"uri":"{uri}","version":2}},"contentChanges":[{}]}}"#,
        changes.join(",")
    );
    Notification { method: "textDocument/didChange".to_string(), params: json(&params) }
}

fn completion_request(id: i32, uri: &str, line: u32, character: u32) -> Request {
    let params = format!(
        r#"{{"textDocument":{{"uri":"{uri}"}},"position":{{"line":{line},"character":{character}}}}}"#
    );
    Request {
        id: RequestId::from(id),
        method: "textDocument/completion".to_string(),
        params: json(&params),
    }
}

fn completion_labels(action: Action, id: i32) -> Vec<String> {
    match action {
        Action::Respond(resp) => {
            assert_eq!(resp.id, RequestId::from(id));
            match resp.body {
                ResponseBody::Completion(items) => {
                    items.iter().map(|i: &CompletionItem| i.label.clone()).collect()
                },
                other => panic!("not a completion list: {other:?}"),
            }
        },
        other => panic!("not a response: {other:?}"),
    }
}

fn assert_published(action: Action, uri: &str) {
    match action {
        Action::Publish(PublishDiagnostics { uri: u, diagnostics, version }) => {
            assert_eq!(u, uri);
            assert_eq!(version, None);
            assert_eq!(diagnostics.len(), 1);
            let d = &diagnostics[0];
            assert_eq!(d.severity, DiagnosticSeverity::Information);
            assert_eq!((d.range.start.line, d.range.start.character), (0, 0));
            assert_eq!((d.range.end.line, d.range.end.character), (0, 1));
            assert_eq!(d.source, "minimal_lsp");
            assert_eq!(d.message, "dummy diagnostic");
        },
        other => panic!("nothing published: {other:?}"),
    }
}

#[test]
fn unknown_request_gets_method_not_found() {
    let d = Dispatcher::new();
    let mut docs = DocumentStore::new();
    let req = Request {
        id: RequestId::from("abc".to_string()),
        method: "textDocument/hover".to_string(),
        params: Value::Null,
    };
    match d.handle_request(req, &mut docs) {
        Action::Respond(resp) => {
            assert_eq!(resp.id, RequestId::from("abc".to_string()));
            match resp.body {
                ResponseBody::Error { kind, message } => {
                    assert_eq!(kind, ErrorKind::MethodNotFound);
                    assert_eq!(message, "unhandled method");
                },
                other => panic!("not an error: {other:?}"),
            }
        },
        other => panic!("not a response: {other:?}"),
    }
}

#[test]
fn shutdown_stops() {
    let d = Dispatcher::new();
    let mut docs = DocumentStore::new();
    let req = Request { id: RequestId::from(9), method: "shutdown".to_string(), params: Value::Null };
    assert!(matches!(d.handle_request(req, &mut docs), Action::Stop));
}

#[test]
fn definition_is_empty() {
    let d = Dispatcher::new();
    let mut docs = DocumentStore::new();
    let req = Request {
        id: RequestId::from(4),
        method: "textDocument/definition".to_string(),
        params: Value::Null,
    };
    match d.handle_request(req, &mut docs) {
        Action::Respond(resp) => {
            assert_eq!(resp.id, RequestId::from(4));
            assert!(matches!(resp.body, ResponseBody::Definition));
        },
        other => panic!("not a response: {other:?}"),
    }
}

#[test]
fn malformed_completion_params_get_invalid_params() {
    let d = Dispatcher::new();
    let mut docs = DocumentStore::new();
    let req = Request {
        id: RequestId::from(5),
        method: "textDocument/completion".to_string(),
        params: json(r#"{"position":7}"#),
    };
    match d.handle_request(req, &mut docs) {
        Action::Respond(resp) => match resp.body {
            ResponseBody::Error { kind, message } => {
                assert_eq!(kind, ErrorKind::InvalidParams);
                assert_eq!(message, "invalid params");
            },
            other => panic!("not an error: {other:?}"),
        },
        other => panic!("not a response: {other:?}"),
    }
}

#[test]
fn open_then_complete_after_add() {
    let d = Dispatcher::new();
    let mut docs = DocumentStore::new();
    assert_published(d.handle_notification(open_note("file:///a.asm", "ADD "), &mut docs), "file:///a.asm");
    let labels = completion_labels(
        d.handle_request(completion_request(1, "file:///a.asm", 0, 4), &mut docs),
        1,
    );
    assert_eq!(labels, vec!["R0", "R1", "R2", "R3", "R4", "R5", "R6", "R7"]);
}

#[test]
fn open_add_r0_comma_then_complete_at_end_of_line() {
    let d = Dispatcher::new();
    let mut docs = DocumentStore::new();
    d.handle_notification(open_note("file:///a.asm", "ADD R0, "), &mut docs);
    let labels = completion_labels(
        d.handle_request(completion_request(2, "file:///a.asm", 0, 8), &mut docs),
        2,
    );
    assert_eq!(labels.len(), 29);
    assert_eq!(labels[0], "ADD");
    assert_eq!(labels[24], ".ORIG");
}

#[test]
fn open_empty_then_complete() {
    let d = Dispatcher::new();
    let mut docs = DocumentStore::new();
    d.handle_notification(open_note("file:///e.asm", ""), &mut docs);
    let labels = completion_labels(
        d.handle_request(completion_request(3, "file:///e.asm", 0, 0), &mut docs),
        3,
    );
    assert_eq!(labels.len(), 29);
    assert_eq!(&labels[..3], &["ADD", "AND", "BR"]);
    assert_eq!(&labels[24..], &[".ORIG", ".END", ".FILL", ".BLKW", ".STRINGZ"]);
}

#[test]
fn open_partial_directive_then_complete() {
    let d = Dispatcher::new();
    let mut docs = DocumentStore::new();
    d.handle_notification(open_note("file:///s.asm", ".ST"), &mut docs);
    let labels = completion_labels(
        d.handle_request(completion_request(4, "file:///s.asm", 0, 3), &mut docs),
        4,
    );
    assert_eq!(labels, vec![".ORIG", ".END", ".FILL", ".BLKW", ".STRINGZ"]);
}

#[test]
fn change_of_unopened_document_publishes() {
    let d = Dispatcher::new();
    let mut docs = DocumentStore::new();
    let action = d.handle_notification(change_note("file:///new.asm", &["TRAP "]), &mut docs);
    assert_published(action, "file:///new.asm");
    assert_eq!(docs.get("file:///new.asm").map(String::as_str), Some("TRAP "));
}

#[test]
fn change_uses_first_content_change_only() {
    let d = Dispatcher::new();
    let mut docs = DocumentStore::new();
    d.handle_notification(open_note("file:///c.asm", "old"), &mut docs);
    let action = d.handle_notification(change_note("file:///c.asm", &["first", "second"]), &mut docs);
    assert_published(action, "file:///c.asm");
    assert_eq!(docs.get("file:///c.asm").map(String::as_str), Some("first"));
    let action = d.handle_notification(change_note("file:///c.asm", &[]), &mut docs);
    assert!(matches!(action, Action::Ignore));
    assert_eq!(docs.get("file:///c.asm").map(String::as_str), Some("first"));
}

#[test]
fn unknown_and_malformed_notifications() {
    let d = Dispatcher::new();
    let mut docs = DocumentStore::new();
    let note = Notification { method: "initialized".to_string(), params: Value::Null };
    assert!(matches!(d.handle_notification(note, &mut docs), Action::Ignore));
    let note = Notification { method: "textDocument/didOpen".to_string(), params: json("[1]") };
    assert!(matches!(
        d.handle_notification(note, &mut docs),
        Action::Failed(ProtocolError::MalformedParams)
    ));
    assert_eq!(docs.get("file:///a.asm"), None);
}

#[test]
fn completion_on_unopened_document_uses_empty_text() {
    let d = Dispatcher::new();
    let mut docs = DocumentStore::new();
    let labels = completion_labels(
        d.handle_request(completion_request(6, "file:///none.asm", 3, 2), &mut docs),
        6,
    );
    assert_eq!(labels.len(), 29);
}

#[test]
fn dispatch_routes_each_kind_of_message() {
    let d = Dispatcher::new();
    let mut docs = DocumentStore::new();
    let a = d.dispatch(Message::Notification(open_note("file:///m.asm", "  TRAP ")), &mut docs);
    assert_published(a, "file:///m.asm");
    let a = d.dispatch(Message::Request(completion_request(7, "file:///m.asm", 0, 7)), &mut docs);
    assert_eq!(completion_labels(a, 7), vec!["GETC", "OUT", "PUTS", "IN", "PUTSP", "HALT"]);
    assert!(matches!(d.dispatch(Message::Response(RequestId::from(1)), &mut docs), Action::Ignore));
}

#[test]
fn routing_table_lookups() {
    let d = Dispatcher::new();
    assert_eq!(
        d.request_handler(&"textDocument/completion".to_string()),
        Some(RequestHandler::Completion)
    );
    assert_eq!(
        d.request_handler(&"textDocument/definition".to_string()),
        Some(RequestHandler::Definition)
    );
    assert_eq!(d.request_handler(&"textDocument/Completion".to_string()), None);
    assert_eq!(
        d.notification_handler(&"textDocument/didChange".to_string()),
        Some(NotificationHandler::DidChange)
    );
    assert_eq!(d.notification_handler(&"textDocument/didClose".to_string()), None);
    assert!(d.is_shutdown_method(&"shutdown".to_string()));
    assert!(!d.is_shutdown_method(&"exit".to_string()));
}

#[test]
fn handlers_on_decoded_params() {
    let mut docs = DocumentStore::new();
    let a = apply_did_open(Ok(("u".to_string(), "AND ".to_string())), &mut docs);
    assert_published(a, "u");
    let body = answer_completion(Ok(("u".to_string(), lc3_lsp::completion::Position::new(0, 4))), &docs);
    match body {
        ResponseBody::Completion(items) => assert_eq!(items.len(), 8),
        other => panic!("{other:?}"),
    }
    let body = answer_completion(Err(ProtocolError::MalformedParams), &docs);
    assert!(matches!(body, ResponseBody::Error { kind: ErrorKind::InvalidParams, .. }));
    let a = apply_did_change(Err(ProtocolError::MalformedParams), &mut docs);
    assert!(matches!(a, Action::Failed(ProtocolError::MalformedParams)));
    let a = apply_did_change(Ok(("u".to_string(), vec![])), &mut docs);
    assert!(matches!(a, Action::Ignore));
    assert_eq!(docs.get("u").map(String::as_str), Some("AND "));
}
