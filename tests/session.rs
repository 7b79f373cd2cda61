use coldfusion_ls::config::Config;
use coldfusion_ls::dispatcher::{
    on_notification, on_request, result_to_response, respond_with, DocumentParams,
    NotificationDispatcher, NotificationOutcome, RequestDispatcher,
};
use coldfusion_ls::dispatcher::EventOutcome;
use coldfusion_ls::from_proto::vfs_path;
use coldfusion_ls::lsp::Message;
use coldfusion_ls::global_state::GlobalState;
use coldfusion_ls::handlers::{
    handle_cancel, handle_did_change_text_document, handle_did_close_text_document,
    handle_did_open_text_document,
};
use coldfusion_ls::lsp::{
    Cancelled, HandlerError, LspError, Notification, Request, RequestId, Response,
    INTERNAL_ERROR, INVALID_PARAMS, INVALID_REQUEST, METHOD_NOT_FOUND, REQUEST_CANCELED,
};
use coldfusion_ls::vfs::Change;
use coldfusion_ls::vfs_path::{AbsPathBuf, VirtualFsPath};
use std::time::Instant;

fn config() -> Config {
    Config::new(
        AbsPathBuf::try_from("/tmp").unwrap(),
        lsp_types::ClientCapabilities::default(),
        vec![AbsPathBuf::try_from("/tmp").unwrap()],
    )
}

fn request(id: i32, method: &str, params: serde_json::Value) -> Request {
    Request { id: RequestId::Number(id), method: method.to_string(), params }
}

fn error_code(response: &Response) -> Option<i32> {
    response.error.as_ref().map(|e| e.code)
}

#[test]
fn test_request_dispatcher() {
    let mut global_state = GlobalState::new(config());
    let mut dispatcher = RequestDispatcher {
        req: Some(request(1, "shutdown", serde_json::Value::Null)),
    };
    dispatcher.finish(&mut global_state);
    assert!(dispatcher.req.is_none());
}

#[test]
fn test_notification_dispatcher() {
    let mut dispatcher = NotificationDispatcher {
        notification: Some(Notification {
            method: "textDocument/didOpen".to_string(),
            params: serde_json::Value::Null,
        }),
    };
    let report = dispatcher.finish();
    assert!(report);
    assert!(dispatcher.notification.is_some());
}

#[test]
fn test_result_to_response() {
    let id = RequestId::Number(1);
    let response = result_to_response(id, Ok(serde_json::Value::Null));
    assert!(response.is_ok());
}

#[test]
fn result_to_response_maps_each_failure() {
    let lsp = result_to_response(
        RequestId::Number(2),
        Err(HandlerError::Lsp(LspError::new(-32001, "boom".to_string()))),
    )
    .unwrap();
    assert_eq!(error_code(&lsp), Some(-32001));
    assert_eq!(lsp.error.unwrap().message, "boom");

    let other = result_to_response(
        RequestId::Number(3),
        Err(HandlerError::Other("disk on fire".to_string())),
    )
    .unwrap();
    assert_eq!(error_code(&other), Some(INTERNAL_ERROR));
    assert_eq!(other.error.unwrap().message, "disk on fire");

    let cancelled = result_to_response(
        RequestId::Number(4),
        Err(HandlerError::Cancelled(Cancelled::PendingWrite)),
    );
    assert_eq!(cancelled.unwrap_err(), Cancelled::PendingWrite);
}

#[test]
fn cancelled_descriptions() {
    assert_eq!(Cancelled::PendingWrite.describe(), "cancelled because of pending write");
    assert_eq!(
        Cancelled::PropagatedPanic.describe(),
        "cancelled because of propagated panic"
    );
}

#[test]
fn unknown_method_gets_one_method_not_found() {
    let mut state = GlobalState::new(config());
    let req = request(7, "textDocument/hover", serde_json::Value::Null);
    state.register_request(&req, Instant::now());
    let mut dispatcher = RequestDispatcher { req: Some(req) };
    let first: Option<(Request, ())> =
        dispatcher.parse(&mut state, "shutdown", |_| Ok(()));
    assert!(first.is_none());
    let second: Option<(Request, ())> =
        dispatcher.parse(&mut state, "textDocument/completion", |_| Ok(()));
    assert!(second.is_none());
    assert!(dispatcher.req.is_some());
    dispatcher.finish(&mut state);
    let sent = state.take_outbox();
    assert_eq!(sent.len(), 1);
    assert_eq!(sent[0].id, RequestId::Number(7));
    assert_eq!(error_code(&sent[0]), Some(METHOD_NOT_FOUND));
}

#[test]
fn malformed_params_get_one_invalid_params_and_no_handler() {
    let mut state = GlobalState::new(config());
    let req = request(8, "textDocument/completion", serde_json::Value::Null);
    state.register_request(&req, Instant::now());
    let mut dispatcher = RequestDispatcher { req: Some(req) };
    let mut handler_ran = false;
    let parsed: Option<(Request, u32)> = dispatcher.parse(
        &mut state,
        "textDocument/completion",
        |v| serde_json::from_value::<u32>(v.clone()).map_err(|e| e.to_string()),
    );
    if let Some(_) = parsed {
        handler_ran = true;
    }
    assert!(!handler_ran);
    dispatcher.finish(&mut state);
    let sent = state.take_outbox();
    assert_eq!(sent.len(), 1);
    assert_eq!(sent[0].id, RequestId::Number(8));
    assert_eq!(error_code(&sent[0]), Some(INVALID_PARAMS));
}

#[test]
fn matching_request_is_handed_out() {
    let mut state = GlobalState::new(config());
    let req = request(9, "shutdown", serde_json::Value::Null);
    state.register_request(&req, Instant::now());
    let mut dispatcher = RequestDispatcher { req: Some(req) };
    let parsed: Option<(Request, ())> = dispatcher.parse(&mut state, "shutdown", |_| Ok(()));
    let (taken, ()) = parsed.unwrap();
    assert!(dispatcher.req.is_none());
    respond_with(&mut state, taken.id, Ok(serde_json::Value::Null));
    let sent = state.take_outbox();
    assert_eq!(sent.len(), 1);
    assert_eq!(sent[0].result, Some(serde_json::Value::Null));
}

#[test]
fn request_after_shutdown_is_invalid() {
    let mut state = GlobalState::new(config());
    state.request_shutdown();
    let req = request(10, "textDocument/completion", serde_json::Value::Null);
    state.register_request(&req, Instant::now());
    let mut dispatcher = RequestDispatcher { req: Some(req) };
    dispatcher.reject_after_shutdown(&mut state);
    dispatcher.finish(&mut state);
    let sent = state.take_outbox();
    assert_eq!(sent.len(), 1);
    assert_eq!(error_code(&sent[0]), Some(INVALID_REQUEST));
}

#[test]
fn cancel_answers_once_and_drops_late_response() {
    let mut state = GlobalState::new(config());
    let req = Request {
        id: RequestId::Text("r".to_string()),
        method: "textDocument/completion".to_string(),
        params: serde_json::Value::Null,
    };
    state.register_request(&req, Instant::now());
    handle_cancel(&mut state, RequestId::Text("r".to_string()));
    state.respond(Response::new_ok(RequestId::Text("r".to_string()), serde_json::Value::Null));
    handle_cancel(&mut state, RequestId::Text("r".to_string()));
    let sent = state.take_outbox();
    assert_eq!(sent.len(), 1);
    assert_eq!(sent[0].id, RequestId::Text("r".to_string()));
    assert_eq!(error_code(&sent[0]), Some(REQUEST_CANCELED));
    assert_eq!(sent[0].error.as_ref().unwrap().message, "canceled by client");
}

#[test]
fn number_and_text_ids_differ() {
    let mut state = GlobalState::new(config());
    state.register_request(&request(1, "x", serde_json::Value::Null), Instant::now());
    state.respond(Response::new_ok(RequestId::Text("1".to_string()), serde_json::Value::Null));
    assert!(state.take_outbox().is_empty());
    state.respond(Response::new_ok(RequestId::Number(1), serde_json::Value::Null));
    assert_eq!(state.take_outbox().len(), 1);
}

#[test]
fn response_to_unknown_outgoing_request_is_reported() {
    let mut state = GlobalState::new(config());
    let response = Response::new_ok(RequestId::Number(0), serde_json::Value::Null);
    assert_eq!(state.complete_request(&response), None);
}

#[test]
fn unhandled_reserved_notification_is_not_reported() {
    let dispatcher = NotificationDispatcher {
        notification: Some(Notification {
            method: "$/setTrace".to_string(),
            params: serde_json::Value::Null,
        }),
    };
    assert!(!dispatcher.finish());
    let empty = NotificationDispatcher { notification: None };
    assert!(!empty.finish());
}

#[test]
fn notification_parse_routes_by_method() {
    let mut dispatcher = NotificationDispatcher {
        notification: Some(Notification {
            method: "$/cancelRequest".to_string(),
            params: serde_json::Value::from(5),
        }),
    };
    let missed: Result<Option<()>, String> = dispatcher.parse("exit", |_| Ok(()));
    assert_eq!(missed, Ok(None));
    assert!(dispatcher.notification.is_some());
    let hit: Result<Option<i64>, String> = dispatcher.parse("$/cancelRequest", |v| {
        serde_json::from_value::<i64>(v.clone()).map_err(|e| e.to_string())
    });
    assert_eq!(hit, Ok(Some(5)));
    assert!(dispatcher.notification.is_none());
}

#[test]
fn document_lifecycle() {
    let mut state = GlobalState::new(config());
    let d = VirtualFsPath::new_real_path("/doc.cfm".to_string());
    assert_eq!(handle_did_open_text_document(&mut state, d.clone(), "one".to_string(), 1), Ok(()));
    assert_eq!(
        handle_did_change_text_document(&mut state, d.clone(), "two".to_string(), 2),
        Ok(())
    );
    let doc = state.get_document(&d).unwrap();
    assert_eq!(doc.version, 2);
    assert_eq!(doc.data, b"two".to_vec());
    assert_eq!(handle_did_close_text_document(&mut state, &d), Ok(()));
    assert!(state.get_document(&d).is_none());
}

#[test]
fn change_of_unopened_document_changes_nothing() {
    let mut state = GlobalState::new(config());
    let d = VirtualFsPath::new_real_path("/never.cfm".to_string());
    assert_eq!(handle_did_change_text_document(&mut state, d.clone(), "x".to_string(), 3), Err(()));
    assert!(state.get_document(&d).is_none());
    assert_eq!(handle_did_close_text_document(&mut state, &d), Err(()));
}

#[test]
fn duplicate_open_is_reported_and_overwrites() {
    let mut state = GlobalState::new(config());
    let d = VirtualFsPath::new_real_path("/dup.cfm".to_string());
    assert_eq!(handle_did_open_text_document(&mut state, d.clone(), "a".to_string(), 1), Ok(()));
    assert_eq!(handle_did_open_text_document(&mut state, d.clone(), "b".to_string(), 4), Err(()));
    assert_eq!(state.get_document(&d).unwrap().version, 4);
}

#[test]
fn open_and_close_scenario() {
    let url = lsp_types::Url::parse("file:///a.cfc").unwrap();
    let path = vfs_path(&url).unwrap();
    assert_eq!(path, VirtualFsPath::new_real_path("/a.cfc".to_string()));
    let mut state = GlobalState::new(config());
    let text = "<cfoutput>x</cfoutput>".to_string();
    assert_eq!(handle_did_open_text_document(&mut state, path.clone(), text.clone(), 1), Ok(()));
    assert_eq!(state.get_document(&path).unwrap().version, 1);
    assert!(state.vfs().file_id(&path).is_some());
    assert_eq!(handle_did_close_text_document(&mut state, &path), Ok(()));
    assert!(state.get_document(&path).is_none());
    let id = state.vfs().file_id(&path).unwrap();
    let changes = state.take_file_changes();
    assert_eq!(changes.len(), 1);
    assert_eq!(changes[0].file_id, id);
    assert_eq!(changes[0].change, Change::Create(text.into_bytes()));
}

#[test]
fn url_without_file_path_is_refused() {
    let url = lsp_types::Url::parse("untitled:Untitled-1").unwrap();
    assert!(vfs_path(&url).is_err());
}

#[test]
fn snapshot_does_not_see_later_changes() {
    let mut state = GlobalState::new(config());
    let d = VirtualFsPath::new_real_path("/snap.cfm".to_string());
    let snap = state.snapshot();
    let _ = handle_did_open_text_document(&mut state, d.clone(), "x".to_string(), 1);
    assert!(snap.mem_docs.get(&d).is_none());
    assert!(state.snapshot().mem_docs.get(&d).is_some());
}

#[test]
fn shutdown_then_other_request_is_invalid() {
    let mut state = GlobalState::new(config());
    let shutdown = request(20, "shutdown", serde_json::Value::Null);
    state.register_request(&shutdown, Instant::now());
    on_request(
        &mut state,
        shutdown,
        |_| Err::<(), String>("unused".to_string()),
        |_, _| Ok(serde_json::Value::Null),
    );
    assert!(state.is_shutting_down());
    let hover = request(21, "textDocument/hover", serde_json::Value::Null);
    state.register_request(&hover, Instant::now());
    on_request(
        &mut state,
        hover,
        |_| Err::<(), String>("unused".to_string()),
        |_, _| Ok(serde_json::Value::Null),
    );
    let sent = state.take_outbox();
    assert_eq!(sent.len(), 2);
    assert_eq!(sent[0].id, RequestId::Number(20));
    assert_eq!(sent[0].result, Some(serde_json::Value::Null));
    assert_eq!(sent[1].id, RequestId::Number(21));
    assert_eq!(error_code(&sent[1]), Some(INVALID_REQUEST));
}

#[test]
fn on_request_runs_completion_handler_with_snapshot() {
    let mut state = GlobalState::new(config());
    let req = request(30, "textDocument/completion", serde_json::Value::from(3));
    state.register_request(&req, Instant::now());
    on_request(
        &mut state,
        req,
        |v| serde_json::from_value::<u32>(v.clone()).map_err(|e| e.to_string()),
        |snapshot, n: u32| {
            assert!(snapshot.mem_docs.get(&VirtualFsPath::new_real_path("/x".to_string())).is_none());
            Ok(serde_json::Value::from(n + 1))
        },
    );
    let sent = state.take_outbox();
    assert_eq!(sent.len(), 1);
    assert_eq!(sent[0].result, Some(serde_json::Value::from(4)));
}

#[test]
fn on_request_unknown_method_not_found() {
    let mut state = GlobalState::new(config());
    let req = request(31, "workspace/symbol", serde_json::Value::Null);
    state.register_request(&req, Instant::now());
    on_request(
        &mut state,
        req,
        |_| Ok::<(), String>(()),
        |_, _| Ok(serde_json::Value::Null),
    );
    let sent = state.take_outbox();
    assert_eq!(sent.len(), 1);
    assert_eq!(error_code(&sent[0]), Some(METHOD_NOT_FOUND));
}

#[test]
fn cancelled_handler_sends_nothing() {
    let mut state = GlobalState::new(config());
    let req = request(32, "textDocument/completion", serde_json::Value::Null);
    state.register_request(&req, Instant::now());
    respond_with(
        &mut state,
        RequestId::Number(32),
        Err(HandlerError::Cancelled(Cancelled::PropagatedPanic)),
    );
    assert!(state.take_outbox().is_empty());
}

#[test]
fn new_request_for_unknown_method_is_answered_once() {
    let mut state = GlobalState::new(config());
    coldfusion_ls::dispatcher::on_new_request(
        &mut state,
        Instant::now(),
        request(40, "textDocument/definition", serde_json::Value::Null),
        |_| Ok::<(), String>(()),
        |_, _| Ok(serde_json::Value::Null),
    );
    let sent = state.take_outbox();
    assert_eq!(sent.len(), 1);
    assert_eq!(sent[0].id, RequestId::Number(40));
    assert_eq!(error_code(&sent[0]), Some(METHOD_NOT_FOUND));
    assert_eq!(sent[0].error.as_ref().unwrap().message, "unknown request");
}

fn doc_params(uri: &str, text: &str, version: i32) -> DocumentParams {
    DocumentParams {
        path: vfs_path(&lsp_types::Url::parse(uri).unwrap()),
        text: text.to_string(),
        version,
    }
}

fn notify(state: &mut GlobalState, method: &str, params: serde_json::Value) -> NotificationOutcome {
    on_notification(
        state,
        Notification { method: method.to_string(), params },
        |v| {
            serde_json::from_value::<i32>(v.clone())
                .map(RequestId::Number)
                .map_err(|e| e.to_string())
        },
        |v| {
            let (uri, text, version): (String, String, i32) =
                serde_json::from_value(v.clone()).map_err(|e| e.to_string())?;
            Ok(doc_params(&uri, &text, version))
        },
        |v| {
            let (uri, text, version): (String, String, i32) =
                serde_json::from_value(v.clone()).map_err(|e| e.to_string())?;
            Ok(doc_params(&uri, &text, version))
        },
        |v| {
            let uri: String = serde_json::from_value(v.clone()).map_err(|e| e.to_string())?;
            Ok(vfs_path(&lsp_types::Url::parse(&uri).unwrap()))
        },
    )
}

#[test]
fn notifications_drive_the_document_lifecycle() {
    let mut state = GlobalState::new(config());
    let open = serde_json::from_str(r#"["file:///a.cfc", "<cfoutput>x</cfoutput>", 1]"#).unwrap();
    assert_eq!(notify(&mut state, "textDocument/didOpen", open), NotificationOutcome::Handled);
    let again = serde_json::from_str(r#"["file:///a.cfc", "y", 2]"#).unwrap();
    assert_eq!(notify(&mut state, "textDocument/didOpen", again), NotificationOutcome::DuplicateOpen);
    let change = serde_json::from_str(r#"["file:///a.cfc", "z", 3]"#).unwrap();
    assert_eq!(notify(&mut state, "textDocument/didChange", change), NotificationOutcome::Handled);
    let path = VirtualFsPath::new_real_path("/a.cfc".to_string());
    assert_eq!(state.get_document(&path).unwrap().version, 3);
    let close = serde_json::Value::from("file:///a.cfc");
    assert_eq!(notify(&mut state, "textDocument/didClose", close.clone()), NotificationOutcome::Handled);
    assert_eq!(notify(&mut state, "textDocument/didClose", close), NotificationOutcome::UnknownDocument);
    assert!(state.get_document(&path).is_none());
}

#[test]
fn notification_outcomes_for_other_methods() {
    let mut state = GlobalState::new(config());
    assert_eq!(
        notify(&mut state, "workspace/didChangeConfiguration", serde_json::Value::Null),
        NotificationOutcome::Unhandled
    );
    assert_eq!(notify(&mut state, "$/setTrace", serde_json::Value::Null), NotificationOutcome::Ignored);
    assert!(matches!(
        notify(&mut state, "textDocument/didOpen", serde_json::Value::Null),
        NotificationOutcome::Malformed(_)
    ));
    let untitled = serde_json::from_str(r#"["untitled:Untitled-1", "x", 1]"#).unwrap();
    assert!(matches!(
        notify(&mut state, "textDocument/didOpen", untitled),
        NotificationOutcome::NotAFile(_)
    ));
}

#[test]
fn cancel_notification_answers_pending_request() {
    let mut state = GlobalState::new(config());
    state.register_request(&request(50, "textDocument/completion", serde_json::Value::Null), Instant::now());
    assert_eq!(
        notify(&mut state, "$/cancelRequest", serde_json::Value::from(50)),
        NotificationOutcome::Handled
    );
    let sent = state.take_outbox();
    assert_eq!(sent.len(), 1);
    assert_eq!(error_code(&sent[0]), Some(REQUEST_CANCELED));
}

#[test]
fn snapshot_shares_file_system_until_it_changes() {
    let mut state = GlobalState::new(config());
    let a = VirtualFsPath::new_real_path("/a.cfm".to_string());
    let b = VirtualFsPath::new_real_path("/b.cfm".to_string());
    let _ = handle_did_open_text_document(&mut state, a.clone(), "x".to_string(), 1);
    let snap = state.snapshot();
    assert!(snap.vfs.file_id(&a).is_some());
    let _ = handle_did_open_text_document(&mut state, b.clone(), "y".to_string(), 1);
    assert!(snap.vfs.file_id(&b).is_none());
    assert!(state.vfs().file_id(&b).is_some());
    assert!(state.vfs().file_id(&a).is_some());
}

fn event(state: &mut GlobalState, msg: coldfusion_ls::lsp::Message) -> coldfusion_ls::dispatcher::EventOutcome {
    coldfusion_ls::dispatcher::handle_event(
        state,
        msg,
        Instant::now(),
        |_| Ok::<(), String>(()),
        |_, _| Ok(serde_json::Value::Null),
        |v| serde_json::from_value::<i32>(v.clone()).map(RequestId::Number).map_err(|e| e.to_string()),
        |_| Err::<DocumentParams, String>("unused".to_string()),
        |_| Err::<DocumentParams, String>("unused".to_string()),
        |_| Err::<Result<VirtualFsPath, String>, String>("unused".to_string()),
    )
}

#[test]
fn handle_event_routes_by_kind() {
    let mut state = GlobalState::new(config());
    let exit = Message::Notification(Notification { method: "exit".to_string(), params: serde_json::Value::Null });
    assert_eq!(event(&mut state, exit), EventOutcome::Exit);
    let req = Message::Request(request(60, "textDocument/hover", serde_json::Value::Null));
    assert_eq!(event(&mut state, req), EventOutcome::Request);
    let sent = state.take_outbox();
    assert_eq!(sent.len(), 1);
    assert_eq!(error_code(&sent[0]), Some(METHOD_NOT_FOUND));
    let bad = Message::Notification(Notification {
        method: "textDocument/didOpen".to_string(),
        params: serde_json::Value::Null,
    });
    assert!(matches!(event(&mut state, bad), EventOutcome::Notification(NotificationOutcome::Malformed(_))));
    let resp = Message::Response(Response::new_ok(RequestId::Number(1), serde_json::Value::Null));
    assert_eq!(event(&mut state, resp), EventOutcome::Response(None));
}
