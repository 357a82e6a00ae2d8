use rcopy::clipboard::{ClipboardError, MemoryClipboard};
use rcopy::hash::content_hash;
use rcopy::ipc::{dispatch_request, Dispatch, IpcRequest, IpcResponse};
use rcopy::item::{ClipboardItem, ClipboardPayload};
use rcopy::paste::{DisabledPasteBackend, PasteError};
use rcopy::service::{
    capture_once, CaptureResult, DaemonService, RestoreResponse,
    ServiceError,
};
use rcopy::restore::{RestoreFlow, RestoreOutcome, RestoreStep};
use rcopy::storage::Repository;

fn new_item_id() -> u128 {
    uuid::Uuid::new_v4().as_u128()
}

fn now_nanos() -> Option<i128> {
    let now = chrono::Utc::now();
    Some(i128::from(now.timestamp()) * 1_000_000_000 + i128::from(now.timestamp_subsec_nanos()))
}

fn empty_payload() -> ClipboardPayload {
    ClipboardPayload {
        text_plain: None,
        text_html: None,
        image_png: None,
    }
}

fn make_service_item(text: &str) -> ClipboardItem {
    let now = now_nanos().unwrap();
    let payload = ClipboardPayload {
        text_plain: Some(text.to_string()),
        text_html: None,
        image_png: None,
    };

    ClipboardItem {
        id: new_item_id(),
        created_at: now,
        last_used_at: now,
        content_hash: content_hash(&payload),
        mime_types: vec!["text/plain".to_string()],
        payload,
        is_pinned: false,
        is_favorite: false,
        deleted_at: None,
    }
}

/// Runs a restore through the library's steps, doing the clipboard write
/// on `clipboard` and the paste with the service's paste backend.
fn restore(
    service: &mut DaemonService<MemoryClipboard, DisabledPasteBackend>,
    id: u128,
    auto_paste: bool,
    plain_text_only: bool,
    clipboard: &mut MemoryClipboard,
) -> Result<RestoreResponse, ServiceError> {
    let (mut flow, mut step) = service.begin_restore(id, auto_paste, plain_text_only);
    loop {
        step = match step {
            RestoreStep::Write(payload) => {
                flow.step(RestoreOutcome::Written(clipboard.write_payload(&payload)))
            }
            RestoreStep::RecordUse(_) => service.record_restore_use(&mut flow, now_nanos().unwrap()),
            RestoreStep::Paste => {
                let pasted = service.paste_backend().paste().is_ok();
                flow.step(RestoreOutcome::Pasted(pasted))
            }
            RestoreStep::Finish(result) => return result,
        };
    }
}

#[test]
fn capture_ignores_empty_payloads() {
    let mut repo = Repository::open_in_memory().unwrap();
    let clipboard = MemoryClipboard::new(empty_payload());

    let payload = clipboard.read_supported().unwrap();
    let result = capture_once(&mut repo, payload, new_item_id(), now_nanos().unwrap()).unwrap();

    assert_eq!(result, CaptureResult::IgnoredEmpty);
}

#[test]
fn capture_returns_persisted_id_for_duplicate_payloads() {
    let mut repo = Repository::open_in_memory().unwrap();
    let clipboard = MemoryClipboard::new(ClipboardPayload {
        text_plain: Some("alpha".into()),
        text_html: None,
        image_png: None,
    });

    let first = capture_once(
        &mut repo,
        clipboard.read_supported().unwrap(),
        new_item_id(),
        now_nanos().unwrap(),
    )
    .unwrap();
    let second = capture_once(
        &mut repo,
        clipboard.read_supported().unwrap(),
        new_item_id(),
        now_nanos().unwrap(),
    )
    .unwrap();

    assert_eq!(repo.search("alpha").unwrap().len(), 1);
    assert_eq!(second, first);
}

#[test]
fn dispatch_returns_json_error_for_service_errors() {
    let mut repo = Repository::open_in_memory().unwrap();
    let mut service = DaemonService::new(repo, MemoryClipboard::new(empty_payload()), DisabledPasteBackend);
    let missing = new_item_id();

    let response = dispatch_request(IpcRequest::Delete { id: missing }, &mut service, now_nanos().unwrap());

    match response {
        Dispatch::Done(reply) => assert_eq!(
            reply,
            IpcResponse::Failure {
                message: format!("item not found: {}", uuid::Uuid::from_u128(missing))
            }
        ),
        other => panic!("expected a reply, got {other:?}"),
    }
}

#[test]
fn restore_writes_clipboard_even_when_paste_fails() {
    let mut repo = Repository::open_in_memory().unwrap();
    let item = make_service_item("alpha");
    let item_id = repo.upsert_item(&item).unwrap();
    let mut clipboard = MemoryClipboard::new(empty_payload());
    let mut service = DaemonService::new(repo, clipboard.clone(), DisabledPasteBackend);

    let response = restore(&mut service, item_id, true, false, &mut clipboard).unwrap();

    assert!(response.paste_attempted);
    assert!(!response.paste_succeeded);
    assert_eq!(
        clipboard.last_written().unwrap().text_plain.as_deref(),
        Some("alpha")
    );
}

#[test]
fn restore_updates_last_used_at() {
    let mut repo = Repository::open_in_memory().unwrap();
    let older = make_service_item("older");
    let newer = make_service_item("newer");
    let older_id = repo.upsert_item(&older).unwrap();
    let newer_id = repo.upsert_item(&newer).unwrap();
    let mut clipboard = MemoryClipboard::new(empty_payload());
    let mut service = DaemonService::new(repo, clipboard.clone(), DisabledPasteBackend);

    assert_eq!(service.search("").unwrap()[0].id, newer_id);
    restore(&mut service, older_id, false, false, &mut clipboard).unwrap();

    assert_eq!(service.search("").unwrap()[0].id, older_id);
}

#[test]
fn restore_plain_text_only_writes_only_plain_text() {
    let mut repo = Repository::open_in_memory().unwrap();
    let now = now_nanos().unwrap();
    let payload = ClipboardPayload {
        text_plain: Some("alpha".to_string()),
        text_html: Some("<b>alpha</b>".to_string()),
        image_png: Some(vec![1, 2, 3]),
    };
    let item = ClipboardItem {
        id: new_item_id(),
        created_at: now,
        last_used_at: now,
        content_hash: content_hash(&payload),
        mime_types: vec![
            "text/plain".to_string(),
            "text/html".to_string(),
            "image/png".to_string(),
        ],
        payload,
        is_pinned: false,
        is_favorite: false,
        deleted_at: None,
    };
    let item_id = repo.upsert_item(&item).unwrap();
    let mut clipboard = MemoryClipboard::new(empty_payload());
    let mut service = DaemonService::new(repo, clipboard.clone(), DisabledPasteBackend);

    restore(&mut service, item_id, false, true, &mut clipboard).unwrap();

    assert_eq!(
        clipboard.last_written().unwrap(),
        ClipboardPayload {
            text_plain: Some("alpha".to_string()),
            text_html: None,
            image_png: None,
        }
    );
}

#[test]
fn restore_plain_text_only_reports_missing_plain_text() {
    let mut repo = Repository::open_in_memory().unwrap();
    let now = now_nanos().unwrap();
    let payload = ClipboardPayload {
        text_plain: None,
        text_html: Some("<b>alpha</b>".to_string()),
        image_png: None,
    };
    let item = ClipboardItem {
        id: new_item_id(),
        created_at: now,
        last_used_at: now,
        content_hash: content_hash(&payload),
        mime_types: vec!["text/html".to_string()],
        payload,
        is_pinned: false,
        is_favorite: false,
        deleted_at: None,
    };
    let item_id = repo.upsert_item(&item).unwrap();
    let mut clipboard = MemoryClipboard::new(empty_payload());
    let mut service = DaemonService::new(repo, clipboard.clone(), DisabledPasteBackend);

    assert!(matches!(
        restore(&mut service, item_id, false, true, &mut clipboard),
        Err(ServiceError::PlainTextUnavailable(id)) if id == item_id
    ));
}

#[test]
fn service_deletes_pins_favorites_and_searches_items() {
    let mut repo = Repository::open_in_memory().unwrap();
    let item = make_service_item("alpha");
    let item_id = repo.upsert_item(&item).unwrap();
    let mut service = DaemonService::new(repo, MemoryClipboard::new(empty_payload()), DisabledPasteBackend);

    service.set_pinned(item_id, true).unwrap();
    service.set_favorite(item_id, true).unwrap();
    let items = service.search("alpha").unwrap();
    assert_eq!(items.len(), 1);
    assert!(items[0].is_pinned);
    assert!(items[0].is_favorite);

    service.soft_delete(item_id, now_nanos().unwrap()).unwrap();
    assert!(service.search("alpha").unwrap().is_empty());
}

#[test]
fn item_actions_report_not_found_for_missing_ids() {
    let mut repo = Repository::open_in_memory().unwrap();
    let mut service = DaemonService::new(repo, MemoryClipboard::new(empty_payload()), DisabledPasteBackend);
    let missing = new_item_id();

    assert!(matches!(
        service.soft_delete(missing, now_nanos().unwrap()),
        Err(ServiceError::NotFound(id)) if id == missing
    ));
    assert!(matches!(
        service.set_pinned(missing, true),
        Err(ServiceError::NotFound(id)) if id == missing
    ));
    assert!(matches!(
        service.set_favorite(missing, true),
        Err(ServiceError::NotFound(id)) if id == missing
    ));
}

#[test]
fn mock_clipboard_round_trips_payload() {
    let payload = ClipboardPayload {
        text_plain: Some("alpha".into()),
        text_html: Some("<b>alpha</b>".into()),
        image_png: Some(vec![137, 80, 78, 71]),
    };
    let mut clipboard = MemoryClipboard::new(payload.clone());

    assert_eq!(clipboard.read_supported().unwrap(), payload);
    clipboard.write_payload(&payload).unwrap();
    assert_eq!(clipboard.last_written().unwrap(), payload);
}

#[test]
fn disabled_paste_backend_reports_not_available() {
    let paste = DisabledPasteBackend;
    let error = paste.paste().unwrap_err();

    assert!(matches!(error, PasteError::Unavailable(_)));
}

#[test]
fn memory_clipboard_without_writes_is_unavailable() {
    let clipboard = MemoryClipboard::new(empty_payload());
    assert_eq!(clipboard.last_written(), Err(ClipboardError::StateUnavailable));
}

#[test]
fn uuid_text_is_hyphenated_lower_case() {
    let id = 0x0123456789abcdef0123456789abcdefu128;
    assert_eq!(
        ServiceError::NotFound(id).message(),
        "item not found: 01234567-89ab-cdef-0123-456789abcdef"
    );
}

fn step_names(flow: &mut RestoreFlow, first: RestoreStep, written_ok: bool, recorded: bool, pasted: bool) -> Vec<String> {
    let mut names = Vec::new();
    let mut step = first;
    loop {
        step = match step {
            RestoreStep::Write(_) => {
                names.push("write".to_string());
                let written = if written_ok {
                    Ok(())
                } else {
                    Err(ClipboardError::StateUnavailable)
                };
                flow.step(RestoreOutcome::Written(written))
            }
            RestoreStep::RecordUse(_) => {
                names.push("record".to_string());
                flow.step(RestoreOutcome::Recorded(Ok(recorded)))
            }
            RestoreStep::Paste => {
                names.push("paste".to_string());
                flow.step(RestoreOutcome::Pasted(pasted))
            }
            RestoreStep::Finish(result) => {
                names.push(match result {
                    Ok(r) => format!("ok {} {}", r.paste_attempted, r.paste_succeeded),
                    Err(e) => e.message(),
                });
                return names;
            }
        };
    }
}

#[test]
fn restore_writes_once_then_records_then_pastes_only_when_asked() {
    let item = make_service_item("alpha");
    let id = item.id;

    let mut flow = RestoreFlow::new(id, true, false);
    let first = flow.step(RestoreOutcome::Found(Ok(Some(item.clone()))));
    assert_eq!(step_names(&mut flow, first, true, true, false), vec!["write", "record", "paste", "ok true false"]);

    let mut flow = RestoreFlow::new(id, false, false);
    let first = flow.step(RestoreOutcome::Found(Ok(Some(item.clone()))));
    assert_eq!(step_names(&mut flow, first, true, true, true), vec!["write", "record", "ok false false"]);

    let mut flow = RestoreFlow::new(id, true, false);
    let first = flow.step(RestoreOutcome::Found(Ok(Some(item.clone()))));
    let names = step_names(&mut flow, first, false, true, true);
    assert_eq!(names[0], "write");
    assert_eq!(names.len(), 2);
    assert!(names[1].starts_with("clipboard error: "));

    let mut flow = RestoreFlow::new(id, true, false);
    let first = flow.step(RestoreOutcome::Found(Ok(Some(item.clone()))));
    let names = step_names(&mut flow, first, true, false, true);
    assert_eq!(names[..2], ["write", "record"]);
    assert!(names[2].starts_with("item not found: "));

    let mut flow = RestoreFlow::new(id, true, false);
    let first = flow.step(RestoreOutcome::Found(Ok(None)));
    let names = step_names(&mut flow, first, true, true, true);
    assert_eq!(names.len(), 1);
    assert!(names[0].starts_with("item not found: "));
}
