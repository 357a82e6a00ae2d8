use rcopy::hash::content_hash;
use rcopy::item::{ClipboardItem, ClipboardPayload};
use rcopy::preview::{
    item_label_text, key_action, preview_text, startup_search_modes, Key, KeyAction, SearchMode,
};
use rcopy::replies::{apply_reply, UiMessage};
use rcopy::service::RestoreResponse;
use rcopy::view_model::PickerModel;

fn new_item_id() -> u128 {
    uuid::Uuid::new_v4().as_u128()
}

fn now_nanos() -> Option<i128> {
    let now = chrono::Utc::now();
    Some(i128::from(now.timestamp()) * 1_000_000_000 + i128::from(now.timestamp_subsec_nanos()))
}

fn item_with_payload(payload: ClipboardPayload) -> ClipboardItem {
    let now = now_nanos().unwrap();
    ClipboardItem {
        id: new_item_id(),
        created_at: now,
        last_used_at: now,
        content_hash: content_hash(&payload),
        mime_types: vec!["text/plain".into()],
        payload,
        is_pinned: false,
        is_favorite: false,
        deleted_at: None,
    }
}

fn item(text: &str) -> ClipboardItem {
    item_with_payload(ClipboardPayload {
        text_plain: Some(text.to_string()),
        text_html: None,
        image_png: None,
    })
}

#[test]
fn preview_text_prefers_plain_text() {
    let item = item_with_payload(ClipboardPayload {
        text_plain: Some("alpha\nbeta".into()),
        text_html: Some("<b>alpha</b>".into()),
        image_png: None,
    });

    assert_eq!(preview_text(&item), "alpha beta");
}

#[test]
fn preview_text_strips_html_document_from_plain_text() {
    let item = item_with_payload(ClipboardPayload {
        text_plain: Some(
            "<html><body><!--StartFragment--><span>現在 `Ctrl+`` 的行為是：</span></body></html>"
                .into(),
        ),
        text_html: None,
        image_png: None,
    });

    assert_eq!(preview_text(&item), "現在 `Ctrl+`` 的行為是：");
}

#[test]
fn preview_text_condenses_html_text() {
    let item = item_with_payload(ClipboardPayload {
        text_plain: None,
        text_html: Some("<p>alpha <strong>beta</strong></p>".into()),
        image_png: None,
    });

    assert_eq!(preview_text(&item), "alpha beta");
}

#[test]
fn collapsed_item_label_contains_only_condensed_clipboard_text() {
    let item = item_with_payload(ClipboardPayload {
        text_plain: Some("alpha\nbeta".into()),
        text_html: None,
        image_png: None,
    });

    assert_eq!(item_label_text(&item, false), "alpha beta");
}

#[test]
fn startup_search_modes_show_cached_items_before_capture_refresh() {
    assert_eq!(
        startup_search_modes(),
        [SearchMode::SearchOnly, SearchMode::CaptureThenSearch]
    );
}

#[test]
fn arrow_keys_map_to_selection_actions() {
    assert_eq!(key_action(Key::Up, false, false), Some(KeyAction::MoveUp));
    assert_eq!(key_action(Key::Down, false, false), Some(KeyAction::MoveDown));
    assert_eq!(key_action(Key::KeypadUp, false, false), Some(KeyAction::MoveUp));
    assert_eq!(key_action(Key::KeypadDown, false, false), Some(KeyAction::MoveDown));
}

#[test]
fn expanded_item_label_shows_content_capped_at_1000_characters() {
    let item = item_with_payload(ClipboardPayload {
        text_plain: Some("x".repeat(1200)),
        text_html: None,
        image_png: None,
    });

    let text = item_label_text(&item, true);

    assert_eq!(text.chars().count(), 1000);
    assert!(text.chars().all(|character| character == 'x'));
}

#[test]
fn preview_text_falls_back_to_png_metadata() {
    let mut png = b"\x89PNG\r\n\x1a\n".to_vec();
    png.extend_from_slice(&13u32.to_be_bytes());
    png.extend_from_slice(b"IHDR");
    png.extend_from_slice(&640u32.to_be_bytes());
    png.extend_from_slice(&480u32.to_be_bytes());

    let item = item_with_payload(ClipboardPayload {
        text_plain: None,
        text_html: None,
        image_png: Some(png),
    });

    assert_eq!(preview_text(&item), "PNG image, 640x480, 24 bytes");
}

#[test]
fn selected_index_moves_within_bounds() {
    let mut model = PickerModel::new(vec![item("a"), item("b")]);
    model.move_down();
    model.move_down();
    assert_eq!(model.selected_index, 1);
    model.move_up();
    model.move_up();
    assert_eq!(model.selected_index, 0);
}

#[test]
fn selected_item_returns_current_item() {
    let mut model = PickerModel::new(vec![item("a"), item("b")]);
    model.move_down();
    assert_eq!(
        model.selected_item().unwrap().payload.text_plain.as_deref(),
        Some("b")
    );
}

#[test]
fn remove_selected_item_updates_selection() {
    let mut model = PickerModel::new(vec![item("a"), item("b")]);
    model.move_down();
    let removed = model.remove_selected().unwrap();
    assert_eq!(removed.payload.text_plain.as_deref(), Some("b"));
    assert_eq!(model.selected_index, 0);
    assert_eq!(model.items.len(), 1);
}

#[test]
fn toggle_selected_pin_flips_state() {
    let mut model = PickerModel::new(vec![item("a")]);
    model.toggle_selected_pin();
    assert!(model.selected_item().unwrap().is_pinned);
}

#[test]
fn toggle_selected_favorite_flips_state() {
    let mut model = PickerModel::new(vec![item("a")]);
    model.toggle_selected_favorite();
    assert!(model.selected_item().unwrap().is_favorite);
}

#[test]
fn search_reply_replaces_rows_and_clears_status() {
    let mut model = PickerModel::new(vec![item("old")]);
    model.select(0);
    let fresh = vec![item("one"), item("two")];
    let ids: Vec<u128> = fresh.iter().map(|it| it.id).collect();
    let effect = apply_reply(&mut model, UiMessage::SearchFinished(fresh));
    assert_eq!(model.items.iter().map(|it| it.id).collect::<Vec<_>>(), ids);
    assert_eq!(model.selected_index, 0);
    assert_eq!(effect.status.as_deref(), Some(""));
    assert!(effect.render);
    assert!(!effect.close);
}

#[test]
fn failed_search_empties_rows_and_shows_error() {
    let mut model = PickerModel::new(vec![item("a"), item("b")]);
    model.move_down();
    let effect = apply_reply(&mut model, UiMessage::SearchFailed("daemon down".into()));
    assert!(model.items.is_empty());
    assert_eq!(model.selected_index, 0);
    assert_eq!(effect.status.as_deref(), Some("daemon down"));
    assert!(effect.render);
}

#[test]
fn restore_reply_closes_and_reports_missed_paste() {
    let mut model = PickerModel::new(vec![item("a")]);
    let missed = RestoreResponse { paste_attempted: true, paste_succeeded: false };
    let effect = apply_reply(&mut model, UiMessage::RestoreFinished(Ok(missed)));
    assert!(effect.close);
    assert!(!effect.render);
    assert_eq!(
        effect.status.as_deref(),
        Some("Clipboard restored; automatic paste did not complete")
    );
    let pasted = RestoreResponse { paste_attempted: true, paste_succeeded: true };
    let effect = apply_reply(&mut model, UiMessage::RestoreFinished(Ok(pasted)));
    assert!(effect.close);
    assert!(effect.status.is_none());
    let failed = apply_reply(&mut model, UiMessage::RestoreFinished(Err("gone".into())));
    assert!(!failed.close);
    assert_eq!(failed.status.as_deref(), Some("Restore failed: gone"));
    assert_eq!(model.items.len(), 1);
}

#[test]
fn delete_pin_and_favorite_replies_update_rows() {
    let a = item("a");
    let b = item("b");
    let c = item("c");
    let (ida, idb, idc) = (a.id, b.id, c.id);
    let mut model = PickerModel::new(vec![a, b, c]);
    model.select(2);

    let effect = apply_reply(&mut model, UiMessage::PinFinished { id: idb, value: true, result: Ok(()) });
    assert!(model.items[1].is_pinned);
    assert!(effect.render);
    assert_eq!(effect.status.as_deref(), Some(""));

    let effect = apply_reply(
        &mut model,
        UiMessage::FavoriteFinished { id: ida, value: true, result: Err("busy".into()) },
    );
    assert!(!model.items[0].is_favorite);
    assert!(!effect.render);
    assert_eq!(effect.status.as_deref(), Some("Favorite failed: busy"));

    let effect = apply_reply(&mut model, UiMessage::FavoriteFinished { id: ida, value: true, result: Ok(()) });
    assert!(model.items[0].is_favorite);
    assert!(effect.render);

    let effect = apply_reply(&mut model, UiMessage::DeleteFinished { id: idc, result: Ok(()) });
    assert_eq!(model.items.iter().map(|it| it.id).collect::<Vec<_>>(), vec![ida, idb]);
    assert_eq!(model.selected_index, 1);
    assert!(effect.render);

    let effect = apply_reply(&mut model, UiMessage::DeleteFinished { id: ida, result: Err("no".into()) });
    assert_eq!(model.items.len(), 2);
    assert_eq!(effect.status.as_deref(), Some("Delete failed: no"));

    let effect = apply_reply(&mut model, UiMessage::PinFinished { id: idc, value: false, result: Err("x".into()) });
    assert_eq!(effect.status.as_deref(), Some("Pin failed: x"));
}
