use rcopy::clipboard::{classify_xclip_failure, targets_failure, ClipboardError, ReadResult, X11Clipboard};
use rcopy::clipboard_read::{ReadStep, SupportedRead};
use rcopy::hash::{content_hash, to_hex};
use rcopy::html::{
    decode_basic_html_entities, looks_like_html_document, normalize_plain_text,
    normalize_plain_text_cow, strip_html_comments, strip_html_document,
};
use rcopy::instance::{lock_owner_pid, lock_path, parse_u32, process_entry};
use rcopy::ipc::{join_path, IpcClient};
use rcopy::item::{ClipboardItem, ClipboardPayload};
use rcopy::mime::{
    mime_types_for, normalize_offered_mime, offered_mime_for, parse_target_list,
    select_single_write_mime, select_supported_mimes, MimeKind,
};
use rcopy::paste::{exit_status_error, spawn_failure_error, PasteError, SpawnFailure, XdotoolPasteBackend};
use rcopy::preview::{
    condense_text, item_display_text, key_action, plain_text_preview, png_dimensions,
    strip_html_tags, truncate_chars, Key, KeyAction,
};
use rcopy::search::rank_items;
use rcopy::service::{
    new_capture_item, payload_for_restore, restore_response, ServiceError,
};
use rcopy::storage::{
    first_item, item_to_row, row_to_item, search_rows, FetchedRow, StorageError, StoredRow,
};
use rcopy::text::{chars_of, condense, string_of, trimmed};
use rcopy::view_model::PickerModel;

fn text_payload(text: &str) -> ClipboardPayload {
    ClipboardPayload {
        text_plain: Some(text.to_string()),
        text_html: None,
        image_png: None,
    }
}

fn item(id: u128, text: &str, pinned: bool, favorite: bool, last_used: i128) -> ClipboardItem {
    let payload = text_payload(text);
    ClipboardItem {
        id,
        created_at: last_used,
        last_used_at: last_used,
        content_hash: content_hash(&payload),
        mime_types: vec!["text/plain".to_string()],
        payload,
        is_pinned: pinned,
        is_favorite: favorite,
        deleted_at: None,
    }
}

#[test]
fn content_hash_is_sha256_of_labelled_sections() {
    assert_eq!(
        content_hash(&text_payload("alpha")),
        "962a3cc56088245abe2d1907873ae18b3656c6540f23827b906f1f8c94d256ba"
    );
    let full = ClipboardPayload {
        text_plain: Some("alpha".into()),
        text_html: Some("<b>alpha</b>".into()),
        image_png: Some(vec![1, 2]),
    };
    assert_eq!(
        content_hash(&full),
        "60aefced7a01b935a8ad6b51e67cea03a6c37d8944b396dbdd7c4cf2d96fb3d8"
    );
    let empty = ClipboardPayload {
        text_plain: None,
        text_html: None,
        image_png: None,
    };
    assert_eq!(
        content_hash(&empty),
        "e3b0c44298fc1c149afbf4c8996fb92427ae41e4649b934ca495991b7852b855"
    );
}

#[test]
fn equal_payloads_have_equal_hashes() {
    assert_eq!(content_hash(&text_payload("a b")), content_hash(&text_payload("a b")));
}

#[test]
fn hex_is_two_lower_case_digits_per_byte() {
    assert_eq!(to_hex(&[0x00, 0x0f, 0xa0, 0xff]), "000fa0ff");
}

#[test]
fn search_lower_cases_and_trims_the_query() {
    let items = vec![item(1, "Alpha Beta", false, false, 10), item(2, "gamma", false, false, 20)];
    let found = rank_items("  ALPHA ", items);
    assert_eq!(found.len(), 1);
    assert_eq!(found[0].id, 1);
}

#[test]
fn search_matches_html_text_too() {
    let mut html = item(3, "x", false, false, 10);
    html.payload.text_plain = None;
    html.payload.text_html = Some("<i>Needle</i>".into());
    let found = rank_items("needle", vec![html]);
    assert_eq!(found.len(), 1);
}

#[test]
fn blank_query_shows_every_item_not_deleted_most_recent_first() {
    let mut deleted = item(1, "a", false, false, 50);
    deleted.deleted_at = Some(60);
    let items = vec![item(2, "b", false, false, 10), deleted, item(3, "c", false, false, 30)];
    let found = rank_items(" \t ", items);
    let ids: Vec<u128> = found.iter().map(|i| i.id).collect();
    assert_eq!(ids, vec![3, 2]);
}

#[test]
fn equal_ranks_keep_their_order() {
    let items = vec![
        item(1, "a", true, false, 10),
        item(2, "b", false, false, 10),
        item(3, "c", true, false, 10),
        item(4, "d", false, false, 10),
    ];
    let ids: Vec<u128> = rank_items("", items).iter().map(|i| i.id).collect();
    assert_eq!(ids, vec![1, 3, 2, 4]);
}

#[test]
fn html_documents_are_reduced_to_text() {
    let doc = "  <!DOCTYPE html><html><body><!-- note --><p>a&amp;b&nbsp;&lt;c&gt;</p>\n<p>&quot;d&#39;</p></body></html>";
    assert!(looks_like_html_document(doc));
    assert_eq!(strip_html_document(doc), "a&b <c> \"d'");
    assert_eq!(normalize_plain_text(doc.to_string()), "a&b <c> \"d'");
    assert_eq!(normalize_plain_text_cow("plain <b>text</b>"), "plain <b>text</b>");
    assert!(!looks_like_html_document("plain <b>text</b>"));
}

#[test]
fn empty_document_text_keeps_the_original() {
    let doc = "<html><!-- only a comment --></html>";
    assert_eq!(normalize_plain_text(doc.to_string()), doc);
}

#[test]
fn comments_are_removed_and_an_open_comment_ends_the_text() {
    assert_eq!(strip_html_comments("a<!--x-->b<!--y-->c"), "abc");
    assert_eq!(strip_html_comments("a<!--x"), "a");
}

#[test]
fn entities_are_decoded_once_with_amp_last() {
    assert_eq!(decode_basic_html_entities("&amp;lt;"), "&lt;");
    assert_eq!(decode_basic_html_entities("&lt;&gt;&quot;&#39;&nbsp;"), "<>\"' ");
}

#[test]
fn whitespace_is_condensed_and_trimmed() {
    let cs = chars_of("  a \n\t b\u{3000}c  ");
    assert_eq!(string_of(&condense(&cs)), "a b c");
    assert_eq!(string_of(&trimmed(&cs)), "a \n\t b\u{3000}c");
    assert_eq!(condense_text(&"w ".repeat(200)).chars().count(), 160);
}

#[test]
fn mime_types_follow_the_payload() {
    let full = ClipboardPayload {
        text_plain: Some("a".into()),
        text_html: Some("b".into()),
        image_png: Some(vec![1]),
    };
    assert_eq!(mime_types_for(&full), vec!["text/plain", "text/html", "image/png"]);
    assert_eq!(mime_types_for(&text_payload("a")), vec!["text/plain"]);
}

#[test]
fn unsupported_targets_are_ignored() {
    let offered = vec!["image/jpeg".to_string(), "TEXT/HTML".to_string()];
    assert_eq!(select_supported_mimes(&offered), Vec::<MimeKind>::new());
}

#[test]
fn offered_targets_are_normalized_before_matching() {
    assert_eq!(normalize_offered_mime(" Text/Plain ; charset=utf-8"), "text/plain");
    let offered = vec!["image/gif".to_string(), " TEXT/PLAIN;charset=utf-8".to_string()];
    assert_eq!(
        offered_mime_for(&offered, MimeKind::TextPlain),
        Some(" TEXT/PLAIN;charset=utf-8")
    );
    assert_eq!(offered_mime_for(&offered, MimeKind::ImagePng), None);
}

#[test]
fn target_listing_is_split_into_trimmed_lines() {
    assert_eq!(
        parse_target_list("TARGETS\r\n  text/plain \n\n image/png"),
        vec!["TARGETS", "text/plain", "image/png"]
    );
}

#[test]
fn written_representation_prefers_png_then_text_then_html() {
    let full = ClipboardPayload {
        text_plain: Some("alpha".into()),
        text_html: Some("<b>alpha</b>".into()),
        image_png: Some(vec![137, 80]),
    };
    let w = select_single_write_mime(&full).unwrap();
    assert_eq!(w.mime(), "image/png");
    assert_eq!(w.bytes(), &[137, 80]);

    let text = ClipboardPayload {
        text_plain: Some("<html><body><span>hi</span></body></html>".into()),
        text_html: Some("<b>alpha</b>".into()),
        image_png: None,
    };
    let w = select_single_write_mime(&text).unwrap();
    assert_eq!(w.mime(), "text/plain");
    assert_eq!(w.bytes(), b"hi");

    let html = ClipboardPayload {
        text_plain: None,
        text_html: Some("<b>alpha</b>".into()),
        image_png: None,
    };
    assert_eq!(select_single_write_mime(&html).unwrap().mime(), "text/html");

    let empty = ClipboardPayload {
        text_plain: None,
        text_html: None,
        image_png: None,
    };
    assert!(select_single_write_mime(&empty).is_none());
}

#[test]
fn xclip_failures_are_classified_by_exit_code() {
    assert_eq!(
        classify_xclip_failure::<String>("text/plain", Some(1), "x"),
        Ok(ReadResult::Unsupported)
    );
    assert_eq!(
        classify_xclip_failure::<String>("image/png", Some(2), "  no display \n"),
        Err(ClipboardError::Command("xclip failed for image/png: no display".into()))
    );
    assert_eq!(
        targets_failure(" busy\n"),
        ClipboardError::Command("xclip TARGETS failed: busy".into())
    );
    assert_eq!(
        ClipboardError::StateUnavailable.message(),
        "clipboard state unavailable"
    );
}

#[test]
fn x11_clipboard_keeps_its_commands() {
    let c = X11Clipboard::new();
    assert_eq!(c.paste_command(), "xclip");
    let c = X11Clipboard::with_commands("paste-cmd", "copy-cmd");
    assert_eq!(c.paste_command(), "paste-cmd");
    assert_eq!(c.copy_command(), "copy-cmd");
}

#[test]
fn paste_errors_are_classified() {
    assert_eq!(
        spawn_failure_error(SpawnFailure::NotFound, "gone".into()),
        PasteError::Unavailable("gone".into())
    );
    assert_eq!(
        spawn_failure_error(SpawnFailure::Other, "odd".into()),
        PasteError::Command("odd".into())
    );
    assert_eq!(
        exit_status_error("xdotool", "exit status: 1").message(),
        "paste command failed: xdotool exited with exit status: 1"
    );
    assert_eq!(XdotoolPasteBackend::new("xdotool").command(), "xdotool");
}

#[test]
fn previews_describe_each_kind_of_content() {
    let html = ClipboardItem {
        payload: ClipboardPayload {
            text_plain: None,
            text_html: Some("<img src=x>  ".into()),
            image_png: None,
        },
        ..item(1, "x", false, false, 0)
    };
    assert_eq!(item_display_text(&html), "[HTML content]");
    let png = ClipboardItem {
        payload: ClipboardPayload {
            text_plain: None,
            text_html: None,
            image_png: Some(vec![1, 2, 3]),
        },
        ..item(1, "x", false, false, 0)
    };
    assert_eq!(item_display_text(&png), "PNG image, 3 bytes");
    let none = ClipboardItem {
        payload: ClipboardPayload {
            text_plain: None,
            text_html: None,
            image_png: None,
        },
        ..item(1, "x", false, false, 0)
    };
    assert_eq!(item_display_text(&none), "[Unsupported content]");
    assert_eq!(plain_text_preview("<html><b>x</b><!--c--></html>"), "x");
    assert_eq!(strip_html_tags("a<b>c</b>d"), "acd");
    assert_eq!(truncate_chars("héllo", 2), "hé");
}

#[test]
fn png_header_gives_big_endian_dimensions() {
    let mut png = b"\x89PNG\r\n\x1a\n".to_vec();
    png.extend_from_slice(&13u32.to_be_bytes());
    png.extend_from_slice(b"IHDR");
    png.extend_from_slice(&0x01020304u32.to_be_bytes());
    png.extend_from_slice(&7u32.to_be_bytes());
    assert_eq!(png_dimensions(&png), Some((0x01020304, 7)));
    png[12] = b'X';
    assert_eq!(png_dimensions(&png), None);
    assert_eq!(png_dimensions(&png[..20]), None);
}

#[test]
fn key_bindings() {
    assert_eq!(key_action(Key::Escape, false, false), Some(KeyAction::Close));
    assert_eq!(
        key_action(Key::Return, true, false),
        Some(KeyAction::Restore { plain_text_only: true })
    );
    assert_eq!(
        key_action(Key::KeypadEnter, false, false),
        Some(KeyAction::Restore { plain_text_only: false })
    );
    assert_eq!(key_action(Key::Delete, false, false), Some(KeyAction::Delete));
    assert_eq!(key_action(Key::LowerP, false, true), Some(KeyAction::TogglePin));
    assert_eq!(key_action(Key::LowerP, false, false), None);
    assert_eq!(key_action(Key::LowerF, false, true), Some(KeyAction::ToggleFavorite));
    assert_eq!(key_action(Key::Other, true, true), None);
}

#[test]
fn picker_selection_is_clamped_and_kept_on_removal() {
    let mut model = PickerModel::new(vec![
        item(1, "a", false, false, 0),
        item(2, "b", false, false, 0),
        item(3, "c", false, false, 0),
    ]);
    model.select(10);
    assert_eq!(model.selected_index, 2);
    model.select(1);
    model.move_down();
    model.move_up();
    assert_eq!(model.selected_index, 1);
    assert_eq!(model.remove_by_id(3).unwrap().id, 3);
    assert_eq!(model.selected_index, 1);
    assert_eq!(model.remove_by_id(2).unwrap().id, 2);
    assert_eq!(model.selected_index, 0);
    assert!(model.remove_by_id(42).is_none());
    model.set_pin_by_id(1, true);
    model.set_favorite_by_id(1, true);
    assert!(model.items[0].is_pinned && model.items[0].is_favorite);
    model.toggle_selected_pin();
    model.toggle_selected_pin();
    assert!(model.items[0].is_pinned);
    model.remove_selected();
    assert!(model.remove_selected().is_none());
    assert_eq!(model.selected_index, 0);
    model.select(5);
    assert_eq!(model.selected_index, 0);
}

#[test]
fn restore_choice_and_response() {
    let it = item(9, "alpha", false, false, 0);
    assert!(matches!(payload_for_restore(None, 9, false), Err(ServiceError::NotFound(9))));
    let html_only = ClipboardItem {
        payload: ClipboardPayload {
            text_plain: None,
            text_html: Some("<b>x</b>".into()),
            image_png: None,
        },
        ..it.clone()
    };
    assert!(matches!(
        payload_for_restore(Some(html_only), 9, true),
        Err(ServiceError::PlainTextUnavailable(9))
    ));
    assert_eq!(payload_for_restore(Some(it.clone()), 9, false).unwrap(), it.payload);
    let r = restore_response(false, true);
    assert!(!r.paste_attempted && !r.paste_succeeded);
    let r = restore_response(true, true);
    assert!(r.paste_attempted && r.paste_succeeded);
}

#[test]
fn captured_items_are_fresh_and_hashed() {
    let payload = text_payload("alpha");
    let it = new_capture_item(payload.clone(), 5, 77);
    assert_eq!(it.id, 5);
    assert_eq!(it.created_at, 77);
    assert_eq!(it.last_used_at, 77);
    assert_eq!(it.content_hash, content_hash(&payload));
    assert_eq!(it.mime_types, vec!["text/plain"]);
    assert!(!it.is_pinned && !it.is_favorite && it.deleted_at.is_none());
}

#[test]
fn stored_rows_read_back_to_the_same_item() {
    let mut it = item(0x1234, "alpha", true, false, 1_700_000_000_123_456_789);
    it.deleted_at = Some(-5);
    it.mime_types = vec!["text/plain".into(), "x/\"quoted\"".into()];
    let row = item_to_row(&it).unwrap();
    assert_eq!(row.is_pinned, 1);
    assert_eq!(row.created_at, "2023-11-14T22:13:20.123456789+00:00");
    assert_eq!(row_to_item(fetched(row)).unwrap(), it);
}

#[test]
fn unreadable_rows_are_errors() {
    let it = item(7, "alpha", false, false, 0);
    let mut row = item_to_row(&it).unwrap();
    row.id = "not-a-uuid".into();
    assert!(matches!(row_to_item(fetched(row)), Err(StorageError::Uuid(_))));
    let mut row = item_to_row(&it).unwrap();
    row.last_used_at = "yesterday".into();
    assert!(matches!(row_to_item(fetched(row)), Err(StorageError::Time(_))));
    let mut row = item_to_row(&it).unwrap();
    row.mime_types = "[1".into();
    assert!(matches!(row_to_item(fetched(row)), Err(StorageError::Json(_))));
}

#[test]
fn paths_are_joined_with_one_separator() {
    assert_eq!(join_path("/run/", "rcopy"), "/run/rcopy");
    assert_eq!(join_path("/run", "rcopy"), "/run/rcopy");
    assert_eq!(join_path("", "rcopy"), "rcopy");
    assert_eq!(IpcClient::new("/tmp/s.sock").socket_path(), "/tmp/s.sock");
}

fn step_text(step: &ReadStep) -> Option<&str> {
    match step {
        ReadStep::Text(mime) => Some(mime.as_str()),
        _ => None,
    }
}

#[test]
fn clipboard_read_prefers_plain_text_over_html_and_reads_png() {
    let offered = parse_target_list("TARGETS\nTEXT/PLAIN; charset=utf-8\ntext/html\nimage/png\n");
    let (mut read, step) = SupportedRead::start(offered);
    assert_eq!(step_text(&step), Some("TEXT/PLAIN; charset=utf-8"));
    let step = read.text_read(Some("<html><body>a&amp;b</body></html>".to_string()));
    match step {
        ReadStep::Bytes(mime) => assert_eq!(mime, "image/png"),
        other => panic!("expected a PNG read, got {other:?}"),
    }
    let step = read.bytes_read(Some(vec![1, 2, 3]));
    match step {
        ReadStep::Done(payload) => {
            assert_eq!(payload.text_plain.as_deref(), Some("a&b"));
            assert_eq!(payload.text_html, None);
            assert_eq!(payload.image_png, Some(vec![1, 2, 3]));
        }
        other => panic!("expected the end of the read, got {other:?}"),
    }
}

#[test]
fn clipboard_read_takes_html_when_plain_text_is_missing() {
    let offered = vec!["text/plain".to_string(), "text/html".to_string()];
    let (mut read, step) = SupportedRead::start(offered);
    assert_eq!(step_text(&step), Some("text/plain"));
    let step = read.text_read(None);
    assert_eq!(step_text(&step), Some("text/html"));
    match read.text_read(Some("<b>x</b>".to_string())) {
        ReadStep::Done(payload) => {
            assert_eq!(payload.text_plain, None);
            assert_eq!(payload.text_html.as_deref(), Some("<b>x</b>"));
            assert_eq!(payload.image_png, None);
        }
        other => panic!("expected the end of the read, got {other:?}"),
    }
}

#[test]
fn clipboard_read_of_unsupported_targets_is_empty() {
    let (_, step) = SupportedRead::start(vec!["UTF8_STRING".to_string(), "image/jpeg".to_string()]);
    match step {
        ReadStep::Done(payload) => assert!(payload.is_empty()),
        other => panic!("expected nothing to read, got {other:?}"),
    }
}

#[test]
fn lock_file_lives_in_the_runtime_dir_or_a_user_temp_dir() {
    assert_eq!(lock_path(Some("/run/user/1000"), "/tmp", Some("1000")), "/run/user/1000/rcopy/rcopy-picker.lock");
    assert_eq!(lock_path(None, "/tmp", Some("1000")), "/tmp/rcopy-1000/rcopy-picker.lock");
    assert_eq!(lock_path(None, "/tmp/", None), "/tmp/rcopy-unknown/rcopy-picker.lock");
}

#[test]
fn lock_owner_is_read_as_std_parses_a_u32() {
    assert_eq!(lock_owner_pid("4242\n"), Some(4242));
    assert_eq!(lock_owner_pid("  +17 "), Some(17));
    assert_eq!(lock_owner_pid("4294967295"), Some(u32::MAX));
    assert_eq!(lock_owner_pid("4294967296"), None);
    assert_eq!(lock_owner_pid(""), None);
    assert_eq!(lock_owner_pid("+"), None);
    assert_eq!(lock_owner_pid("-3"), None);
    assert_eq!(lock_owner_pid("12a"), None);
    for text in ["0", "007", "+9", "99999999999", "1 2", "٣"] {
        assert_eq!(parse_u32(text), text.parse::<u32>().ok(), "{text}");
    }
    assert_eq!(process_entry(4242), "/proc/4242");
}

#[test]
fn first_found_row_gives_the_item() {
    let a = item(1, "alpha", false, false, 10);
    let b = item(2, "beta", false, false, 20);
    assert!(matches!(first_item(Vec::new()), Ok(None)));
    let rows = vec![item_to_row(&a).unwrap(), item_to_row(&b).unwrap()];
    assert_eq!(first_item(rows.into_iter().map(|r| Ok(fetched(r))).collect()).unwrap(), Some(a.clone()));
    let mut bad = item_to_row(&a).unwrap();
    bad.created_at = "soon".into();
    assert!(matches!(first_item(vec![Ok(fetched(bad))]), Err(StorageError::Time(_))));
}

#[test]
fn searching_rows_ranks_their_items() {
    let old = item(1, "alpha old", false, false, 10);
    let new = item(2, "alpha new", false, false, 20);
    let other = item(3, "beta", true, false, 30);
    let rows = vec![item_to_row(&old).unwrap(), item_to_row(&new).unwrap(), item_to_row(&other).unwrap()];
    let found = search_rows("ALPHA", rows.into_iter().map(|r| Ok(fetched(r))).collect()).unwrap();
    assert_eq!(found.iter().map(|it| it.id).collect::<Vec<_>>(), vec![2, 1]);
    let mut bad = item_to_row(&old).unwrap();
    bad.id = "nope".into();
    assert!(matches!(search_rows("", vec![Ok(fetched(bad))]), Err(StorageError::Uuid(_))));
}

#[test]
fn times_far_from_1970_are_stored_and_read_back() {
    let mut it = item(5, "alpha", false, false, 0);
    it.created_at = -12_000_000_000 * 1_000_000_000 - 7;
    it.last_used_at = 32_503_680_000 * 1_000_000_000 + 1;
    let row = item_to_row(&it).unwrap();
    assert_eq!(row.last_used_at, "3000-01-01T00:00:00.000000001+00:00");
    assert_eq!(row_to_item(fetched(row)).unwrap(), it);
    let mut far = it.clone();
    far.deleted_at = Some(i128::MAX);
    assert!(matches!(item_to_row(&far), Err(StorageError::TimeOutOfRange)));
    assert_eq!(StorageError::TimeOutOfRange.message(), "time error: instant out of range");
}

fn fetched(r: StoredRow) -> FetchedRow {
    FetchedRow {
        id: Ok(r.id),
        created_at: Ok(r.created_at),
        last_used_at: Ok(r.last_used_at),
        content_hash: Ok(r.content_hash),
        mime_types: Ok(r.mime_types),
        text_plain: Ok(r.text_plain),
        text_html: Ok(r.text_html),
        image_png: Ok(r.image_png),
        is_pinned: Ok(r.is_pinned),
        is_favorite: Ok(r.is_favorite),
        deleted_at: Ok(r.deleted_at),
    }
}

fn column_error(index: usize, name: &str) -> rusqlite::Error {
    rusqlite::Error::InvalidColumnType(index, name.to_string(), rusqlite::types::Type::Null)
}

#[test]
fn row_reads_fail_in_column_order() {
    let it = item(8, "alpha", false, false, 0);
    let mut row = fetched(item_to_row(&it).unwrap());
    row.id = Ok("not-a-uuid".into());
    row.content_hash = Err(column_error(3, "content_hash"));
    assert!(matches!(row_to_item(row), Err(StorageError::Uuid(_))));

    let mut row = fetched(item_to_row(&it).unwrap());
    row.content_hash = Err(column_error(3, "content_hash"));
    row.mime_types = Ok("[1".into());
    assert!(matches!(row_to_item(row), Err(StorageError::Sqlite(_))));

    let mut row = fetched(item_to_row(&it).unwrap());
    row.deleted_at = Err(column_error(10, "deleted_at"));
    row.id = Ok("not-a-uuid".into());
    assert!(matches!(row_to_item(row), Err(StorageError::Sqlite(_))));

    let good = fetched(item_to_row(&it).unwrap());
    let mut bad = fetched(item_to_row(&it).unwrap());
    bad.created_at = Ok("never".into());
    let steps = vec![Ok(good), Ok(bad), Err(column_error(0, "id"))];
    assert!(matches!(search_rows("", steps), Err(StorageError::Time(_))));
}

#[test]
fn times_past_year_9999_are_stored_but_do_not_read_back() {
    let mut it = item(9, "alpha", false, false, 0);
    it.last_used_at = 253_402_300_800 * 1_000_000_000;
    let row = item_to_row(&it).unwrap();
    assert!(row.last_used_at.starts_with("+10000-01-01T00:00:00"));
    assert!(matches!(row_to_item(fetched(row)), Err(StorageError::Time(_))));
    assert_eq!(
        (
            chrono::DateTime::<chrono::Utc>::MIN_UTC.timestamp(),
            chrono::DateTime::<chrono::Utc>::MAX_UTC.timestamp(),
            chrono::DateTime::from_timestamp(-8_334_601_228_801, 0).is_some(),
            chrono::DateTime::from_timestamp(8_210_266_876_800, 0).is_some(),
        ),
        (-8_334_601_228_800, 8_210_266_876_799, false, false)
    );
    it.last_used_at = 8_210_266_876_800 * 1_000_000_000;
    assert!(matches!(item_to_row(&it), Err(StorageError::TimeOutOfRange)));
}
