use rcopy::config::AppConfig;
use rcopy::hash::content_hash;
use rcopy::ipc::socket_path_for_runtime_dir;
use rcopy::item::{ClipboardItem, ClipboardPayload};
use rcopy::mime::{select_supported_mimes, MimeKind};
use rcopy::search::rank_items;

fn new_item_id() -> u128 {
    uuid::Uuid::new_v4().as_u128()
}

fn now_nanos() -> Option<i128> {
    let now = chrono::Utc::now();
    Some(i128::from(now.timestamp()) * 1_000_000_000 + i128::from(now.timestamp_subsec_nanos()))
}

fn sample_item(text: &str, is_pinned: bool, is_favorite: bool, age_seconds: i128) -> ClipboardItem {
    let now = now_nanos().unwrap();
    let payload = ClipboardPayload {
        text_plain: Some(text.to_string()),
        text_html: None,
        image_png: None,
    };
    ClipboardItem {
        id: new_item_id(),
        created_at: now - age_seconds * 1_000_000_000,
        last_used_at: now - age_seconds * 1_000_000_000,
        content_hash: content_hash(&payload),
        mime_types: vec!["text/plain".to_string()],
        payload,
        is_pinned,
        is_favorite,
        deleted_at: None,
    }
}

#[test]
fn config_defaults_capture_text_html_and_images() {
    let config = AppConfig::default();
    assert!(config.capture_text);
    assert!(config.capture_html);
    assert!(config.capture_images);
    assert!(config.auto_paste);
    assert_eq!(config.paste_command, "wtype");
}

#[test]
fn text_and_html_hashes_change_when_content_changes() {
    let a = ClipboardPayload {
        text_plain: Some("alpha".into()),
        text_html: Some("<b>alpha</b>".into()),
        image_png: None,
    };
    let b = ClipboardPayload {
        text_plain: Some("beta".into()),
        text_html: Some("<b>alpha</b>".into()),
        image_png: None,
    };
    assert_ne!(content_hash(&a), content_hash(&b));
}

#[test]
fn supported_mime_types_are_selected_in_stable_order() {
    let offered = vec![
        "image/jpeg".to_string(),
        "text/html".to_string(),
        "text/plain;charset=utf-8".to_string(),
        "image/png".to_string(),
    ];
    assert_eq!(
        select_supported_mimes(&offered),
        vec![MimeKind::TextPlain, MimeKind::TextHtml, MimeKind::ImagePng]
    );
}

#[test]
fn search_prefers_pinned_then_favorite_then_recent_matches() {
    let recent = sample_item("recent alpha", false, false, 30);
    let favorite = sample_item("favorite alpha", false, true, 20);
    let pinned = sample_item("pinned alpha", true, false, 10);
    let ranked = rank_items(
        "alpha",
        vec![recent.clone(), favorite.clone(), pinned.clone()],
    );
    assert_eq!(ranked[0].id, pinned.id);
    assert_eq!(ranked[1].id, favorite.id);
    assert_eq!(ranked[2].id, recent.id);
}

#[test]
fn socket_path_uses_runtime_dir_when_available() {
    let runtime_dir = "/run/user/1000";

    assert_eq!(
        socket_path_for_runtime_dir(Some(runtime_dir), "/tmp", 1000),
        "/run/user/1000/rcopy/rcopyd.sock"
    );
}

#[test]
fn socket_path_falls_back_to_user_scoped_temp_dir() {
    let path = socket_path_for_runtime_dir(None, "/tmp", 1000);
    let parts: Vec<&str> = path.rsplit('/').collect();

    assert_eq!(parts[0], "rcopyd.sock");
    assert!(parts[1].starts_with("rcopy-"));
}
