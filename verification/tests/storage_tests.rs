use rcopy::hash::content_hash;
use rcopy::item::{ClipboardItem, ClipboardPayload};
use rcopy::storage::Repository;

fn new_item_id() -> u128 {
    uuid::Uuid::new_v4().as_u128()
}

fn now_nanos() -> Option<i128> {
    let now = chrono::Utc::now();
    Some(i128::from(now.timestamp()) * 1_000_000_000 + i128::from(now.timestamp_subsec_nanos()))
}

fn test_repo() -> Repository {
    Repository::open_in_memory().unwrap()
}

fn make_item(text: &str) -> ClipboardItem {
    let now = now_nanos().unwrap();
    let payload = ClipboardPayload {
        text_plain: Some(text.to_string()),
        text_html: None,
        image_png: None,
    };

    ClipboardItem {
        id: new_item_id(),
        created_at: now,
        last_used_at: now,
        content_hash: content_hash(&payload),
        mime_types: vec!["text/plain".to_string()],
        payload,
        is_pinned: false,
        is_favorite: false,
        deleted_at: None,
    }
}

#[test]
fn inserts_and_fetches_clipboard_item() {
    let mut repo = test_repo();
    let item = make_item("alpha");

    let persisted_id = repo.upsert_item(&item).unwrap();

    let fetched = repo.get_item(persisted_id).unwrap().unwrap();
    assert_eq!(persisted_id, item.id);
    assert_eq!(fetched.id, item.id);
    assert_eq!(fetched.payload.text_plain.as_deref(), Some("alpha"));
}

#[test]
fn duplicate_hash_updates_existing_item_last_used() {
    let mut repo = test_repo();
    let first = make_item("alpha");
    let mut second = first.clone();
    second.id = new_item_id();
    second.last_used_at = first.last_used_at + 30 * 1_000_000_000;

    let first_id = repo.upsert_item(&first).unwrap();
    let second_id = repo.upsert_item(&second).unwrap();

    let items = repo.search("").unwrap();
    let fetched = repo.get_item(second_id).unwrap().unwrap();
    assert_eq!(items.len(), 1);
    assert_eq!(first_id, first.id);
    assert_eq!(second_id, first.id);
    assert_ne!(second_id, second.id);
    assert_eq!(fetched.id, first.id);
    assert_eq!(items[0].last_used_at, second.last_used_at);
}

#[test]
fn soft_deleted_items_are_hidden_from_search() {
    let mut repo = test_repo();
    let item = make_item("alpha");

    repo.upsert_item(&item).unwrap();
    repo.soft_delete(item.id, now_nanos().unwrap()).unwrap();

    assert!(repo.search("alpha").unwrap().is_empty());
}

#[test]
fn pin_and_favorite_are_persisted() {
    let mut repo = test_repo();
    let item = make_item("alpha");

    repo.upsert_item(&item).unwrap();
    repo.set_pinned(item.id, true).unwrap();
    repo.set_favorite(item.id, true).unwrap();

    let fetched = repo.get_item(item.id).unwrap().unwrap();
    assert!(fetched.is_pinned);
    assert!(fetched.is_favorite);
}

#[test]
fn file_backed_repository_opens_and_stores() {
    let dir = tempfile::tempdir().unwrap();
    let path = dir.path().join("clipboard.db");
    let mut repo = Repository::open(path.to_str().unwrap()).unwrap();
    let item = make_item("alpha");

    repo.upsert_item(&item).unwrap();

    assert_eq!(repo.search("alpha").unwrap().len(), 1);
}

#[test]
fn file_backed_connections_have_busy_timeout() {
    let dir = tempfile::tempdir().unwrap();
    let mut repo = Repository::open(dir.path().join("clipboard.db").to_str().unwrap()).unwrap();

    let timeout_ms: i64 = repo.busy_timeout_ms().unwrap();

    assert!(timeout_ms >= 5_000);
}

#[test]
fn soft_deleted_items_keep_their_row() {
    let mut repo = test_repo();
    let item = make_item("alpha");

    repo.upsert_item(&item).unwrap();
    assert!(repo.soft_delete(item.id, now_nanos().unwrap()).unwrap());

    assert!(repo.get_item(item.id).unwrap().unwrap().deleted_at.is_some());
    assert!(!repo.soft_delete(uuid::Uuid::new_v4().as_u128(), now_nanos().unwrap()).unwrap());
}
