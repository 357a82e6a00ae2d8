//! How the picker's list, status line and window answer the daemon's
//! replies.
use vstd::prelude::*;
use crate::item::ClipboardItem;
use crate::service::RestoreResponse;
use crate::view_model::{PickerModel, first_row_of, lemma_first_row_from};

verus! {

/// A reply of the daemon to a request the picker made.
#[derive(Debug)]
pub enum UiMessage {
    SearchFinished(Vec<ClipboardItem>),
    SearchFailed(String),
    RestoreFinished(Result<RestoreResponse, String>),
    DeleteFinished { id: u128, result: Result<(), String> },
    PinFinished { id: u128, value: bool, result: Result<(), String> },
    FavoriteFinished { id: u128, value: bool, result: Result<(), String> },
}

/// What the window does after a reply.
#[derive(Debug)]
pub struct UiEffect {
    /// The new text of the status line; `None` leaves it as it is.
    pub status: Option<String>,
    /// The list is drawn again from the model.
    pub render: bool,
    /// The window closes.
    pub close: bool,
}

/// `items` without the first row holding `id`.
pub open spec fn items_without(items: Seq<ClipboardItem>, id: u128) -> Seq<ClipboardItem> {
    match first_row_of(items, id) {
        None => items,
        Some(i) => items.remove(i),
    }
}

/// The selection after a row was taken out: the same row, or the new last
/// row when it fell past the end.
pub open spec fn selection_within(index: int, len: int) -> int {
    if index < len {
        index
    } else if len > 0 {
        len - 1
    } else {
        0
    }
}

/// `items` with the pinned flag of the first row holding `id` set to `value`.
pub open spec fn items_with_pin(items: Seq<ClipboardItem>, id: u128, value: bool) -> Seq<
    ClipboardItem,
> {
    match first_row_of(items, id) {
        None => items,
        Some(i) => items.update(i, ClipboardItem { is_pinned: value, ..items[i] }),
    }
}

/// `items` with the favorite flag of the first row holding `id` set to
/// `value`.
pub open spec fn items_with_favorite(items: Seq<ClipboardItem>, id: u128, value: bool) -> Seq<
    ClipboardItem,
> {
    match first_row_of(items, id) {
        None => items,
        Some(i) => items.update(i, ClipboardItem { is_favorite: value, ..items[i] }),
    }
}

/// The status line after a reply, `None` when it stays as it is.
pub open spec fn status_after(message: UiMessage) -> Option<Seq<char>> {
    match message {
        UiMessage::SearchFinished(_) => Some(Seq::empty()),
        UiMessage::SearchFailed(error) => Some(error@),
        UiMessage::RestoreFinished(Ok(response)) => if response.paste_attempted
            && !response.paste_succeeded {
            Some("Clipboard restored; automatic paste did not complete"@)
        } else {
            None
        },
        UiMessage::RestoreFinished(Err(error)) => Some("Restore failed: "@ + error@),
        UiMessage::DeleteFinished { result, .. } => match result {
            Ok(()) => Some(Seq::empty()),
            Err(error) => Some("Delete failed: "@ + error@),
        },
        UiMessage::PinFinished { result, .. } => match result {
            Ok(()) => Some(Seq::empty()),
            Err(error) => Some("Pin failed: "@ + error@),
        },
        UiMessage::FavoriteFinished { result, .. } => match result {
            Ok(()) => Some(Seq::empty()),
            Err(error) => Some("Favorite failed: "@ + error@),
        },
    }
}

/// The list is drawn again after a search, and after a delete, pin or
/// favorite that worked.
pub open spec fn renders_after(message: UiMessage) -> bool {
    match message {
        UiMessage::SearchFinished(_) => true,
        UiMessage::SearchFailed(_) => true,
        UiMessage::RestoreFinished(_) => false,
        UiMessage::DeleteFinished { result, .. } => result is Ok,
        UiMessage::PinFinished { result, .. } => result is Ok,
        UiMessage::FavoriteFinished { result, .. } => result is Ok,
    }
}

/// The model's rows and selection after a reply.
pub open spec fn model_after(items: Seq<ClipboardItem>, selected: int, message: UiMessage) -> (Seq<
    ClipboardItem,
>, int) {
    match message {
        UiMessage::SearchFinished(found) => (found@, 0),
        UiMessage::SearchFailed(_) => (Seq::empty(), 0),
        UiMessage::RestoreFinished(_) => (items, selected),
        UiMessage::DeleteFinished { id, result } => if result is Ok {
            let rest = items_without(items, id);
            (rest, if first_row_of(items, id) is Some {
                selection_within(selected, rest.len() as int)
            } else {
                selected
            })
        } else {
            (items, selected)
        },
        UiMessage::PinFinished { id, value, result } => if result is Ok {
            (items_with_pin(items, id, value), selected)
        } else {
            (items, selected)
        },
        UiMessage::FavoriteFinished { id, value, result } => if result is Ok {
            (items_with_favorite(items, id, value), selected)
        } else {
            (items, selected)
        },
    }
}

/// `prefix` followed by `error`.
fn prefixed(prefix: &str, error: &str) -> (s: String)
    ensures
        s@ == prefix@ + error@,
{
    let mut s = String::from_str(prefix);
    s.append(error);
    s
}

/// Applies a reply of the daemon to the picker's model and says what the
/// window does: a search replaces the rows (none when it failed), a delete,
/// pin or favorite that worked changes the item's row, a restore that worked
/// closes the window, and the status line shows the failure, or is cleared.
/// A model whose selection is on a row keeps it on a row.
pub fn apply_reply(model: &mut PickerModel, message: UiMessage) -> (effect: UiEffect)
    ensures
        old(model).well_formed() ==> final(model).well_formed(),
        (final(model).items@, final(model).selected_index as int) == model_after(
            old(model).items@,
            old(model).selected_index as int,
            message,
        ),
        match effect.status {
            Some(s) => status_after(message) == Some(s@),
            None => status_after(message) is None,
        },
        effect.render == renders_after(message),
        effect.close == (message matches UiMessage::RestoreFinished(Ok(_))),
{
    proof {
        reveal_strlit("Clipboard restored; automatic paste did not complete");
    }
    match message {
        UiMessage::SearchFinished(items) => {
            model.replace_items(items);
            UiEffect { status: Some(String::new()), render: true, close: false }
        },
        UiMessage::SearchFailed(error) => {
            model.replace_items(Vec::new());
            UiEffect { status: Some(error), render: true, close: false }
        },
        UiMessage::RestoreFinished(Ok(response)) => {
            let status = if response.paste_attempted && !response.paste_succeeded {
                Some(String::from_str("Clipboard restored; automatic paste did not complete"))
            } else {
                None
            };
            UiEffect { status, render: false, close: true }
        },
        UiMessage::RestoreFinished(Err(error)) => {
            UiEffect {
                status: Some(prefixed("Restore failed: ", error.as_str())),
                render: false,
                close: false,
            }
        },
        UiMessage::DeleteFinished { id, result } => match result {
            Ok(()) => {
                proof {
                    lemma_first_row_from(model.items@, id, 0);
                }
                let _ = model.remove_by_id(id);
                UiEffect { status: Some(String::new()), render: true, close: false }
            },
            Err(error) => UiEffect {
                status: Some(prefixed("Delete failed: ", error.as_str())),
                render: false,
                close: false,
            },
        },
        UiMessage::PinFinished { id, value, result } => match result {
            Ok(()) => {
                model.set_pin_by_id(id, value);
                UiEffect { status: Some(String::new()), render: true, close: false }
            },
            Err(error) => UiEffect {
                status: Some(prefixed("Pin failed: ", error.as_str())),
                render: false,
                close: false,
            },
        },
        UiMessage::FavoriteFinished { id, value, result } => match result {
            Ok(()) => {
                model.set_favorite_by_id(id, value);
                UiEffect { status: Some(String::new()), render: true, close: false }
            },
            Err(error) => UiEffect {
                status: Some(prefixed("Favorite failed: ", error.as_str())),
                render: false,
                close: false,
            },
        },
    }
}

} // verus!
