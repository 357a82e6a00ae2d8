//! The daemon's operations on the history: capture, search, restore and the
//! per-item actions.
use vstd::prelude::*;
use crate::clipboard::ClipboardError;
use crate::hash::{content_hash, hash_input, hex_lower, sha256};
use crate::item::{ClipboardItem, ClipboardPayload, PayloadView};
use crate::mime::{mime_types_for, payload_mimes, views};
use crate::search::ranked;
use crate::restore::{RestoreFlow, RestoreOutcome, RestoreStage, RestoreStep, restore_next, restore_start};
use crate::text::{lemma_starts_with_concat, starts_with};
use crate::storage::{
    SqlAnswer, SqlCall, found_answer, instant_storable, lookup_answer, one_more, search_answer,
    upsert_answer, lookup_call, mark_used_call, recent_call, set_favorite_call,
    set_pinned_call, soft_delete_call, times_storable, upsert_call,
    Repository, StorageError, uuid_text, uuid_to_text,
};

verus! {

/// What a capture did.
#[derive(Clone, Copy, Debug, PartialEq, Eq)]
pub enum CaptureResult {
    Stored(u128),
    IgnoredEmpty,
}

/// A failed capture.
#[derive(Debug)]
pub enum CaptureError {
    Clipboard(ClipboardError),
    Storage(StorageError),
}

impl CaptureError {
    /// The error's message.
    pub fn message(&self) -> (m: String)
        ensures
            self is Clipboard ==> starts_with(m@, "clipboard error: "@),
            self is Storage ==> starts_with(m@, "storage error: "@),
    {
        proof {
            lemma_starts_with_concat("clipboard error: "@);
            lemma_starts_with_concat("storage error: "@);
        }
        match self {
            CaptureError::Clipboard(e) => {
                let mut m = String::from_str("clipboard error: ");
                m.append(e.message().as_str());
                m
            },
            CaptureError::Storage(e) => {
                let mut m = String::from_str("storage error: ");
                m.append(e.message().as_str());
                m
            },
        }
    }
}

/// A failed daemon operation.
#[derive(Debug)]
pub enum ServiceError {
    NotFound(u128),
    Storage(StorageError),
    Clipboard(ClipboardError),
    Capture(CaptureError),
    PlainTextUnavailable(u128),
}

impl ServiceError {
    /// The error's message.
    pub fn message(&self) -> (m: String)
        ensures
            self matches ServiceError::NotFound(id) ==> m@ == "item not found: "@ + uuid_text(*id),
            self matches ServiceError::PlainTextUnavailable(id) ==> m@
                == "plain text payload unavailable: "@ + uuid_text(*id),
            self matches ServiceError::Clipboard(e) ==> m@ == "clipboard error: "@
                + e.message_view(),
            self is Storage ==> starts_with(m@, "storage error: "@),
            self is Capture ==> starts_with(m@, "capture error: "@),
    {
        proof {
            lemma_starts_with_concat("storage error: "@);
            lemma_starts_with_concat("capture error: "@);
        }
        match self {
            ServiceError::NotFound(id) => {
                let mut m = String::from_str("item not found: ");
                m.append(uuid_to_text(*id).as_str());
                m
            },
            ServiceError::Storage(e) => {
                let mut m = String::from_str("storage error: ");
                m.append(e.message().as_str());
                m
            },
            ServiceError::Clipboard(e) => {
                let mut m = String::from_str("clipboard error: ");
                m.append(e.message().as_str());
                m
            },
            ServiceError::Capture(e) => {
                let mut m = String::from_str("capture error: ");
                m.append(e.message().as_str());
                m
            },
            ServiceError::PlainTextUnavailable(id) => {
                let mut m = String::from_str("plain text payload unavailable: ");
                m.append(uuid_to_text(*id).as_str());
                m
            },
        }
    }
}

/// Whether a capture stored an item.
#[derive(Clone, Copy, Debug, PartialEq, Eq)]
pub struct CaptureResponse {
    pub captured: bool,
}

/// Whether a restore tried to paste, and whether pasting worked.
#[derive(Clone, Copy, Debug, PartialEq, Eq)]
pub struct RestoreResponse {
    pub paste_attempted: bool,
    pub paste_succeeded: bool,
}

/// The history item made from a captured payload: new, unpinned, not a
/// favorite, created and last used at `now`, with the payload's content
/// hash and MIME types.
pub open spec fn captured_item(item: ClipboardItem, payload: PayloadView, id: u128, now: i128) -> bool {
    &&& item.id == id
    &&& item.created_at == now
    &&& item.last_used_at == now
    &&& item.content_hash@ == hex_lower(sha256(hash_input(payload)))
    &&& views(item.mime_types@) == payload_mimes(payload)
    &&& item.payload@ == payload
    &&& !item.is_pinned
    &&& !item.is_favorite
    &&& item.deleted_at is None
}

/// The history item for a captured payload; see [`captured_item`].
pub fn new_capture_item(payload: ClipboardPayload, id: u128, now: i128) -> (item: ClipboardItem)
    ensures
        captured_item(item, payload@, id, now),
{
    let hash = content_hash(&payload);
    let mime_types = mime_types_for(&payload);
    ClipboardItem {
        id,
        created_at: now,
        last_used_at: now,
        content_hash: hash,
        mime_types,
        payload,
        is_pinned: false,
        is_favorite: false,
        deleted_at: None,
    }
}

/// Stores a payload read from the clipboard as a new history item with id
/// `id`, created at `now` (nanoseconds since the Unix epoch); an empty
/// payload is ignored.
pub fn capture_once(repo: &mut Repository, payload: ClipboardPayload, id: u128, now: i128) -> (r: Result<
    CaptureResult,
    CaptureError,
>)
    ensures
        captures(
            old(repo).calls(),
            final(repo).calls(),
            old(repo).answers(),
            final(repo).answers(),
            payload@,
            id,
            now,
            r,
        ),
{
    if payload.is_empty() {
        return Ok(CaptureResult::IgnoredEmpty);
    }
    let item = new_capture_item(payload, id, now);
    proof {
        assert(times_storable(item) == instant_storable(now));
    }
    let stored = repo.upsert_item(&item);
    let ghost gs = stored;
    proof {
        if instant_storable(now) {
            assert(captured_item(item, payload@, id, now) && repo.calls() == old(repo).calls().push(
                upsert_call(item),
            ));
        }
    }
    let r = match stored {
        Ok(persisted) => Ok(CaptureResult::Stored(persisted)),
        Err(e) => Err(CaptureError::Storage(e)),
    };
    proof {
        assert(r == stored_capture(gs));
    }
    r
}

/// The capture result for the upsert result `stored`.
pub open spec fn stored_capture(stored: Result<u128, StorageError>) -> Result<CaptureResult, CaptureError> {
    match stored {
        Ok(x) => Ok(CaptureResult::Stored(x)),
        Err(e) => Err(CaptureError::Storage(e)),
    }
}

/// What a capture of `payload` as the item `id` at `now` does, from the
/// database's calls `before` and answers `answers_before` to `after` and
/// `answers_after`, with result `r`: an empty payload is ignored and nothing
/// is stored; otherwise, when `now` can be stored, the item made from the
/// payload is upserted and `r` is `Stored` with the id the database gave
/// back, or the error of the upsert; when it cannot, `r` is
/// `TimeOutOfRange` and nothing is stored.
pub open spec fn captures(
    before: Seq<SqlCall>,
    after: Seq<SqlCall>,
    answers_before: Seq<SqlAnswer>,
    answers_after: Seq<SqlAnswer>,
    payload: PayloadView,
    id: u128,
    now: i128,
    r: Result<CaptureResult, CaptureError>,
) -> bool {
    if payload.is_empty() {
        &&& r == Ok::<CaptureResult, CaptureError>(CaptureResult::IgnoredEmpty)
        &&& after == before
        &&& answers_after == answers_before
    } else if instant_storable(now) {
        &&& exists|item: ClipboardItem|
            captured_item(item, payload, id, now) && after == before.push(upsert_call(item))
        &&& one_more(answers_before, answers_after)
        &&& exists|stored: Result<u128, StorageError>|
            upsert_answer(stored, answers_after.last()) && r == stored_capture(stored)
    } else {
        &&& r matches Err(CaptureError::Storage(StorageError::TimeOutOfRange))
        &&& after == before
        &&& answers_after == answers_before
    }
}

/// A capture is ignored only for a payload with no plain text, no HTML and
/// no PNG; any other payload (an image alone among them), captured at a
/// time that can be stored, is upserted as the item made from it.
pub proof fn lemma_capture_ignores_only_empty(
    before: Seq<SqlCall>,
    after: Seq<SqlCall>,
    answers_before: Seq<SqlAnswer>,
    answers_after: Seq<SqlAnswer>,
    payload: PayloadView,
    id: u128,
    now: i128,
    r: Result<CaptureResult, CaptureError>,
)
    requires
        captures(before, after, answers_before, answers_after, payload, id, now, r),
    ensures
        r == Ok::<CaptureResult, CaptureError>(CaptureResult::IgnoredEmpty) ==> payload.text_plain is None
            && payload.text_html is None && payload.image_png is None,
        payload.text_plain is None && payload.text_html is None && payload.image_png is None ==> r
            == Ok::<CaptureResult, CaptureError>(CaptureResult::IgnoredEmpty) && after == before,
        (payload.text_plain is Some || payload.text_html is Some || payload.image_png is Some)
            && instant_storable(now) ==> exists|item: ClipboardItem|
            captured_item(item, payload, id, now) && after == before.push(upsert_call(item)),
{
}

/// The answer of a service action on the item `id` from the database's
/// answer `a` to its update: done when a row changed, `NotFound(id)` when
/// none did, the SQLite error when the update failed.
pub open spec fn action_answer(r: Result<(), ServiceError>, a: SqlAnswer, id: u128) -> bool {
    match a {
        SqlAnswer::Changed(n) => if n > 0 {
            r is Ok
        } else {
            r == Err::<(), ServiceError>(ServiceError::NotFound(id))
        },
        SqlAnswer::Failed => r matches Err(ServiceError::Storage(StorageError::Sqlite(_))),
        _ => false,
    }
}

/// The payload a restore writes: the item's whole payload, or with
/// `plain_text_only` its plain text alone.
pub open spec fn restore_choice(item: Option<ClipboardItem>, id: u128, plain_text_only: bool) -> Result<
    PayloadView,
    ServiceError,
> {
    match item {
        None => Err(ServiceError::NotFound(id)),
        Some(it) => if plain_text_only {
            if it.payload.text_plain is None {
                Err(ServiceError::PlainTextUnavailable(id))
            } else {
                Ok(
                    PayloadView {
                        text_plain: it.payload@.text_plain,
                        text_html: None,
                        image_png: None,
                    },
                )
            }
        } else {
            Ok(it.payload@)
        },
    }
}

/// Both results are the same error, or both are `Ok` with the same payload.
pub open spec fn same_restore(r: Result<ClipboardPayload, ServiceError>, s: Result<PayloadView, ServiceError>) -> bool {
    match (r, s) {
        (Ok(p), Ok(v)) => p@ == v,
        (Err(ServiceError::NotFound(a)), Err(ServiceError::NotFound(b))) => a == b,
        (Err(ServiceError::PlainTextUnavailable(a)), Err(ServiceError::PlainTextUnavailable(b))) => a == b,
        _ => false,
    }
}

/// The payload a restore of the item `id` writes; see [`restore_choice`].
pub fn payload_for_restore(item: Option<ClipboardItem>, id: u128, plain_text_only: bool) -> (r: Result<
    ClipboardPayload,
    ServiceError,
>)
    ensures
        same_restore(r, restore_choice(item, id, plain_text_only)),
{
    match item {
        None => Err(ServiceError::NotFound(id)),
        Some(it) => {
            if plain_text_only {
                if it.payload.text_plain.is_none() {
                    return Err(ServiceError::PlainTextUnavailable(id));
                }
                Ok(ClipboardPayload { text_plain: it.payload.text_plain, text_html: None, image_png: None })
            } else {
                Ok(it.payload)
            }
        },
    }
}

/// The answer to a restore: a paste is attempted only with `auto_paste`,
/// and then reports whether it worked.
pub fn restore_response(auto_paste: bool, paste_succeeded: bool) -> (r: RestoreResponse)
    ensures
        r.paste_attempted == auto_paste,
        r.paste_succeeded == (auto_paste && paste_succeeded),
{
    if !auto_paste {
        RestoreResponse { paste_attempted: false, paste_succeeded: false }
    } else {
        RestoreResponse { paste_attempted: true, paste_succeeded }
    }
}

/// A storage answer for the item `id`: found, not found, or a storage error.
pub open spec fn item_action_result(r: Result<(), ServiceError>, found: Result<bool, StorageError>, id: u128) -> bool {
    match found {
        Ok(true) => r is Ok,
        Ok(false) => (r matches Err(ServiceError::NotFound(x)) && x == id),
        Err(e) => r == Err::<(), ServiceError>(ServiceError::Storage(e)),
    }
}

/// `Ok` when the item `id` was found, `NotFound(id)` when it was not.
pub fn found_or_not_found(found: Result<bool, StorageError>, id: u128) -> (r: Result<(), ServiceError>)
    ensures
        item_action_result(r, found, id),
{
    match found {
        Ok(true) => Ok(()),
        Ok(false) => Err(ServiceError::NotFound(id)),
        Err(e) => Err(ServiceError::Storage(e)),
    }
}

/// A storage result as a service result.
pub open spec fn storage_result<T>(sr: Result<T, StorageError>) -> Result<T, ServiceError> {
    match sr {
        Ok(v) => Ok(v),
        Err(e) => Err(ServiceError::Storage(e)),
    }
}

/// The daemon's state: the history, the clipboard and the paste backend.
pub struct DaemonService<C, P> {
    repo: Repository,
    clipboard: C,
    paste: P,
}

impl<C, P> DaemonService<C, P> {
    /// A service over the given history, clipboard and paste backend.
    pub fn new(repo: Repository, clipboard: C, paste: P) -> (s: Self)
        ensures
            s.calls() == repo.calls(),
            s.answers() == repo.answers(),
            s.clipboard() == clipboard,
            s.paste() == paste,
    {
        DaemonService { repo, clipboard, paste }
    }

    /// What was done on the history's database, in order.
    pub closed spec fn calls(&self) -> Seq<SqlCall> {
        self.repo.calls()
    }

    /// What the history's database gave back for each of `calls`.
    pub closed spec fn answers(&self) -> Seq<SqlAnswer> {
        self.repo.answers()
    }

    /// The clipboard the service reads and writes.
    pub closed spec fn clipboard(&self) -> C {
        self.clipboard
    }

    /// The paste backend the service uses.
    pub closed spec fn paste(&self) -> P {
        self.paste
    }

    /// The clipboard the service reads and writes.
    pub fn clipboard_backend(&self) -> (c: &C)
        ensures
            *c == self.clipboard(),
    {
        &self.clipboard
    }

    /// The paste backend the service uses.
    pub fn paste_backend(&self) -> (p: &P)
        ensures
            *p == self.paste(),
    {
        &self.paste
    }

    /// The items shown for `query`; see [`ranked`] and [`search_answer`].
    pub fn search(&mut self, query: &str) -> (r: Result<Vec<ClipboardItem>, ServiceError>)
        ensures
            final(self).calls() == old(self).calls().push(recent_call()),
            one_more(old(self).answers(), final(self).answers()),
            exists|sr: Result<Vec<ClipboardItem>, StorageError>|
                search_answer(query@, sr, final(self).answers().last()) && r == storage_result(sr),
            final(self).clipboard() == old(self).clipboard(),
            final(self).paste() == old(self).paste(),
    {
        let sr = self.repo.search(query);
        let ghost gs = sr;
        let r = match sr {
            Ok(found) => Ok(found),
            Err(e) => Err(ServiceError::Storage(e)),
        };
        proof {
            assert(r == storage_result(gs));
        }
        r
    }

    /// Stores the payload read from the clipboard as the item `id`, created
    /// at `now`; `captured` says whether an item was stored (an empty payload
    /// is not); see [`captures`].
    pub fn capture_payload(&mut self, payload: ClipboardPayload, id: u128, now: i128) -> (r: Result<
        CaptureResponse,
        ServiceError,
    >)
        ensures
            exists|c: Result<CaptureResult, CaptureError>|
                {
                    &&& captures(
                        old(self).calls(),
                        final(self).calls(),
                        old(self).answers(),
                        final(self).answers(),
                        payload@,
                        id,
                        now,
                        c,
                    )
                    &&& match c {
                        Ok(res) => r == Ok::<CaptureResponse, ServiceError>(
                            CaptureResponse { captured: res is Stored },
                        ),
                        Err(e) => r == Err::<CaptureResponse, ServiceError>(ServiceError::Capture(e)),
                    }
                },
            final(self).clipboard() == old(self).clipboard(),
            final(self).paste() == old(self).paste(),
    {
        let c = capture_once(&mut self.repo, payload, id, now);
        let ghost gc = c;
        let r = match c {
            Ok(CaptureResult::Stored(_)) => Ok(CaptureResponse { captured: true }),
            Ok(CaptureResult::IgnoredEmpty) => Ok(CaptureResponse { captured: false }),
            Err(e) => Err(ServiceError::Capture(e)),
        };
        proof {
            assert(captures(
                old(self).calls(),
                self.calls(),
                old(self).answers(),
                self.answers(),
                payload@,
                id,
                now,
                gc,
            ));
            assert(match gc {
                Ok(res) => r == Ok::<CaptureResponse, ServiceError>(
                    CaptureResponse { captured: res is Stored },
                ),
                Err(e) => r == Err::<CaptureResponse, ServiceError>(ServiceError::Capture(e)),
            });
        }
        r
    }

    /// Starts a restore of the item `id`: looks the item up and says what
    /// comes next; see [`restore_next`] and [`lookup_answer`].
    pub fn begin_restore(&mut self, id: u128, auto_paste: bool, plain_text_only: bool) -> (r: (
        RestoreFlow,
        RestoreStep,
    ))
        ensures
            final(self).calls() == old(self).calls().push(lookup_call(id)),
            one_more(old(self).answers(), final(self).answers()),
            exists|found: Result<Option<ClipboardItem>, StorageError>|
                lookup_answer(found, final(self).answers().last()) && (r.0@, r.1@)
                    == restore_next(
                    restore_start(id, auto_paste, plain_text_only),
                    RestoreOutcome::Found(found),
                ),
            final(self).clipboard() == old(self).clipboard(),
            final(self).paste() == old(self).paste(),
    {
        let mut flow = RestoreFlow::new(id, auto_paste, plain_text_only);
        let found = self.repo.get_item(id);
        let ghost gf = found;
        let step = flow.step(RestoreOutcome::Found(found));
        proof {
            assert(lookup_answer(gf, self.answers().last()));
        }
        (flow, step)
    }

    /// Records, at `now`, the use of the item a restore wrote back, and says
    /// what comes next; see [`restore_next`] and [`found_answer`]. A `now`
    /// that cannot be stored ends the restore with `TimeOutOfRange`.
    pub fn record_restore_use(&mut self, flow: &mut RestoreFlow, now: i128) -> (s: RestoreStep)
        requires
            old(flow)@.stage == RestoreStage::Record,
        ensures
            instant_storable(now) ==> final(self).calls() == old(self).calls().push(
                mark_used_call(old(flow)@.id, now),
            ),
            instant_storable(now) ==> one_more(old(self).answers(), final(self).answers()),
            instant_storable(now) ==> exists|recorded: Result<bool, StorageError>|
                found_answer(recorded, final(self).answers().last()) && (final(flow)@, s@)
                    == restore_next(old(flow)@, RestoreOutcome::Recorded(recorded)),
            !instant_storable(now) ==> final(self).calls() == old(self).calls(),
            !instant_storable(now) ==> final(self).answers() == old(self).answers(),
            !instant_storable(now) ==> (final(flow)@, s@) == restore_next(
                old(flow)@,
                RestoreOutcome::Recorded(Err(StorageError::TimeOutOfRange)),
            ),
            final(self).clipboard() == old(self).clipboard(),
            final(self).paste() == old(self).paste(),
    {
        let recorded = self.repo.mark_used(flow.item_id(), now);
        let ghost gr = recorded;
        let s = flow.step(RestoreOutcome::Recorded(recorded));
        proof {
            if instant_storable(now) {
                assert(found_answer(gr, self.answers().last()));
            }
        }
        s
    }

    /// Hides the item `id` from searches, as deleted at `now`; `NotFound(id)`
    /// when there is no such item; see [`action_answer`].
    pub fn soft_delete(&mut self, id: u128, now: i128) -> (r: Result<(), ServiceError>)
        ensures
            instant_storable(now) ==> final(self).calls() == old(self).calls().push(
                soft_delete_call(id, now),
            ),
            instant_storable(now) ==> one_more(old(self).answers(), final(self).answers())
                && action_answer(r, final(self).answers().last(), id),
            !instant_storable(now) ==> final(self).calls() == old(self).calls()
                && final(self).answers() == old(self).answers() && r matches Err(
                ServiceError::Storage(StorageError::TimeOutOfRange),
            ),
            final(self).clipboard() == old(self).clipboard(),
            final(self).paste() == old(self).paste(),
    {
        let found = self.repo.soft_delete(id, now);
        let r = found_or_not_found(found, id);
        r
    }

    /// Sets the pinned flag of the item `id`; `NotFound(id)` when there is no
    /// such item; see [`action_answer`].
    pub fn set_pinned(&mut self, id: u128, value: bool) -> (r: Result<(), ServiceError>)
        ensures
            final(self).calls() == old(self).calls().push(set_pinned_call(id, value)),
            one_more(old(self).answers(), final(self).answers()),
            action_answer(r, final(self).answers().last(), id),
            final(self).clipboard() == old(self).clipboard(),
            final(self).paste() == old(self).paste(),
    {
        found_or_not_found(self.repo.set_pinned(id, value), id)
    }

    /// Sets the favorite flag of the item `id`; `NotFound(id)` when there is
    /// no such item; see [`action_answer`].
    pub fn set_favorite(&mut self, id: u128, value: bool) -> (r: Result<(), ServiceError>)
        ensures
            final(self).calls() == old(self).calls().push(set_favorite_call(id, value)),
            one_more(old(self).answers(), final(self).answers()),
            action_answer(r, final(self).answers().last(), id),
            final(self).clipboard() == old(self).clipboard(),
            final(self).paste() == old(self).paste(),
    {
        found_or_not_found(self.repo.set_favorite(id, value), id)
    }
}

} // verus!
