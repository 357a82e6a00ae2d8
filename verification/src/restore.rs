//! The steps of a restore: look the item up, write its payload to the
//! clipboard, record its use, and paste when asked.
use vstd::prelude::*;
use crate::clipboard::ClipboardError;
use crate::item::{ClipboardItem, ClipboardPayload, PayloadView};
use crate::service::{RestoreResponse, ServiceError, payload_for_restore, restore_choice, restore_response};
use crate::storage::StorageError;

verus! {

/// What a restore waits for.
#[derive(Clone, Copy, Debug, PartialEq, Eq, Structural)]
pub enum RestoreStage {
    /// The item looked up.
    Lookup,
    /// The payload written to the clipboard.
    Write,
    /// The item's use recorded.
    Record,
    /// The paste.
    Paste,
    /// Nothing: the restore is over.
    Done,
}

/// The outcome of the outside work a restore asked for.
#[derive(Debug)]
pub enum RestoreOutcome {
    /// The stored item, if any.
    Found(Result<Option<ClipboardItem>, StorageError>),
    /// Whether writing the clipboard worked.
    Written(Result<(), ClipboardError>),
    /// Whether the item was there when its use was recorded.
    Recorded(Result<bool, StorageError>),
    /// Whether pasting worked.
    Pasted(bool),
}

/// What a restore needs next.
#[derive(Debug)]
pub enum RestoreStep {
    /// Write this payload to the clipboard, then report `Written`.
    Write(ClipboardPayload),
    /// Record the use of this item, then report `Recorded`.
    RecordUse(u128),
    /// Paste, then report `Pasted`.
    Paste,
    /// The restore is over with this result.
    Finish(Result<RestoreResponse, ServiceError>),
}

/// A restore step as mathematical values.
pub enum StepView {
    Write(PayloadView),
    RecordUse(u128),
    Paste,
    Finish(Result<RestoreResponse, ServiceError>),
}

impl View for RestoreStep {
    type V = StepView;

    open spec fn view(&self) -> StepView {
        match self {
            RestoreStep::Write(p) => StepView::Write(p@),
            RestoreStep::RecordUse(id) => StepView::RecordUse(*id),
            RestoreStep::Paste => StepView::Paste,
            RestoreStep::Finish(r) => StepView::Finish(*r),
        }
    }
}

/// A restore in progress, as mathematical values.
pub struct FlowView {
    pub id: u128,
    pub auto_paste: bool,
    pub plain_text_only: bool,
    pub stage: RestoreStage,
}

/// A restore of the item `id` before anything was done.
pub open spec fn restore_start(id: u128, auto_paste: bool, plain_text_only: bool) -> FlowView {
    FlowView { id, auto_paste, plain_text_only, stage: RestoreStage::Lookup }
}

/// `outcome` is the outcome of the work a restore at `stage` waits for.
pub open spec fn fits(stage: RestoreStage, outcome: RestoreOutcome) -> bool {
    match outcome {
        RestoreOutcome::Found(_) => stage == RestoreStage::Lookup,
        RestoreOutcome::Written(_) => stage == RestoreStage::Write,
        RestoreOutcome::Recorded(_) => stage == RestoreStage::Record,
        RestoreOutcome::Pasted(_) => stage == RestoreStage::Paste,
    }
}

/// `f` at stage `stage`.
pub open spec fn at(f: FlowView, stage: RestoreStage) -> FlowView {
    FlowView { stage, ..f }
}

/// The restore and its next step after `outcome`: the payload chosen for
/// the item found is written; once it is written the item's use is
/// recorded; then it is pasted only with `auto_paste`. A missing item, a
/// missing plain text, or a failed lookup, write or record ends the restore
/// with that error.
pub open spec fn restore_next(f: FlowView, outcome: RestoreOutcome) -> (FlowView, StepView) {
    match outcome {
        RestoreOutcome::Found(Err(e)) => (
            at(f, RestoreStage::Done),
            StepView::Finish(Err(ServiceError::Storage(e))),
        ),
        RestoreOutcome::Found(Ok(item)) => match restore_choice(item, f.id, f.plain_text_only) {
            Ok(p) => (at(f, RestoreStage::Write), StepView::Write(p)),
            Err(e) => (at(f, RestoreStage::Done), StepView::Finish(Err(e))),
        },
        RestoreOutcome::Written(Ok(())) => (at(f, RestoreStage::Record), StepView::RecordUse(f.id)),
        RestoreOutcome::Written(Err(e)) => (
            at(f, RestoreStage::Done),
            StepView::Finish(Err(ServiceError::Clipboard(e))),
        ),
        RestoreOutcome::Recorded(Ok(true)) => if f.auto_paste {
            (at(f, RestoreStage::Paste), StepView::Paste)
        } else {
            (
                at(f, RestoreStage::Done),
                StepView::Finish(
                    Ok(RestoreResponse { paste_attempted: false, paste_succeeded: false }),
                ),
            )
        },
        RestoreOutcome::Recorded(Ok(false)) => (
            at(f, RestoreStage::Done),
            StepView::Finish(Err(ServiceError::NotFound(f.id))),
        ),
        RestoreOutcome::Recorded(Err(e)) => (
            at(f, RestoreStage::Done),
            StepView::Finish(Err(ServiceError::Storage(e))),
        ),
        RestoreOutcome::Pasted(ok) => (
            at(f, RestoreStage::Done),
            StepView::Finish(Ok(RestoreResponse { paste_attempted: true, paste_succeeded: ok })),
        ),
    }
}

/// The outcome a restore at `stage` gets when the lookup gives `found`, the
/// write `written`, recording the use `recorded` and the paste `pasted`.
pub open spec fn answer(
    stage: RestoreStage,
    found: Result<Option<ClipboardItem>, StorageError>,
    written: Result<(), ClipboardError>,
    recorded: Result<bool, StorageError>,
    pasted: bool,
) -> RestoreOutcome {
    match stage {
        RestoreStage::Lookup => RestoreOutcome::Found(found),
        RestoreStage::Write => RestoreOutcome::Written(written),
        RestoreStage::Record => RestoreOutcome::Recorded(recorded),
        _ => RestoreOutcome::Pasted(pasted),
    }
}

/// The steps a restore takes, at most `fuel` of them, when each piece of
/// work has the given outcome.
pub open spec fn restore_run(
    f: FlowView,
    found: Result<Option<ClipboardItem>, StorageError>,
    written: Result<(), ClipboardError>,
    recorded: Result<bool, StorageError>,
    pasted: bool,
    fuel: nat,
) -> Seq<StepView>
    decreases fuel,
{
    if fuel == 0 || f.stage == RestoreStage::Done {
        Seq::empty()
    } else {
        let (g, s) = restore_next(f, answer(f.stage, found, written, recorded, pasted));
        seq![s] + restore_run(g, found, written, recorded, pasted, (fuel - 1) as nat)
    }
}

/// The whole restore of the item `id`: the chosen payload is written once;
/// only after the write worked is the use recorded; only after that, and
/// only with `auto_paste`, is it pasted; the result says whether a paste was
/// attempted and whether it worked.
pub open spec fn restore_sequence(
    id: u128,
    auto_paste: bool,
    plain_text_only: bool,
    found: Result<Option<ClipboardItem>, StorageError>,
    written: Result<(), ClipboardError>,
    recorded: Result<bool, StorageError>,
    pasted: bool,
) -> Seq<StepView> {
    match found {
        Err(e) => seq![StepView::Finish(Err(ServiceError::Storage(e)))],
        Ok(item) => match restore_choice(item, id, plain_text_only) {
            Err(e) => seq![StepView::Finish(Err(e))],
            Ok(p) => seq![StepView::Write(p)] + match written {
                Err(e) => seq![StepView::Finish(Err(ServiceError::Clipboard(e)))],
                Ok(()) => seq![StepView::RecordUse(id)] + match recorded {
                    Err(e) => seq![StepView::Finish(Err(ServiceError::Storage(e)))],
                    Ok(false) => seq![StepView::Finish(Err(ServiceError::NotFound(id)))],
                    Ok(true) => if auto_paste {
                        seq![
                            StepView::Paste,
                            StepView::Finish(
                                Ok(RestoreResponse { paste_attempted: true, paste_succeeded: pasted }),
                            ),
                        ]
                    } else {
                        seq![
                            StepView::Finish(
                                Ok(RestoreResponse { paste_attempted: false, paste_succeeded: false }),
                            ),
                        ]
                    },
                },
            },
        },
    }
}

/// A restore run step by step takes exactly the steps of
/// [`restore_sequence`]: one write, then the record of the use, then a paste
/// exactly when `auto_paste` is set and everything before it worked.
pub proof fn lemma_restore_sequence(
    id: u128,
    auto_paste: bool,
    plain_text_only: bool,
    found: Result<Option<ClipboardItem>, StorageError>,
    written: Result<(), ClipboardError>,
    recorded: Result<bool, StorageError>,
    pasted: bool,
)
    ensures
        restore_run(restore_start(id, auto_paste, plain_text_only), found, written, recorded, pasted, 5)
            == restore_sequence(id, auto_paste, plain_text_only, found, written, recorded, pasted),
{
    reveal_with_fuel(restore_run, 6);
    let f0 = restore_start(id, auto_paste, plain_text_only);
    let s = restore_sequence(id, auto_paste, plain_text_only, found, written, recorded, pasted);
    let r = restore_run(f0, found, written, recorded, pasted, 5);
    assert(r =~= s);
}

/// A restore pastes: `auto_paste` is set, the item is found with a payload
/// to write, and the write and the record of its use worked.
pub open spec fn restore_pastes(
    id: u128,
    auto_paste: bool,
    plain_text_only: bool,
    found: Result<Option<ClipboardItem>, StorageError>,
    written: Result<(), ClipboardError>,
    recorded: Result<bool, StorageError>,
) -> bool {
    &&& auto_paste
    &&& match found {
        Ok(item) => restore_choice(item, id, plain_text_only) is Ok,
        Err(_) => false,
    }
    &&& written is Ok
    &&& recorded == Ok::<bool, StorageError>(true)
}

/// In a restore, a paste is asked for only with `auto_paste`, and only after
/// the one write of the clipboard; the clipboard is written at most once.
pub proof fn lemma_write_before_paste(
    id: u128,
    auto_paste: bool,
    plain_text_only: bool,
    found: Result<Option<ClipboardItem>, StorageError>,
    written: Result<(), ClipboardError>,
    recorded: Result<bool, StorageError>,
    pasted: bool,
)
    ensures
        ({
            let s = restore_sequence(id, auto_paste, plain_text_only, found, written, recorded, pasted);
            &&& forall|i: int, j: int|
                0 <= i < s.len() && 0 <= j < s.len() && #[trigger] s[i] is Write && #[trigger] s[j] is Write
                    ==> i == j
            &&& forall|j: int|
                0 <= j < s.len() && #[trigger] s[j] is Paste ==> auto_paste && s[0] is Write && 0 < j
            &&& (exists|j: int| 0 <= j < s.len() && #[trigger] s[j] is Paste) <==> restore_pastes(
                id,
                auto_paste,
                plain_text_only,
                found,
                written,
                recorded,
            )
        }),
{
    let s = restore_sequence(id, auto_paste, plain_text_only, found, written, recorded, pasted);
    if restore_pastes(id, auto_paste, plain_text_only, found, written, recorded) {
        assert(s[2] is Paste);
    }
}

/// What a restore of a stored item writes first: its whole payload (plain
/// text, HTML and PNG as stored) unless `plain_text_only`; with
/// `plain_text_only`, its plain text alone, or no write at all and the error
/// that it has none. A restore of a missing item writes nothing.
pub proof fn lemma_restore_writes_stored_payload(
    id: u128,
    auto_paste: bool,
    it: ClipboardItem,
    written: Result<(), ClipboardError>,
    recorded: Result<bool, StorageError>,
    pasted: bool,
)
    ensures
        restore_choice(Some(it), id, false) == Ok::<PayloadView, ServiceError>(it.payload@),
        restore_run(restore_start(id, auto_paste, false), Ok(Some(it)), written, recorded, pasted, 5)[0]
            == StepView::Write(it.payload@),
        it.payload@.text_plain is Some ==> restore_run(
            restore_start(id, auto_paste, true),
            Ok(Some(it)),
            written,
            recorded,
            pasted,
            5,
        )[0] == StepView::Write(
            PayloadView { text_plain: it.payload@.text_plain, text_html: None, image_png: None },
        ),
        it.payload@.text_plain is None ==> restore_run(
            restore_start(id, auto_paste, true),
            Ok(Some(it)),
            written,
            recorded,
            pasted,
            5,
        ) == seq![StepView::Finish(Err(ServiceError::PlainTextUnavailable(id)))],
        restore_run(restore_start(id, auto_paste, false), Ok(None), written, recorded, pasted, 5)
            == seq![StepView::Finish(Err(ServiceError::NotFound(id)))],
{
    lemma_restore_sequence(id, auto_paste, false, Ok(Some(it)), written, recorded, pasted);
    lemma_restore_sequence(id, auto_paste, true, Ok(Some(it)), written, recorded, pasted);
    lemma_restore_sequence(id, auto_paste, false, Ok(None), written, recorded, pasted);
}

/// A restore in progress.
#[derive(Clone, Copy, Debug)]
pub struct RestoreFlow {
    id: u128,
    auto_paste: bool,
    plain_text_only: bool,
    stage: RestoreStage,
}

impl View for RestoreFlow {
    type V = FlowView;

    closed spec fn view(&self) -> FlowView {
        FlowView {
            id: self.id,
            auto_paste: self.auto_paste,
            plain_text_only: self.plain_text_only,
            stage: self.stage,
        }
    }
}

impl RestoreFlow {
    /// A restore of the item `id`, waiting for its lookup.
    pub fn new(id: u128, auto_paste: bool, plain_text_only: bool) -> (f: Self)
        ensures
            f@ == restore_start(id, auto_paste, plain_text_only),
    {
        RestoreFlow { id, auto_paste, plain_text_only, stage: RestoreStage::Lookup }
    }

    /// The item restored.
    pub fn item_id(&self) -> (id: u128)
        ensures
            id == self@.id,
    {
        self.id
    }

    /// What the restore waits for.
    pub fn stage(&self) -> (s: RestoreStage)
        ensures
            s == self@.stage,
    {
        self.stage
    }

    /// Takes the outcome of the work the restore waits for and says what
    /// comes next; see [`restore_next`].
    pub fn step(&mut self, outcome: RestoreOutcome) -> (s: RestoreStep)
        requires
            fits(old(self)@.stage, outcome),
        ensures
            (final(self)@, s@) == restore_next(old(self)@, outcome),
    {
        match outcome {
            RestoreOutcome::Found(Err(e)) => {
                self.stage = RestoreStage::Done;
                RestoreStep::Finish(Err(ServiceError::Storage(e)))
            },
            RestoreOutcome::Found(Ok(item)) => {
                match payload_for_restore(item, self.id, self.plain_text_only) {
                    Ok(p) => {
                        self.stage = RestoreStage::Write;
                        RestoreStep::Write(p)
                    },
                    Err(e) => {
                        self.stage = RestoreStage::Done;
                        RestoreStep::Finish(Err(e))
                    },
                }
            },
            RestoreOutcome::Written(Ok(())) => {
                self.stage = RestoreStage::Record;
                RestoreStep::RecordUse(self.id)
            },
            RestoreOutcome::Written(Err(e)) => {
                self.stage = RestoreStage::Done;
                RestoreStep::Finish(Err(ServiceError::Clipboard(e)))
            },
            RestoreOutcome::Recorded(Ok(true)) => {
                if self.auto_paste {
                    self.stage = RestoreStage::Paste;
                    RestoreStep::Paste
                } else {
                    self.stage = RestoreStage::Done;
                    RestoreStep::Finish(Ok(restore_response(false, false)))
                }
            },
            RestoreOutcome::Recorded(Ok(false)) => {
                self.stage = RestoreStage::Done;
                RestoreStep::Finish(Err(ServiceError::NotFound(self.id)))
            },
            RestoreOutcome::Recorded(Err(e)) => {
                self.stage = RestoreStage::Done;
                RestoreStep::Finish(Err(ServiceError::Storage(e)))
            },
            RestoreOutcome::Pasted(ok) => {
                self.stage = RestoreStage::Done;
                RestoreStep::Finish(Ok(restore_response(true, ok)))
            },
        }
    }
}

} // verus!
