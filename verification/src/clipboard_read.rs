//! Reading the supported targets of the X11 clipboard, one target at a time:
//! plain text first, HTML only when there is no plain text, then PNG.
use vstd::prelude::*;
use crate::html::{normalize_plain_text, normalized_plain_text};
use crate::item::{ClipboardPayload, PayloadView, opt_bytes_view, opt_text_view};
use crate::mime::{
    MimeKind, first_offered_from, kind_mime, lemma_first_offered_from, offered_mime_for, views,
};

verus! {

/// The target a read of the supported targets is at.
#[derive(Clone, Copy, Debug, PartialEq, Eq, Structural)]
pub enum ReadStage {
    PlainText,
    Html,
    Png,
    Finished,
}

/// A read in progress, as mathematical values: the offered targets, the
/// stage, and what was read so far.
pub struct ReadState {
    pub offered: Seq<Seq<char>>,
    pub stage: ReadStage,
    pub text_plain: Option<Seq<char>>,
    pub text_html: Option<Seq<char>>,
    pub image_png: Option<Seq<u8>>,
}

/// What a read needs next, as mathematical values.
pub enum StepView {
    Text(Seq<char>),
    Bytes(Seq<char>),
    Done(PayloadView),
}

/// What a read needs next: the text or the bytes of a target, or nothing
/// more, with the payload read.
#[derive(Debug)]
pub enum ReadStep {
    /// Read this target as text and hand the result to `text_read`.
    Text(String),
    /// Read this target as bytes and hand the result to `bytes_read`.
    Bytes(String),
    /// The read is over.
    Done(ClipboardPayload),
}

impl View for ReadStep {
    type V = StepView;

    open spec fn view(&self) -> StepView {
        match self {
            ReadStep::Text(m) => StepView::Text(m@),
            ReadStep::Bytes(m) => StepView::Bytes(m@),
            ReadStep::Done(p) => StepView::Done(p@),
        }
    }
}

/// The first offered target of `kind`, if any.
pub open spec fn target_of(offered: Seq<Seq<char>>, kind: MimeKind) -> Option<Seq<char>> {
    match first_offered_from(offered, kind_mime(kind), 0) {
        Some(i) => Some(offered[i]),
        None => None,
    }
}

/// The payload a read gives when reading the plain text target gives
/// `plain`, the HTML target `html` and the PNG target `png`: the plain text
/// normalized, the HTML only without plain text, and only offered targets.
pub open spec fn read_payload(
    offered: Seq<Seq<char>>,
    plain: Option<Seq<char>>,
    html: Option<Seq<char>>,
    png: Option<Seq<u8>>,
) -> PayloadView {
    let text_plain = if target_of(offered, MimeKind::TextPlain) is Some {
        match plain {
            Some(t) => Some(normalized_plain_text(t)),
            None => None,
        }
    } else {
        None
    };
    PayloadView {
        text_plain,
        text_html: if text_plain is None && target_of(offered, MimeKind::TextHtml) is Some {
            html
        } else {
            None
        },
        image_png: if target_of(offered, MimeKind::ImagePng) is Some {
            png
        } else {
            None
        },
    }
}

/// The stage after the plain text and HTML stages: PNG when it is offered.
pub open spec fn stage_from_png(offered: Seq<Seq<char>>) -> ReadStage {
    if target_of(offered, MimeKind::ImagePng) is Some {
        ReadStage::Png
    } else {
        ReadStage::Finished
    }
}

/// The stage after the plain text stage: HTML when there is no plain text
/// and HTML is offered.
pub open spec fn stage_from_html(offered: Seq<Seq<char>>, text_plain: Option<Seq<char>>) -> ReadStage {
    if text_plain is None && target_of(offered, MimeKind::TextHtml) is Some {
        ReadStage::Html
    } else {
        stage_from_png(offered)
    }
}

/// The first stage: plain text when it is offered.
pub open spec fn stage_from_plain(offered: Seq<Seq<char>>) -> ReadStage {
    if target_of(offered, MimeKind::TextPlain) is Some {
        ReadStage::PlainText
    } else {
        stage_from_html(offered, None)
    }
}

/// Each stage but the last has its target offered.
pub open spec fn settled(s: ReadState) -> bool {
    match s.stage {
        ReadStage::PlainText => target_of(s.offered, MimeKind::TextPlain) is Some,
        ReadStage::Html => target_of(s.offered, MimeKind::TextHtml) is Some,
        ReadStage::Png => target_of(s.offered, MimeKind::ImagePng) is Some,
        ReadStage::Finished => true,
    }
}

/// A read of the offered targets before anything was read.
pub open spec fn initial_read(offered: Seq<Seq<char>>) -> ReadState {
    ReadState {
        offered,
        stage: stage_from_plain(offered),
        text_plain: None,
        text_html: None,
        image_png: None,
    }
}

/// The state after reading text `text` at the stage of `s` (unchanged at
/// a stage that reads no text).
pub open spec fn after_text(s: ReadState, text: Option<Seq<char>>) -> ReadState {
    match s.stage {
        ReadStage::PlainText => {
            let plain = match text {
                Some(t) => Some(normalized_plain_text(t)),
                None => None,
            };
            ReadState { stage: stage_from_html(s.offered, plain), text_plain: plain, ..s }
        },
        ReadStage::Html => ReadState { stage: stage_from_png(s.offered), text_html: text, ..s },
        _ => s,
    }
}

/// The state after reading bytes `bytes` at the stage of `s` (unchanged at
/// a stage that reads no bytes).
pub open spec fn after_bytes(s: ReadState, bytes: Option<Seq<u8>>) -> ReadState {
    match s.stage {
        ReadStage::Png => ReadState { stage: ReadStage::Finished, image_png: bytes, ..s },
        _ => s,
    }
}

/// What a read in state `s` needs next.
pub open spec fn step_of(s: ReadState) -> StepView {
    match s.stage {
        ReadStage::PlainText => StepView::Text(target_of(s.offered, MimeKind::TextPlain).unwrap()),
        ReadStage::Html => StepView::Text(target_of(s.offered, MimeKind::TextHtml).unwrap()),
        ReadStage::Png => StepView::Bytes(target_of(s.offered, MimeKind::ImagePng).unwrap()),
        ReadStage::Finished => StepView::Done(
            PayloadView {
                text_plain: s.text_plain,
                text_html: s.text_html,
                image_png: s.image_png,
            },
        ),
    }
}

/// The state after answering what `s` needs, when reading the plain text
/// target gives `plain`, the HTML target `html` and the PNG target `png`.
pub open spec fn answered(
    s: ReadState,
    plain: Option<Seq<char>>,
    html: Option<Seq<char>>,
    png: Option<Seq<u8>>,
) -> ReadState {
    match s.stage {
        ReadStage::PlainText => after_text(s, plain),
        ReadStage::Html => after_text(s, html),
        ReadStage::Png => after_bytes(s, png),
        ReadStage::Finished => s,
    }
}

/// A read answered with what each target gives is over after at most three
/// reads, and its payload is [`read_payload`] of those answers.
pub proof fn lemma_read_completes(
    offered: Seq<Seq<char>>,
    plain: Option<Seq<char>>,
    html: Option<Seq<char>>,
    png: Option<Seq<u8>>,
)
    ensures
        ({
            let s0 = initial_read(offered);
            let s3 = answered(
                answered(answered(s0, plain, html, png), plain, html, png),
                plain,
                html,
                png,
            );
            &&& s3.stage == ReadStage::Finished
            &&& step_of(s3) == StepView::Done(read_payload(offered, plain, html, png))
        }),
{
}

/// What a finished read holds, target by target, whatever was read for the
/// others: the PNG bytes whenever PNG is offered (after plain text or HTML
/// alike); the plain text, normalized, whenever it is offered and read;
/// the HTML only when no plain text was had and HTML is offered.
pub proof fn lemma_read_holds_each_target(
    offered: Seq<Seq<char>>,
    plain: Option<Seq<char>>,
    html: Option<Seq<char>>,
    png: Option<Seq<u8>>,
)
    ensures
        ({
            let s0 = initial_read(offered);
            let s3 = answered(
                answered(answered(s0, plain, html, png), plain, html, png),
                plain,
                html,
                png,
            );
            let had_plain = target_of(offered, MimeKind::TextPlain) is Some && plain is Some;
            &&& step_of(s3) is Done
            &&& target_of(offered, MimeKind::ImagePng) is Some ==> s3.image_png == png
            &&& target_of(offered, MimeKind::ImagePng) is None ==> s3.image_png is None
            &&& had_plain ==> s3.text_plain == Some(normalized_plain_text(plain.unwrap()))
            &&& !had_plain ==> s3.text_plain is None
            &&& !had_plain && target_of(offered, MimeKind::TextHtml) is Some ==> s3.text_html
                == html
            &&& had_plain || target_of(offered, MimeKind::TextHtml) is None ==> s3.text_html is None
            &&& step_of(s3) == StepView::Done(
                PayloadView {
                    text_plain: s3.text_plain,
                    text_html: s3.text_html,
                    image_png: s3.image_png,
                },
            )
        }),
        target_of(offered, MimeKind::ImagePng) is Some ==> read_payload(
            offered,
            plain,
            html,
            png,
        ).image_png == png,
        target_of(offered, MimeKind::ImagePng) is None ==> read_payload(
            offered,
            plain,
            html,
            png,
        ).image_png is None,
{
}

/// A read of the supported targets of the clipboard.
pub struct SupportedRead {
    offered: Vec<String>,
    stage: ReadStage,
    payload: ClipboardPayload,
}

impl View for SupportedRead {
    type V = ReadState;

    closed spec fn view(&self) -> ReadState {
        ReadState {
            offered: views(self.offered@),
            stage: self.stage,
            text_plain: self.payload@.text_plain,
            text_html: self.payload@.text_html,
            image_png: self.payload@.image_png,
        }
    }
}

fn target_text(offered: &[String], kind: MimeKind) -> (r: Option<String>)
    ensures
        opt_text_view(r) == target_of(views(offered@), kind),
{
    let r = match offered_mime_for(offered, kind) {
        Some(m) => Some(String::from_str(m)),
        None => None,
    };
    proof {
        if let Some(i) = first_offered_from(views(offered@), kind_mime(kind), 0) {
            lemma_first_offered_from(views(offered@), kind_mime(kind), 0);
            assert(views(offered@)[i] == offered@[i]@);
        }
    }
    r
}

fn png_stage(offered: &[String]) -> (st: ReadStage)
    ensures
        st == stage_from_png(views(offered@)),
{
    if offered_mime_for(offered, MimeKind::ImagePng).is_some() {
        ReadStage::Png
    } else {
        ReadStage::Finished
    }
}

fn html_stage(offered: &[String], has_plain: bool) -> (st: ReadStage)
    ensures
        forall|p: Option<Seq<char>>| (p is Some) == has_plain ==> st == stage_from_html(
            views(offered@),
            p,
        ),
{
    if !has_plain && offered_mime_for(offered, MimeKind::TextHtml).is_some() {
        ReadStage::Html
    } else {
        png_stage(offered)
    }
}

impl SupportedRead {
    #[verifier::type_invariant]
    spec fn is_settled(self) -> bool {
        settled(self@)
    }

    /// What the read needs next.
    fn step(&self) -> (step: ReadStep)
        ensures
            step@ == step_of(self@),
    {
        proof {
            use_type_invariant(self);
        }
        match self.stage {
            ReadStage::PlainText => ReadStep::Text(
                target_text(&self.offered, MimeKind::TextPlain).unwrap(),
            ),
            ReadStage::Html => ReadStep::Text(
                target_text(&self.offered, MimeKind::TextHtml).unwrap(),
            ),
            ReadStage::Png => ReadStep::Bytes(
                target_text(&self.offered, MimeKind::ImagePng).unwrap(),
            ),
            ReadStage::Finished => ReadStep::Done(self.payload.duplicate()),
        }
    }

    /// Starts a read of the targets `offered` (as listed by `TARGETS`), and
    /// says what it needs first.
    pub fn start(offered: Vec<String>) -> (r: (SupportedRead, ReadStep))
        ensures
            r.0@ == initial_read(views(offered@)),
            r.1@ == step_of(r.0@),
    {
        let stage = if offered_mime_for(&offered, MimeKind::TextPlain).is_some() {
            ReadStage::PlainText
        } else {
            html_stage(&offered, false)
        };
        let read = SupportedRead {
            offered,
            stage,
            payload: ClipboardPayload { text_plain: None, text_html: None, image_png: None },
        };
        let step = read.step();
        (read, step)
    }

    /// Hands over the text read for the target the read asked for (`None`
    /// when it was not available), and says what the read needs next.
    pub fn text_read(&mut self, text: Option<String>) -> (step: ReadStep)
        ensures
            final(self)@ == after_text(old(self)@, opt_text_view(text)),
            step@ == step_of(final(self)@),
    {
        proof {
            use_type_invariant(&*self);
        }
        match self.stage {
            ReadStage::PlainText => {
                let plain = match text {
                    Some(t) => Some(normalize_plain_text(t)),
                    None => None,
                };
                let stage = html_stage(&self.offered, plain.is_some());
                self.payload.text_plain = plain;
                self.stage = stage;
            },
            ReadStage::Html => {
                let stage = png_stage(&self.offered);
                self.payload.text_html = text;
                self.stage = stage;
            },
            _ => {},
        }
        self.step()
    }

    /// Hands over the bytes read for the target the read asked for (`None`
    /// when it was not available), and says what the read needs next.
    pub fn bytes_read(&mut self, bytes: Option<Vec<u8>>) -> (step: ReadStep)
        ensures
            final(self)@ == after_bytes(old(self)@, opt_bytes_view(bytes)),
            step@ == step_of(final(self)@),
    {
        proof {
            use_type_invariant(&*self);
        }
        if self.stage == ReadStage::Png {
            self.payload.image_png = bytes;
            self.stage = ReadStage::Finished;
        }
        self.step()
    }
}

} // verus!
