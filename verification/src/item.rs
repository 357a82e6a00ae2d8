//! Clipboard payloads and the history items that hold them.
use vstd::prelude::*;

verus! {

/// The supported representations of one clipboard content.
#[derive(Clone, Debug, PartialEq, Eq)]
pub struct ClipboardPayload {
    pub text_plain: Option<String>,
    pub text_html: Option<String>,
    pub image_png: Option<Vec<u8>>,
}

/// A payload's contents as mathematical values.
pub struct PayloadView {
    pub text_plain: Option<Seq<char>>,
    pub text_html: Option<Seq<char>>,
    pub image_png: Option<Seq<u8>>,
}

pub open spec fn opt_text_view(o: Option<String>) -> Option<Seq<char>> {
    match o {
        Some(s) => Some(s@),
        None => None,
    }
}

pub open spec fn opt_bytes_view(o: Option<Vec<u8>>) -> Option<Seq<u8>> {
    match o {
        Some(v) => Some(v@),
        None => None,
    }
}

/// The text of `o`, or the empty text.
pub open spec fn text_or_empty(o: Option<String>) -> Seq<char> {
    match o {
        Some(s) => s@,
        None => Seq::empty(),
    }
}

impl View for ClipboardPayload {
    type V = PayloadView;

    open spec fn view(&self) -> PayloadView {
        PayloadView {
            text_plain: opt_text_view(self.text_plain),
            text_html: opt_text_view(self.text_html),
            image_png: opt_bytes_view(self.image_png),
        }
    }
}

impl PayloadView {
    /// No representation is present.
    pub open spec fn is_empty(self) -> bool {
        self.text_plain is None && self.text_html is None && self.image_png is None
    }
}

fn copy_text(o: &Option<String>) -> (r: Option<String>)
    ensures
        opt_text_view(r) == opt_text_view(*o),
{
    match o {
        Some(s) => Some(s.clone()),
        None => None,
    }
}

fn copy_bytes(o: &Option<Vec<u8>>) -> (r: Option<Vec<u8>>)
    ensures
        opt_bytes_view(r) == opt_bytes_view(*o),
{
    match o {
        Some(v) => {
            let c = v.clone();
            assert(c@ =~= v@);
            Some(c)
        },
        None => None,
    }
}

impl ClipboardPayload {
    /// No representation is present.
    pub fn is_empty(&self) -> (b: bool)
        ensures
            b == self@.is_empty(),
    {
        self.text_plain.is_none() && self.text_html.is_none() && self.image_png.is_none()
    }

    /// A payload with the same contents.
    pub fn duplicate(&self) -> (p: ClipboardPayload)
        ensures
            p@ == self@,
    {
        ClipboardPayload {
            text_plain: copy_text(&self.text_plain),
            text_html: copy_text(&self.text_html),
            image_png: copy_bytes(&self.image_png),
        }
    }
}

/// One entry of the clipboard history.
///
/// `id` is the UUID as a 128-bit number; the times are nanoseconds since the
/// Unix epoch (UTC).
#[derive(Clone, Debug, PartialEq, Eq)]
pub struct ClipboardItem {
    pub id: u128,
    pub created_at: i128,
    pub last_used_at: i128,
    pub content_hash: String,
    pub mime_types: Vec<String>,
    pub payload: ClipboardPayload,
    pub is_pinned: bool,
    pub is_favorite: bool,
    pub deleted_at: Option<i128>,
}

} // verus!
