//! The text the picker shows for an item, and the picker's key bindings.
use vstd::prelude::*;
use crate::html::{is_html_document, looks_like_html_chars, remove_tags, strip_comment_chars, strip_comments, tags_removed};
use crate::item::{ClipboardItem, PayloadView};
use crate::text::{chars_of, copy_range, condense, condense_ws, string_of, take_at_most, take_chars, trim, trimmed};

verus! {

/// How many characters a collapsed row shows.
pub const PREVIEW_CHARS: usize = 160;

/// How many characters an expanded row shows.
pub const EXPANDED_CHARS: usize = 1000;

/// The decimal digit for `d < 10`.
pub open spec fn digit_char(d: nat) -> char {
    (('0' as u32) + d) as char
}

/// The decimal notation of `n`, without leading zeros.
pub open spec fn decimal(n: nat) -> Seq<char>
    decreases n,
{
    if n < 10 {
        seq![digit_char(n)]
    } else {
        decimal(n / 10).push(digit_char(n % 10))
    }
}

/// The PNG file signature.
pub open spec fn png_signature() -> Seq<u8> {
    seq![0x89u8, 0x50, 0x4e, 0x47, 0x0d, 0x0a, 0x1a, 0x0a]
}

/// The chunk type `IHDR`.
pub open spec fn ihdr_tag() -> Seq<u8> {
    seq![0x49u8, 0x48, 0x44, 0x52]
}

/// The big-endian 32-bit number at `b[i..i + 4]`.
pub open spec fn be_u32_at(b: Seq<u8>, i: int) -> int {
    b[i] * 0x1000000 + b[i + 1] * 0x10000 + b[i + 2] * 0x100 + b[i + 3]
}

/// Width and height from the header of a PNG image: the signature must be
/// followed by an `IHDR` chunk.
pub open spec fn png_size(b: Seq<u8>) -> Option<(int, int)> {
    if b.len() >= 24 && b.take(8) == png_signature() && b.subrange(12, 16) == ihdr_tag() {
        Some((be_u32_at(b, 16), be_u32_at(b, 20)))
    } else {
        None
    }
}

/// Plain text as previewed: an HTML document shows its text with comments
/// and tags removed.
pub open spec fn plain_preview(t: Seq<char>) -> Seq<char> {
    if is_html_document(t) {
        tags_removed(strip_comments(t), false, false)
    } else {
        t
    }
}

/// The description of a PNG image of `len` bytes.
pub open spec fn image_description(b: Seq<u8>) -> Seq<char> {
    match png_size(b) {
        Some((w, h)) => "PNG image, "@ + decimal(w as nat) + "x"@ + decimal(h as nat) + ", "@
            + decimal(b.len()) + " bytes"@,
        None => "PNG image, "@ + decimal(b.len()) + " bytes"@,
    }
}

/// What an item shows: its plain text, else its HTML without tags, else a
/// description of its image.
pub open spec fn display_text(p: PayloadView) -> Seq<char> {
    match p.text_plain {
        Some(t) => plain_preview(t),
        None => match p.text_html {
            Some(h) => if trim(tags_removed(h, false, false)).len() == 0 {
                "[HTML content]"@
            } else {
                tags_removed(h, false, false)
            },
            None => match p.image_png {
                Some(b) => image_description(b),
                None => "[Unsupported content]"@,
            },
        },
    }
}

/// The one-line preview of an item: words joined by single spaces, at most
/// 160 characters.
pub open spec fn preview_of(p: PayloadView) -> Seq<char> {
    take_at_most(condense_ws(display_text(p)), PREVIEW_CHARS as nat)
}

/// The label of a row: the preview, or when expanded the display text
/// capped at 1000 characters.
pub open spec fn label_of(p: PayloadView, expanded: bool) -> Seq<char> {
    if expanded {
        take_at_most(display_text(p), EXPANDED_CHARS as nat)
    } else {
        preview_of(p)
    }
}

fn push_digit(out: &mut Vec<char>, d: u64)
    requires
        d < 10,
    ensures
        final(out)@ == old(out)@.push(digit_char(d as nat)),
{
    let c = match d {
        0 => '0',
        1 => '1',
        2 => '2',
        3 => '3',
        4 => '4',
        5 => '5',
        6 => '6',
        7 => '7',
        8 => '8',
        _ => '9',
    };
    out.push(c);
}

/// Appends the decimal notation of `n`.
pub fn push_decimal(out: &mut Vec<char>, n: u64)
    ensures
        final(out)@ == old(out)@ + decimal(n as nat),
    decreases n,
{
    if n >= 10 {
        push_decimal(out, n / 10);
        let ghost mid = out@;
        push_digit(out, n % 10);
        assert(out@ =~= old(out)@ + decimal(n as nat));
    } else {
        push_digit(out, n);
        assert(out@ =~= old(out)@ + decimal(n as nat));
    }
}

fn push_str(out: &mut Vec<char>, s: &str)
    ensures
        final(out)@ == old(out)@ + s@,
{
    let mut cs = chars_of(s);
    out.append(&mut cs);
}

/// Width and height of a PNG image, read from its header.
pub fn png_dimensions(bytes: &[u8]) -> (r: Option<(u32, u32)>)
    ensures
        match r {
            Some((w, h)) => png_size(bytes@) == Some((w as int, h as int)),
            None => png_size(bytes@) is None,
        },
{
    if bytes.len() < 24 {
        return None;
    }
    let sig_ok = bytes[0] == 0x89 && bytes[1] == 0x50 && bytes[2] == 0x4e && bytes[3] == 0x47
        && bytes[4] == 0x0d && bytes[5] == 0x0a && bytes[6] == 0x1a && bytes[7] == 0x0a;
    let tag_ok = bytes[12] == 0x49 && bytes[13] == 0x48 && bytes[14] == 0x44 && bytes[15] == 0x52;
    if !sig_ok || !tag_ok {
        proof {
            if !sig_ok {
                assert(bytes@.take(8) != png_signature()) by {
                    if bytes@.take(8) == png_signature() {
                        assert(bytes@.take(8)[0] == bytes@[0]);
                        assert(bytes@.take(8)[1] == bytes@[1]);
                        assert(bytes@.take(8)[2] == bytes@[2]);
                        assert(bytes@.take(8)[3] == bytes@[3]);
                        assert(bytes@.take(8)[4] == bytes@[4]);
                        assert(bytes@.take(8)[5] == bytes@[5]);
                        assert(bytes@.take(8)[6] == bytes@[6]);
                        assert(bytes@.take(8)[7] == bytes@[7]);
                    }
                }
            } else {
                assert(bytes@.subrange(12, 16) != ihdr_tag()) by {
                    if bytes@.subrange(12, 16) == ihdr_tag() {
                        assert(bytes@.subrange(12, 16)[0] == bytes@[12]);
                        assert(bytes@.subrange(12, 16)[1] == bytes@[13]);
                        assert(bytes@.subrange(12, 16)[2] == bytes@[14]);
                        assert(bytes@.subrange(12, 16)[3] == bytes@[15]);
                    }
                }
            }
        }
        return None;
    }
    assert(bytes@.take(8) =~= png_signature());
    assert(bytes@.subrange(12, 16) =~= ihdr_tag());
    let w = (bytes[16] as u32) * 0x1000000 + (bytes[17] as u32) * 0x10000 + (bytes[18] as u32)
        * 0x100 + (bytes[19] as u32);
    let h = (bytes[20] as u32) * 0x1000000 + (bytes[21] as u32) * 0x10000 + (bytes[22] as u32)
        * 0x100 + (bytes[23] as u32);
    Some((w, h))
}

fn describe_image(image: &Vec<u8>) -> (v: Vec<char>)
    ensures
        v@ == image_description(image@),
{
    let mut out: Vec<char> = Vec::new();
    push_str(&mut out, "PNG image, ");
    let len = image.len() as u64;
    match png_dimensions(image.as_slice()) {
        Some((w, h)) => {
            push_decimal(&mut out, w as u64);
            push_str(&mut out, "x");
            push_decimal(&mut out, h as u64);
            push_str(&mut out, ", ");
            push_decimal(&mut out, len);
            push_str(&mut out, " bytes");
        },
        None => {
            push_decimal(&mut out, len);
            push_str(&mut out, " bytes");
        },
    }
    out
}

/// `text` as previewed; see [`plain_preview`].
fn plain_text_preview_chars(text: &[char]) -> (v: Vec<char>)
    ensures
        v@ == plain_preview(text@),
{
    if looks_like_html_chars(text) {
        let without_comments = strip_comment_chars(text);
        remove_tags(&without_comments, false)
    } else {
        copy_range(text, 0, text.len())
    }
}

fn display_chars(item: &ClipboardItem) -> (v: Vec<char>)
    ensures
        v@ == display_text(item.payload@),
{
    if let Some(text) = &item.payload.text_plain {
        let cs = chars_of(text.as_str());
        return plain_text_preview_chars(&cs);
    }
    if let Some(html) = &item.payload.text_html {
        let cs = chars_of(html.as_str());
        let text = remove_tags(&cs, false);
        let t = trimmed(&text);
        if t.len() == 0 {
            return chars_of("[HTML content]");
        }
        return text;
    }
    if let Some(image) = &item.payload.image_png {
        return describe_image(image);
    }
    chars_of("[Unsupported content]")
}

/// The words of `text` joined by single spaces, at most 160 characters.
pub fn condense_text(text: &str) -> (s: String)
    ensures
        s@ == take_at_most(condense_ws(text@), PREVIEW_CHARS as nat),
{
    let cs = chars_of(text);
    let c = condense(&cs);
    let t = take_chars(&c, PREVIEW_CHARS);
    string_of(&t)
}

/// At most the first `limit` characters of `text`.
pub fn truncate_chars(text: &str, limit: usize) -> (s: String)
    ensures
        s@ == take_at_most(text@, limit as nat),
{
    let cs = chars_of(text);
    let t = take_chars(&cs, limit);
    string_of(&t)
}

/// Plain text as previewed; see [`plain_preview`].
pub fn plain_text_preview(text: &str) -> (s: String)
    ensures
        s@ == plain_preview(text@),
{
    let cs = chars_of(text);
    let v = plain_text_preview_chars(&cs);
    string_of(&v)
}

/// `html` with its tags removed.
pub fn strip_html_tags(html: &str) -> (s: String)
    ensures
        s@ == tags_removed(html@, false, false),
{
    let cs = chars_of(html);
    let v = remove_tags(&cs, false);
    string_of(&v)
}

/// What an item shows; see [`display_text`].
pub fn item_display_text(item: &ClipboardItem) -> (s: String)
    ensures
        s@ == display_text(item.payload@),
{
    let v = display_chars(item);
    string_of(&v)
}

/// The one-line preview of an item.
pub fn preview_text(item: &ClipboardItem) -> (s: String)
    ensures
        s@ == preview_of(item.payload@),
{
    let v = display_chars(item);
    let c = condense(&v);
    let t = take_chars(&c, PREVIEW_CHARS);
    string_of(&t)
}

/// The label of a row, collapsed or expanded.
pub fn item_label_text(item: &ClipboardItem, expanded: bool) -> (s: String)
    ensures
        s@ == label_of(item.payload@, expanded),
{
    if expanded {
        let v = display_chars(item);
        let t = take_chars(&v, EXPANDED_CHARS);
        string_of(&t)
    } else {
        preview_text(item)
    }
}

/// The keys the picker reacts to.
#[derive(Clone, Copy, Debug, PartialEq, Eq)]
pub enum Key {
    Escape,
    Up,
    KeypadUp,
    Down,
    KeypadDown,
    Return,
    KeypadEnter,
    Delete,
    LowerP,
    LowerF,
    Other,
}

/// What a key press asks the picker to do.
#[derive(Clone, Copy, Debug, PartialEq, Eq)]
pub enum KeyAction {
    Close,
    MoveUp,
    MoveDown,
    Restore { plain_text_only: bool },
    Delete,
    TogglePin,
    ToggleFavorite,
}

/// The action bound to `key` with the Shift and Control modifiers as given.
pub open spec fn binding(key: Key, shift: bool, control: bool) -> Option<KeyAction> {
    match key {
        Key::Escape => Some(KeyAction::Close),
        Key::Up | Key::KeypadUp => Some(KeyAction::MoveUp),
        Key::Down | Key::KeypadDown => Some(KeyAction::MoveDown),
        Key::Return | Key::KeypadEnter => Some(KeyAction::Restore { plain_text_only: shift }),
        Key::Delete => Some(KeyAction::Delete),
        Key::LowerP => if control {
            Some(KeyAction::TogglePin)
        } else {
            None
        },
        Key::LowerF => if control {
            Some(KeyAction::ToggleFavorite)
        } else {
            None
        },
        Key::Other => None,
    }
}

/// The action bound to a key press: Escape closes, the arrows move the
/// selection, Enter restores (plain text only with Shift), Delete deletes,
/// Ctrl+P and Ctrl+F toggle pin and favorite.
pub fn key_action(key: Key, shift: bool, control: bool) -> (a: Option<KeyAction>)
    ensures
        a == binding(key, shift, control),
{
    match key {
        Key::Escape => Some(KeyAction::Close),
        Key::Up | Key::KeypadUp => Some(KeyAction::MoveUp),
        Key::Down | Key::KeypadDown => Some(KeyAction::MoveDown),
        Key::Return | Key::KeypadEnter => Some(KeyAction::Restore { plain_text_only: shift }),
        Key::Delete => Some(KeyAction::Delete),
        Key::LowerP => if control {
            Some(KeyAction::TogglePin)
        } else {
            None
        },
        Key::LowerF => if control {
            Some(KeyAction::ToggleFavorite)
        } else {
            None
        },
        Key::Other => None,
    }
}

/// How a search request is made.
#[derive(Clone, Copy, Debug, PartialEq, Eq)]
pub enum SearchMode {
    SearchOnly,
    CaptureThenSearch,
}

/// The searches run when the picker opens: the stored history first, then
/// a capture of the current clipboard followed by a fresh search.
pub fn startup_search_modes() -> (m: [SearchMode; 2])
    ensures
        m@ == seq![SearchMode::SearchOnly, SearchMode::CaptureThenSearch],
{
    let m = [SearchMode::SearchOnly, SearchMode::CaptureThenSearch];
    assert(m@ =~= seq![SearchMode::SearchOnly, SearchMode::CaptureThenSearch]);
    m
}

} // verus!
