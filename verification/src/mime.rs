//! MIME types: which offered clipboard targets are captured, and which
//! representation is written back.
use vstd::prelude::*;
use vstd::utf8::encode_utf8;
use crate::html::{normalize_plain_text, normalized_plain_text};
use crate::item::{ClipboardPayload, PayloadView};
use crate::text::{
    ascii_lower, chars_of, copy_range, find, find_chars_from, lemma_find_from_spec,
    matches_at, occurs_at, starts_with, string_of, to_ascii_lower, trim, trimmed,
};

verus! {

/// The clipboard representations the history keeps.
#[derive(Clone, Copy, Debug, PartialEq, Eq)]
pub enum MimeKind {
    TextPlain,
    TextHtml,
    ImagePng,
}

/// The MIME type of a representation.
pub open spec fn kind_mime(kind: MimeKind) -> Seq<char> {
    match kind {
        MimeKind::TextPlain => "text/plain"@,
        MimeKind::TextHtml => "text/html"@,
        MimeKind::ImagePng => "image/png"@,
    }
}

/// The texts of a sequence of strings.
pub open spec fn views(s: Seq<String>) -> Seq<Seq<char>> {
    s.map_values(|x: String| x@)
}

/// Some offered target starts with `text/plain` (parameters allowed).
pub open spec fn offers_text(offered: Seq<Seq<char>>) -> bool {
    exists|i: int| 0 <= i < offered.len() && starts_with(offered[i], "text/plain"@)
}

/// Some offered target is exactly `t`.
pub open spec fn offers_exactly(offered: Seq<Seq<char>>, t: Seq<char>) -> bool {
    exists|i: int| 0 <= i < offered.len() && offered[i] == t
}

/// The supported kinds among the offered targets, in the order plain text,
/// HTML, PNG.
pub open spec fn supported_kinds(offered: Seq<Seq<char>>) -> Seq<MimeKind> {
    (if offers_text(offered) {
        seq![MimeKind::TextPlain]
    } else {
        Seq::empty()
    }) + (if offers_exactly(offered, "text/html"@) {
        seq![MimeKind::TextHtml]
    } else {
        Seq::empty()
    }) + (if offers_exactly(offered, "image/png"@) {
        seq![MimeKind::ImagePng]
    } else {
        Seq::empty()
    })
}

/// The MIME types of the representations a payload holds, in the order
/// plain text, HTML, PNG.
pub open spec fn payload_mimes(p: PayloadView) -> Seq<Seq<char>> {
    (if p.text_plain is Some {
        seq!["text/plain"@]
    } else {
        Seq::empty()
    }) + (if p.text_html is Some {
        seq!["text/html"@]
    } else {
        Seq::empty()
    }) + (if p.image_png is Some {
        seq!["image/png"@]
    } else {
        Seq::empty()
    })
}

/// A target without its parameters (after the first `;`), trimmed and
/// ASCII-lower-cased.
pub open spec fn normalized_mime(m: Seq<char>) -> Seq<char> {
    let base = match find(m, seq![';']) {
        Some(i) => m.take(i),
        None => m,
    };
    ascii_lower(trim(base))
}

/// The first offered target at or after `i` that normalizes to `expected`.
pub open spec fn first_offered_from(offered: Seq<Seq<char>>, expected: Seq<char>, i: int) -> Option<
    int,
>
    decreases offered.len() - i,
{
    if i < 0 || i >= offered.len() {
        None
    } else if normalized_mime(offered[i]) == expected {
        Some(i)
    } else {
        first_offered_from(offered, expected, i + 1)
    }
}

pub proof fn lemma_first_offered_from(offered: Seq<Seq<char>>, expected: Seq<char>, i: int)
    requires
        0 <= i,
    ensures
        match first_offered_from(offered, expected, i) {
            Some(k) => i <= k < offered.len() && normalized_mime(offered[k]) == expected,
            None => forall|m: int|
                i <= m < offered.len() ==> normalized_mime(offered[m]) != expected,
        },
    decreases offered.len() - i,
{
    if i < offered.len() && normalized_mime(offered[i]) != expected {
        lemma_first_offered_from(offered, expected, i + 1);
    }
}

fn starts_with_text_plain(m: &String, prefix: &[char]) -> (b: bool)
    ensures
        b == starts_with(m@, prefix@),
{
    let cs = chars_of(m.as_str());
    matches_at(&cs, prefix, 0)
}

fn equals_chars(m: &String, t: &[char]) -> (b: bool)
    ensures
        b == (m@ == t@),
{
    let cs = chars_of(m.as_str());
    if cs.len() != t.len() {
        return false;
    }
    let r = matches_at(&cs, t, 0);
    assert(cs@.subrange(0, t@.len() as int) =~= cs@);
    r
}

/// The supported kinds among the offered targets: plain text (also with
/// parameters such as a charset), HTML, PNG, in that order.
pub fn select_supported_mimes(offered: &[String]) -> (kinds: Vec<MimeKind>)
    ensures
        kinds@ == supported_kinds(views(offered@)),
{
    let plain = chars_of("text/plain");
    let html = chars_of("text/html");
    let png = chars_of("image/png");
    let ghost v = views(offered@);
    let mut has_text = false;
    let mut has_html = false;
    let mut has_png = false;
    let mut i: usize = 0;
    while i < offered.len()
        invariant
            i <= offered.len(),
            v == views(offered@),
            plain@ == "text/plain"@,
            html@ == "text/html"@,
            png@ == "image/png"@,
            has_text == exists|k: int| 0 <= k < i && starts_with(v[k], "text/plain"@),
            has_html == exists|k: int| 0 <= k < i && v[k] == "text/html"@,
            has_png == exists|k: int| 0 <= k < i && v[k] == "image/png"@,
        decreases offered.len() - i,
    {
        let m = &offered[i];
        assert(v[i as int] == m@);
        if starts_with_text_plain(m, &plain) {
            has_text = true;
        }
        if equals_chars(m, &html) {
            has_html = true;
        }
        if equals_chars(m, &png) {
            has_png = true;
        }
        i = i + 1;
    }
    let mut kinds: Vec<MimeKind> = Vec::new();
    if has_text {
        kinds.push(MimeKind::TextPlain);
    }
    if has_html {
        kinds.push(MimeKind::TextHtml);
    }
    if has_png {
        kinds.push(MimeKind::ImagePng);
    }
    assert(kinds@ =~= supported_kinds(v));
    kinds
}

/// The MIME types of the representations `payload` holds.
pub fn mime_types_for(payload: &ClipboardPayload) -> (types: Vec<String>)
    ensures
        views(types@) == payload_mimes(payload@),
{
    let mut types: Vec<String> = Vec::new();
    if payload.text_plain.is_some() {
        types.push(String::from_str("text/plain"));
    }
    if payload.text_html.is_some() {
        types.push(String::from_str("text/html"));
    }
    if payload.image_png.is_some() {
        types.push(String::from_str("image/png"));
    }
    assert(views(types@) =~= payload_mimes(payload@));
    types
}

/// A target's MIME type without parameters, trimmed, in ASCII lower case.
pub fn normalize_offered_mime(mime: &str) -> (n: String)
    ensures
        n@ == normalized_mime(mime@),
{
    let cs = chars_of(mime);
    let semicolon = vec![';'];
    assert(semicolon@ =~= seq![';']);
    let base = match find_chars_from(&cs, &semicolon, 0) {
        Some(i) => {
            proof {
                lemma_find_from_spec(cs@, seq![';'], 0);
            }
            copy_range(&cs, 0, i)
        },
        None => copy_range(&cs, 0, cs.len()),
    };
    assert(cs@.subrange(0, cs@.len() as int) =~= cs@);
    let t = trimmed(&base);
    let l = to_ascii_lower(&t);
    string_of(&l)
}

/// The first offered target that is the MIME type of `kind` (ignoring
/// parameters, surrounding whitespace and ASCII case).
pub fn offered_mime_for(offered: &[String], kind: MimeKind) -> (r: Option<&str>)
    ensures
        match first_offered_from(views(offered@), kind_mime(kind), 0) {
            Some(i) => r is Some && r.unwrap()@ == offered@[i]@,
            None => r is None,
        },
{
    let expected_str = match kind {
        MimeKind::TextPlain => "text/plain",
        MimeKind::TextHtml => "text/html",
        MimeKind::ImagePng => "image/png",
    };
    let expected = chars_of(expected_str);
    let ghost v = views(offered@);
    let mut i: usize = 0;
    while i < offered.len()
        invariant
            i <= offered.len(),
            v == views(offered@),
            expected@ == kind_mime(kind),
            first_offered_from(v, kind_mime(kind), 0) == first_offered_from(
                v,
                kind_mime(kind),
                i as int,
            ),
        decreases offered.len() - i,
    {
        let n = normalize_offered_mime(offered[i].as_str());
        assert(v[i as int] == offered@[i as int]@);
        let nc = chars_of(n.as_str());
        let same = nc.len() == expected.len() && matches_at(&nc, &expected, 0);
        proof {
            if nc.len() == expected.len() && same {
                assert(nc@.subrange(0, expected@.len() as int) =~= nc@);
            }
            if nc@ == expected@ {
                assert(nc@.subrange(0, expected@.len() as int) =~= nc@);
            }
        }
        if same {
            return Some(offered[i].as_str());
        }
        i = i + 1;
    }
    None
}

/// The one representation written back to the clipboard.
pub enum WriteMime<'a> {
    ImagePng(&'a [u8]),
    TextHtml(&'a str),
    TextPlain(String),
}

impl<'a> WriteMime<'a> {
    /// The MIME type written.
    pub open spec fn mime_view(&self) -> Seq<char> {
        match self {
            WriteMime::ImagePng(_) => "image/png"@,
            WriteMime::TextHtml(_) => "text/html"@,
            WriteMime::TextPlain(_) => "text/plain"@,
        }
    }

    /// The bytes written.
    pub open spec fn bytes_view(&self) -> Seq<u8> {
        match self {
            WriteMime::ImagePng(b) => b@,
            WriteMime::TextHtml(t) => encode_utf8(t@),
            WriteMime::TextPlain(t) => encode_utf8(t@),
        }
    }

    /// The MIME type written.
    pub fn mime(&self) -> (m: &'static str)
        ensures
            m@ == self.mime_view(),
    {
        match self {
            WriteMime::ImagePng(_) => "image/png",
            WriteMime::TextHtml(_) => "text/html",
            WriteMime::TextPlain(_) => "text/plain",
        }
    }

    /// The bytes written.
    pub fn bytes(&self) -> (b: &[u8])
        ensures
            b@ == self.bytes_view(),
    {
        match self {
            WriteMime::ImagePng(bytes) => bytes,
            WriteMime::TextHtml(text) => text.as_bytes(),
            WriteMime::TextPlain(text) => text.as_str().as_bytes(),
        }
    }
}

/// The representation written back: the PNG image if there is one, else
/// the plain text (an HTML document reduced to its text), else the HTML.
pub open spec fn write_selection(p: PayloadView) -> Option<(Seq<char>, Seq<u8>)> {
    match p.image_png {
        Some(b) => Some(("image/png"@, b)),
        None => match p.text_plain {
            Some(t) => Some(("text/plain"@, encode_utf8(normalized_plain_text(t)))),
            None => match p.text_html {
                Some(h) => Some(("text/html"@, encode_utf8(h))),
                None => None,
            },
        },
    }
}

/// The one representation of `payload` that is written back.
pub fn select_single_write_mime(payload: &ClipboardPayload) -> (r: Option<WriteMime<'_>>)
    ensures
        match r {
            Some(w) => write_selection(payload@) == Some((w.mime_view(), w.bytes_view())),
            None => write_selection(payload@) is None,
        },
{
    if let Some(image) = &payload.image_png {
        Some(WriteMime::ImagePng(image.as_slice()))
    } else if let Some(text) = &payload.text_plain {
        let t = text.clone();
        Some(WriteMime::TextPlain(normalize_plain_text(t)))
    } else {
        match &payload.text_html {
            Some(html) => Some(WriteMime::TextHtml(html.as_str())),
            None => None,
        }
    }
}

/// The lines of a target listing, trimmed, without the empty ones; `cur`
/// is the line read so far.
pub open spec fn target_lines(s: Seq<char>, cur: Seq<char>) -> Seq<Seq<char>>
    decreases s.len(),
{
    if s.len() == 0 {
        kept_line(cur)
    } else if s[0] == '\n' {
        kept_line(cur) + target_lines(s.drop_first(), Seq::empty())
    } else {
        target_lines(s.drop_first(), cur.push(s[0]))
    }
}

/// A trimmed line, kept unless it is empty.
pub open spec fn kept_line(l: Seq<char>) -> Seq<Seq<char>> {
    if trim(l).len() > 0 {
        seq![trim(l)]
    } else {
        Seq::empty()
    }
}

/// The targets listed one per line in the output of a `TARGETS` query.
pub fn parse_target_list(output: &str) -> (targets: Vec<String>)
    ensures
        views(targets@) == target_lines(output@, Seq::empty()),
{
    let cs = chars_of(output);
    let mut targets: Vec<String> = Vec::new();
    let mut cur: Vec<char> = Vec::new();
    let mut i: usize = 0;
    assert(cs@.skip(0) =~= cs@);
    assert(views(targets@) + target_lines(cs@, cur@) =~= target_lines(cs@, Seq::empty()));
    while i < cs.len()
        invariant
            i <= cs.len(),
            target_lines(output@, Seq::empty()) == views(targets@) + target_lines(
                cs@.skip(i as int),
                cur@,
            ),
            cs@ == output@,
        decreases cs.len() - i,
    {
        let c = cs[i];
        let ghost rest = cs@.skip(i + 1);
        assert(cs@.skip(i as int).drop_first() =~= rest);
        assert(cs@.skip(i as int)[0] == c);
        if c == '\n' {
            let ghost before = views(targets@);
            let ghost line = cur@;
            let t = trimmed(&cur);
            if t.len() > 0 {
                targets.push(string_of(&t));
            }
            assert(views(targets@) =~= before + kept_line(line));
            cur = Vec::new();
            assert(cur@ =~= Seq::<char>::empty());
            assert(before + (kept_line(line) + target_lines(rest, cur@)) =~= views(targets@)
                + target_lines(rest, cur@));
        } else {
            cur.push(c);
        }
        i = i + 1;
    }
    assert(cs@.skip(i as int) =~= Seq::<char>::empty());
    let ghost before = views(targets@);
    let t = trimmed(&cur);
    if t.len() > 0 {
        targets.push(string_of(&t));
    }
    assert(views(targets@) =~= before + kept_line(cur@));
    targets
}

} // verus!
