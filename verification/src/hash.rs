//! The content hash that identifies equal clipboard contents.
use vstd::prelude::*;
use vstd::utf8::encode_utf8;
use sha2::Digest;
use crate::item::{ClipboardPayload, PayloadView};
use crate::text::string_of;

verus! {

/// The SHA-256 digest of `data`.
pub uninterp spec fn sha256(data: Seq<u8>) -> Seq<u8>;

/// Calls `sha2::Sha256::digest`; the digest is 32 bytes long.
#[verifier::external_body]
fn sha256_digest(data: &[u8]) -> (d: Vec<u8>)
    ensures
        d@ == sha256(data@),
        d@.len() == 32,
{
    sha2::Sha256::digest(data).to_vec()
}

/// One representation in the hashed data: its MIME type, a NUL byte, its
/// bytes, a NUL byte.
pub open spec fn section(label: Seq<char>, body: Seq<u8>) -> Seq<u8> {
    encode_utf8(label) + seq![0u8] + body + seq![0u8]
}

/// The data that is hashed: the sections of the present representations,
/// plain text, HTML and PNG in that order.
pub open spec fn hash_input(p: PayloadView) -> Seq<u8> {
    (match p.text_plain {
        Some(t) => section("text/plain"@, encode_utf8(t)),
        None => Seq::empty(),
    }) + (match p.text_html {
        Some(h) => section("text/html"@, encode_utf8(h)),
        None => Seq::empty(),
    }) + (match p.image_png {
        Some(b) => section("image/png"@, b),
        None => Seq::empty(),
    })
}

/// The lower-case hexadecimal digit for `d < 16`.
pub open spec fn hex_digit(d: int) -> char {
    if d < 10 {
        (('0' as int) + d) as char
    } else {
        (('a' as int) + d - 10) as char
    }
}

/// Two lower-case hexadecimal digits per byte.
pub open spec fn hex_lower(b: Seq<u8>) -> Seq<char>
    decreases b.len(),
{
    if b.len() == 0 {
        Seq::empty()
    } else {
        seq![hex_digit((b[0] / 16) as int), hex_digit((b[0] % 16) as int)] + hex_lower(b.drop_first())
    }
}

proof fn lemma_hex_lower_len(b: Seq<u8>)
    ensures
        hex_lower(b).len() == 2 * b.len(),
    decreases b.len(),
{
    if b.len() > 0 {
        lemma_hex_lower_len(b.drop_first());
    }
}

fn hex_char(d: u8) -> (c: char)
    requires
        d < 16,
    ensures
        c == hex_digit(d as int),
{
    match d {
        0 => '0',
        1 => '1',
        2 => '2',
        3 => '3',
        4 => '4',
        5 => '5',
        6 => '6',
        7 => '7',
        8 => '8',
        9 => '9',
        10 => 'a',
        11 => 'b',
        12 => 'c',
        13 => 'd',
        14 => 'e',
        _ => 'f',
    }
}

/// Lower-case hexadecimal notation of `bytes`.
pub fn to_hex(bytes: &[u8]) -> (s: String)
    ensures
        s@ == hex_lower(bytes@),
        s@.len() == 2 * bytes@.len(),
{
    let mut out: Vec<char> = Vec::new();
    let mut i: usize = 0;
    assert(bytes@.skip(0) =~= bytes@);
    assert(out@ + hex_lower(bytes@) =~= hex_lower(bytes@));
    while i < bytes.len()
        invariant
            i <= bytes.len(),
            hex_lower(bytes@) == out@ + hex_lower(bytes@.skip(i as int)),
        decreases bytes.len() - i,
    {
        let b = bytes[i];
        let ghost before = out@;
        out.push(hex_char(b / 16));
        out.push(hex_char(b % 16));
        assert(bytes@.skip(i as int).drop_first() =~= bytes@.skip(i + 1));
        assert(before + (seq![hex_digit((b / 16) as int), hex_digit((b % 16) as int)] + hex_lower(
            bytes@.skip(i + 1),
        )) =~= out@ + hex_lower(bytes@.skip(i + 1)));
        i = i + 1;
    }
    assert(bytes@.skip(i as int) =~= Seq::<u8>::empty());
    assert(out@ + Seq::<char>::empty() =~= out@);
    proof {
        lemma_hex_lower_len(bytes@);
    }
    string_of(&out)
}

fn append_bytes(out: &mut Vec<u8>, bytes: &[u8])
    ensures
        final(out)@ == old(out)@ + bytes@,
{
    let mut i: usize = 0;
    while i < bytes.len()
        invariant
            i <= bytes.len(),
            out@ == old(out)@ + bytes@.take(i as int),
        decreases bytes.len() - i,
    {
        out.push(bytes[i]);
        assert(old(out)@ + bytes@.take(i + 1) =~= (old(out)@ + bytes@.take(i as int)).push(
            bytes@[i as int],
        ));
        i = i + 1;
    }
    assert(bytes@.take(bytes@.len() as int) =~= bytes@);
}

fn append_section(out: &mut Vec<u8>, label: &str, body: &[u8])
    ensures
        final(out)@ == old(out)@ + section(label@, body@),
{
    append_bytes(out, label.as_bytes());
    out.push(0u8);
    append_bytes(out, body);
    out.push(0u8);
    assert(out@ =~= old(out)@ + section(label@, body@));
}

/// The data hashed for a payload; see [`hash_input`].
pub fn hash_input_bytes(payload: &ClipboardPayload) -> (data: Vec<u8>)
    ensures
        data@ == hash_input(payload@),
{
    let mut data: Vec<u8> = Vec::new();
    if let Some(text) = &payload.text_plain {
        append_section(&mut data, "text/plain", text.as_str().as_bytes());
    }
    let ghost first = data@;
    if let Some(html) = &payload.text_html {
        append_section(&mut data, "text/html", html.as_str().as_bytes());
    }
    let ghost second = data@;
    if let Some(image) = &payload.image_png {
        append_section(&mut data, "image/png", image.as_slice());
    }
    proof {
        let p = payload@;
        let a = match p.text_plain {
            Some(t) => section("text/plain"@, encode_utf8(t)),
            None => Seq::empty(),
        };
        let b = match p.text_html {
            Some(h) => section("text/html"@, encode_utf8(h)),
            None => Seq::empty(),
        };
        let c = match p.image_png {
            Some(i) => section("image/png"@, i),
            None => Seq::<u8>::empty(),
        };
        assert(first =~= a);
        assert(second =~= a + b);
        assert(data@ =~= a + b + c);
    }
    data
}

/// The content hash of a payload: the SHA-256 digest of its sections, in
/// lower-case hexadecimal (64 characters).
pub fn content_hash(payload: &ClipboardPayload) -> (h: String)
    ensures
        h@ == hex_lower(sha256(hash_input(payload@))),
        h@.len() == 64,
{
    let data = hash_input_bytes(payload);
    let digest = sha256_digest(data.as_slice());
    to_hex(digest.as_slice())
}

} // verus!
