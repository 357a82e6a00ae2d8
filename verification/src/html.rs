//! Reduction of HTML documents (as some applications put them on the
//! clipboard under `text/plain`) to their readable text.
use vstd::prelude::*;
use crate::text::{
    ascii_lower, chars_of, condense, condense_ws, contains_chars, contains_seq, copy_range, find,
    find_chars_from, find_from, is_ws, lemma_find_from_spec, matches_at, occurs_at, squash,
    starts_with, string_of, to_ascii_lower, trim_start, trim_start_index,
};

verus! {

pub open spec fn comment_open() -> Seq<char> {
    seq!['<', '!', '-', '-']
}

pub open spec fn comment_close() -> Seq<char> {
    seq!['-', '-', '>']
}

/// `s` with every `<!-- ... -->` comment removed; an unterminated comment
/// removes the rest of the text.
pub open spec fn strip_comments(s: Seq<char>) -> Seq<char>
    decreases s.len(),
{
    match find(s, comment_open()) {
        None => s,
        Some(i) => {
            let after = s.skip(i + 4);
            match find(after, comment_close()) {
                None => s.take(i),
                Some(j) => if 0 <= i && i + 4 <= s.len() && 0 <= j && j + 3 <= after.len() {
                    s.take(i) + strip_comments(after.skip(j + 3))
                } else {
                    s.take(i)
                },
            }
        },
    }
}

/// `s` with everything from a `<` up to the next `>` removed (markup tags).
/// Each `>` becomes a space when `gt_space` holds; `in_tag` says whether
/// the text starts inside a tag.
pub open spec fn tags_removed(s: Seq<char>, in_tag: bool, gt_space: bool) -> Seq<char>
    decreases s.len(),
{
    if s.len() == 0 {
        Seq::empty()
    } else if s[0] == '<' {
        tags_removed(s.drop_first(), true, gt_space)
    } else if s[0] == '>' {
        (if gt_space {
            seq![' ']
        } else {
            Seq::empty()
        }) + tags_removed(s.drop_first(), false, gt_space)
    } else if in_tag {
        tags_removed(s.drop_first(), true, gt_space)
    } else {
        seq![s[0]] + tags_removed(s.drop_first(), false, gt_space)
    }
}

/// Every non-overlapping occurrence of `from` in `s`, scanning left to right,
/// replaced by `to` (as `str::replace` does for a non-empty pattern).
pub open spec fn replace_all(s: Seq<char>, from: Seq<char>, to: Seq<char>) -> Seq<char>
    decreases s.len(),
{
    if from.len() == 0 {
        s
    } else {
        match find(s, from) {
            None => s,
            Some(i) => if 0 <= i && i + from.len() <= s.len() {
                s.take(i) + to + replace_all(s.skip(i + from.len()), from, to)
            } else {
                s
            },
        }
    }
}

pub open spec fn nbsp_entity() -> Seq<char> {
    seq!['&', 'n', 'b', 's', 'p', ';']
}

pub open spec fn lt_entity() -> Seq<char> {
    seq!['&', 'l', 't', ';']
}

pub open spec fn gt_entity() -> Seq<char> {
    seq!['&', 'g', 't', ';']
}

pub open spec fn quot_entity() -> Seq<char> {
    seq!['&', 'q', 'u', 'o', 't', ';']
}

pub open spec fn apos_entity() -> Seq<char> {
    seq!['&', '#', '3', '9', ';']
}

pub open spec fn amp_entity() -> Seq<char> {
    seq!['&', 'a', 'm', 'p', ';']
}

/// The six basic HTML entities decoded, `&amp;` last.
pub open spec fn decode_entities(s: Seq<char>) -> Seq<char> {
    let a = replace_all(s, nbsp_entity(), seq![' ']);
    let b = replace_all(a, lt_entity(), seq!['<']);
    let c = replace_all(b, gt_entity(), seq!['>']);
    let d = replace_all(c, quot_entity(), seq!['"']);
    let e = replace_all(d, apos_entity(), seq!['\'']);
    replace_all(e, amp_entity(), seq!['&'])
}

pub open spec fn html_open_marker() -> Seq<char> {
    seq!['<', 'h', 't', 'm', 'l']
}

pub open spec fn doctype_marker() -> Seq<char> {
    seq!['<', '!', 'd', 'o', 'c', 't', 'y', 'p', 'e', ' ', 'h', 't', 'm', 'l']
}

pub open spec fn fragment_marker() -> Seq<char> {
    seq![
        '<', '!', '-', '-', 's', 't', 'a', 'r', 't', 'f', 'r', 'a', 'g', 'm', 'e', 'n', 't', '-',
        '-', '>',
    ]
}

/// Text that starts (after leading whitespace, ignoring ASCII case) with
/// `<html` or `<!doctype html`, or that holds a `<!--StartFragment-->` marker.
pub open spec fn is_html_document(s: Seq<char>) -> bool {
    let t = ascii_lower(trim_start(s));
    starts_with(t, html_open_marker()) || starts_with(t, doctype_marker()) || contains_seq(
        t,
        fragment_marker(),
    )
}

/// The readable text of an HTML document: comments and tags removed (each
/// `>` read as a space), entities decoded, whitespace runs collapsed.
pub open spec fn document_text(s: Seq<char>) -> Seq<char> {
    condense_ws(decode_entities(tags_removed(strip_comments(s), false, true)))
}

/// Plain text as stored and written back: an HTML document is replaced by
/// its readable text unless that text is empty.
pub open spec fn normalized_plain_text(s: Seq<char>) -> Seq<char> {
    if !is_html_document(s) {
        s
    } else if document_text(s).len() == 0 {
        s
    } else {
        document_text(s)
    }
}

/// Searching `s.skip(pos)` is searching `s` from `pos` on, shifted.
pub proof fn lemma_find_from_shift<A>(s: Seq<A>, p: Seq<A>, pos: int, k: int)
    requires
        0 <= pos <= s.len(),
        0 <= k,
    ensures
        find_from(s.skip(pos), p, k) == match find_from(s, p, pos + k) {
            Some(x) => Some(x - pos),
            None => None::<int>,
        },
    decreases s.len() + 1 - (pos + k),
{
    let t = s.skip(pos);
    if k + p.len() > t.len() {
    } else {
        if occurs_at(t, p, k) {
            assert(s.subrange(pos + k, pos + k + p.len()) =~= t.subrange(k, k + p.len()));
        } else {
            if occurs_at(s, p, pos + k) {
                assert(s.subrange(pos + k, pos + k + p.len()) =~= t.subrange(k, k + p.len()));
            }
            lemma_find_from_shift(s, p, pos, k + 1);
        }
    }
}

/// Searching from `pos` on is searching the suffix at `pos`.
pub proof fn lemma_find_suffix<A>(s: Seq<A>, p: Seq<A>, pos: int)
    requires
        0 <= pos <= s.len(),
    ensures
        find(s.skip(pos), p) == match find_from(s, p, pos) {
            Some(x) => Some(x - pos),
            None => None::<int>,
        },
{
    lemma_find_from_shift(s, p, pos, 0);
}

/// `s` with its `<!-- ... -->` comments removed.
pub fn strip_comment_chars(s: &[char]) -> (v: Vec<char>)
    ensures
        v@ == strip_comments(s@),
{
    let open = vec!['<', '!', '-', '-'];
    let close = vec!['-', '-', '>'];
    assert(open@ =~= comment_open());
    assert(close@ =~= comment_close());
    let mut out: Vec<char> = Vec::new();
    let mut pos: usize = 0;
    assert(s@.skip(0) =~= s@);
    assert(out@ + strip_comments(s@) =~= strip_comments(s@));
    while pos <= s.len()
        invariant
            pos <= s.len(),
            strip_comments(s@) == out@ + strip_comments(s@.skip(pos as int)),
            open@ == comment_open(),
            close@ == comment_close(),
        decreases s.len() - pos,
    {
        let ghost rest = s@.skip(pos as int);
        proof {
            lemma_find_suffix(s@, comment_open(), pos as int);
            lemma_find_from_spec(s@, comment_open(), pos as int);
        }
        match find_chars_from(s, &open, pos) {
            None => {
                let tail = copy_range(s, pos, s.len());
                assert(tail@ =~= rest);
                let ghost before = out@;
                let mut tail = tail;
                out.append(&mut tail);
                assert(out@ =~= before + rest);
                return out;
            },
            Some(start) => {
                let head = copy_range(s, pos, start);
                let ghost before = out@;
                let mut head = head;
                out.append(&mut head);
                let i = start - pos;
                assert(rest.take(i as int) =~= s@.subrange(pos as int, start as int));
                let ghost after = rest.skip(i + 4);
                assert(after =~= s@.skip(start + 4));
                proof {
                    lemma_find_suffix(s@, comment_close(), start + 4);
                    lemma_find_from_spec(s@, comment_close(), start + 4);
                }
                match find_chars_from(s, &close, start + 4) {
                    None => {
                        assert(out@ =~= before + rest.take(i as int));
                        return out;
                    },
                    Some(end) => {
                        let j = end - (start + 4);
                        assert(after.skip(j + 3) =~= s@.skip(end + 3));
                        assert(before + (rest.take(i as int) + strip_comments(after.skip(j + 3)))
                            =~= out@ + strip_comments(after.skip(j + 3)));
                        pos = end + 3;
                    },
                }
            },
        }
    }
    out
}

/// `s` with markup tags removed; see [`tags_removed`].
pub fn remove_tags(s: &[char], gt_space: bool) -> (v: Vec<char>)
    ensures
        v@ == tags_removed(s@, false, gt_space),
{
    let mut v: Vec<char> = Vec::new();
    let mut in_tag = false;
    let mut i: usize = 0;
    assert(s@.skip(0) =~= s@);
    assert(v@ + tags_removed(s@, false, gt_space) =~= tags_removed(s@, false, gt_space));
    while i < s.len()
        invariant
            i <= s.len(),
            tags_removed(s@, false, gt_space) == v@ + tags_removed(
                s@.skip(i as int),
                in_tag,
                gt_space,
            ),
        decreases s.len() - i,
    {
        let c = s[i];
        let ghost rest = s@.skip(i + 1);
        let ghost before = v@;
        proof {
            assert(s@.skip(i as int).drop_first() =~= rest);
            assert(s@.skip(i as int)[0] == c);
        }
        if c == '<' {
            in_tag = true;
        } else if c == '>' {
            in_tag = false;
            if gt_space {
                v.push(' ');
                assert(before + (seq![' '] + tags_removed(rest, false, gt_space)) =~= v@
                    + tags_removed(rest, false, gt_space));
            } else {
                assert(before + (Seq::<char>::empty() + tags_removed(rest, false, gt_space))
                    =~= v@ + tags_removed(rest, false, gt_space));
            }
        } else if !in_tag {
            v.push(c);
            assert(before + (seq![c] + tags_removed(rest, false, gt_space)) =~= v@
                + tags_removed(rest, false, gt_space));
        }
        i = i + 1;
    }
    assert(tags_removed(s@.skip(i as int), in_tag, gt_space) =~= Seq::<char>::empty());
    assert(v@ + Seq::<char>::empty() =~= v@);
    v
}

/// `s` with every occurrence of `from` replaced by `to`; see [`replace_all`].
pub fn replace_chars(s: &[char], from: &[char], to: &[char]) -> (v: Vec<char>)
    requires
        from@.len() > 0,
    ensures
        v@ == replace_all(s@, from@, to@),
{
    let mut out: Vec<char> = Vec::new();
    let mut pos: usize = 0;
    assert(s@.skip(0) =~= s@);
    assert(out@ + replace_all(s@, from@, to@) =~= replace_all(s@, from@, to@));
    while pos <= s.len()
        invariant
            pos <= s.len(),
            from@.len() > 0,
            replace_all(s@, from@, to@) == out@ + replace_all(s@.skip(pos as int), from@, to@),
        decreases s.len() - pos,
    {
        let ghost rest = s@.skip(pos as int);
        proof {
            lemma_find_suffix(s@, from@, pos as int);
            lemma_find_from_spec(s@, from@, pos as int);
        }
        match find_chars_from(s, from, pos) {
            None => {
                let tail = copy_range(s, pos, s.len());
                assert(tail@ =~= rest);
                let ghost before = out@;
                let mut tail = tail;
                out.append(&mut tail);
                assert(out@ =~= before + rest);
                return out;
            },
            Some(start) => {
                let head = copy_range(s, pos, start);
                let ghost before = out@;
                let mut head = head;
                out.append(&mut head);
                let mut repl = copy_range(to, 0, to.len());
                assert(repl@ =~= to@);
                out.append(&mut repl);
                let i = start - pos;
                assert(rest.take(i as int) =~= s@.subrange(pos as int, start as int));
                assert(rest.skip(i + from@.len()) =~= s@.skip(start + from@.len()));
                assert(before + (rest.take(i as int) + to@ + replace_all(
                    rest.skip(i + from@.len()),
                    from@,
                    to@,
                )) =~= out@ + replace_all(rest.skip(i + from@.len()), from@, to@));
                pos = start + from.len();
            },
        }
    }
    out
}

/// `s` with the basic HTML entities decoded.
pub fn decode_entity_chars(s: &[char]) -> (v: Vec<char>)
    ensures
        v@ == decode_entities(s@),
{
    let nbsp = vec!['&', 'n', 'b', 's', 'p', ';'];
    let lt = vec!['&', 'l', 't', ';'];
    let gt = vec!['&', 'g', 't', ';'];
    let quot = vec!['&', 'q', 'u', 'o', 't', ';'];
    let apos = vec!['&', '#', '3', '9', ';'];
    let amp = vec!['&', 'a', 'm', 'p', ';'];
    assert(nbsp@ =~= nbsp_entity());
    assert(lt@ =~= lt_entity());
    assert(gt@ =~= gt_entity());
    assert(quot@ =~= quot_entity());
    assert(apos@ =~= apos_entity());
    assert(amp@ =~= amp_entity());
    let space = vec![' '];
    let less = vec!['<'];
    let greater = vec!['>'];
    let dquote = vec!['"'];
    let squote = vec!['\''];
    let ampersand = vec!['&'];
    assert(space@ =~= seq![' ']);
    assert(less@ =~= seq!['<']);
    assert(greater@ =~= seq!['>']);
    assert(dquote@ =~= seq!['"']);
    assert(squote@ =~= seq!['\'']);
    assert(ampersand@ =~= seq!['&']);
    let a = replace_chars(s, &nbsp, &space);
    let b = replace_chars(&a, &lt, &less);
    let c = replace_chars(&b, &gt, &greater);
    let d = replace_chars(&c, &quot, &dquote);
    let e = replace_chars(&d, &apos, &squote);
    replace_chars(&e, &amp, &ampersand)
}

/// Whether `s` looks like an HTML document; see [`is_html_document`].
pub fn looks_like_html_chars(s: &[char]) -> (b: bool)
    ensures
        b == is_html_document(s@),
{
    let start = trim_start_index(s);
    let rest = copy_range(s, start, s.len());
    assert(rest@ =~= trim_start(s@));
    let lowered = to_ascii_lower(&rest);
    let html = vec!['<', 'h', 't', 'm', 'l'];
    let doctype = vec!['<', '!', 'd', 'o', 'c', 't', 'y', 'p', 'e', ' ', 'h', 't', 'm', 'l'];
    let fragment = vec![
        '<', '!', '-', '-', 's', 't', 'a', 'r', 't', 'f', 'r', 'a', 'g', 'm', 'e', 'n', 't', '-',
        '-', '>',
    ];
    assert(html@ =~= html_open_marker());
    assert(doctype@ =~= doctype_marker());
    assert(fragment@ =~= fragment_marker());
    matches_at(&lowered, &html, 0) || matches_at(&lowered, &doctype, 0) || contains_chars(
        &lowered,
        &fragment,
    )
}

/// The readable text of an HTML document; see [`document_text`].
pub fn document_text_chars(s: &[char]) -> (v: Vec<char>)
    ensures
        v@ == document_text(s@),
{
    let a = strip_comment_chars(s);
    let b = remove_tags(&a, true);
    let c = decode_entity_chars(&b);
    condense(&c)
}

/// Whether `text` looks like an HTML document rather than plain text.
pub fn looks_like_html_document(text: &str) -> (b: bool)
    ensures
        b == is_html_document(text@),
{
    let cs = chars_of(text);
    looks_like_html_chars(&cs)
}

/// The readable text of the HTML document `html`.
pub fn strip_html_document(html: &str) -> (s: String)
    ensures
        s@ == document_text(html@),
{
    let cs = chars_of(html);
    let v = document_text_chars(&cs);
    string_of(&v)
}

/// `html` with its comments removed.
pub fn strip_html_comments(html: &str) -> (s: String)
    ensures
        s@ == strip_comments(html@),
{
    let cs = chars_of(html);
    let v = strip_comment_chars(&cs);
    string_of(&v)
}

/// `text` with the basic HTML entities decoded.
pub fn decode_basic_html_entities(text: &str) -> (s: String)
    ensures
        s@ == decode_entities(text@),
{
    let cs = chars_of(text);
    let v = decode_entity_chars(&cs);
    string_of(&v)
}

/// Plain text with an embedded HTML document reduced to its readable text.
pub fn normalize_plain_text_cow(text: &str) -> (s: String)
    ensures
        s@ == normalized_plain_text(text@),
{
    let cs = chars_of(text);
    if !looks_like_html_chars(&cs) {
        return String::from_str(text);
    }
    let stripped = document_text_chars(&cs);
    if stripped.len() == 0 {
        String::from_str(text)
    } else {
        string_of(&stripped)
    }
}

/// Plain text with an embedded HTML document reduced to its readable text.
pub fn normalize_plain_text(text: String) -> (s: String)
    ensures
        s@ == normalized_plain_text(text@),
{
    normalize_plain_text_cow(text.as_str())
}


/// A word of text between tags: not empty, no whitespace, no markup
/// character (`<`, `>`) and no entity start (`&`).
pub open spec fn is_plain_word(s: Seq<char>) -> bool {
    &&& s.len() > 0
    &&& forall|i: int|
        0 <= i < s.len() ==> !is_ws(#[trigger] s[i]) && s[i] != '<' && s[i] != '>' && s[i] != '&'
}

/// What stands between `<` and `>` in an element tag: no `<` or `>`, and
/// not the `!` that opens a comment.
pub open spec fn is_tag_body(t: Seq<char>) -> bool {
    &&& forall|i: int| 0 <= i < t.len() ==> #[trigger] t[i] != '<' && t[i] != '>'
    &&& t.len() > 0 ==> t[0] != '!'
}

/// No `<` in `s` is followed by `!`, so no comment opens in it.
spec fn no_bang_after_lt(s: Seq<char>) -> bool {
    forall|k: int| 0 <= k && k + 1 < s.len() && #[trigger] s[k] == '<' ==> s[k + 1] != '!'
}

proof fn lemma_strip_comments_none(s: Seq<char>)
    requires
        no_bang_after_lt(s),
    ensures
        strip_comments(s) == s,
{
    lemma_find_from_spec(s, comment_open(), 0);
    match find(s, comment_open()) {
        Some(k) => {
            assert(s.subrange(k, k + 4)[0] == s[k]);
            assert(s.subrange(k, k + 4)[1] == s[k + 1]);
            assert(comment_open()[1] == '!');
        },
        None => {},
    }
}

proof fn lemma_replace_no_amp(s: Seq<char>, e: Seq<char>, to: Seq<char>)
    requires
        e.len() > 0,
        e[0] == '&',
        forall|i: int| 0 <= i < s.len() ==> #[trigger] s[i] != '&',
    ensures
        replace_all(s, e, to) == s,
{
    lemma_find_from_spec(s, e, 0);
    match find(s, e) {
        Some(k) => {
            assert(s.subrange(k, k + e.len())[0] == s[k]);
        },
        None => {},
    }
}

proof fn lemma_decode_no_amp(s: Seq<char>)
    requires
        forall|i: int| 0 <= i < s.len() ==> #[trigger] s[i] != '&',
    ensures
        decode_entities(s) == s,
{
    lemma_replace_no_amp(s, nbsp_entity(), seq![' ']);
    lemma_replace_no_amp(s, lt_entity(), seq!['<']);
    lemma_replace_no_amp(s, gt_entity(), seq!['>']);
    lemma_replace_no_amp(s, quot_entity(), seq!['"']);
    lemma_replace_no_amp(s, apos_entity(), seq!['\'']);
    lemma_replace_no_amp(s, amp_entity(), seq!['&']);
}

proof fn lemma_tags_text(a: Seq<char>, r: Seq<char>, g: bool)
    requires
        forall|i: int| 0 <= i < a.len() ==> #[trigger] a[i] != '<' && a[i] != '>',
    ensures
        tags_removed(a + r, false, g) == a + tags_removed(r, false, g),
    decreases a.len(),
{
    if a.len() == 0 {
        assert(a + r =~= r);
    } else {
        let t = a.drop_first();
        assert((a + r)[0] == a[0]);
        assert((a + r).drop_first() =~= t + r);
        lemma_tags_text(t, r, g);
        assert(seq![a[0]] + (t + tags_removed(r, false, g)) =~= a + tags_removed(r, false, g));
    }
}

proof fn lemma_tags_inside(t: Seq<char>, r: Seq<char>, g: bool)
    requires
        forall|i: int| 0 <= i < t.len() ==> #[trigger] t[i] != '<' && t[i] != '>',
    ensures
        tags_removed(t + r, true, g) == tags_removed(r, true, g),
    decreases t.len(),
{
    if t.len() == 0 {
        assert(t + r =~= r);
    } else {
        assert((t + r)[0] == t[0]);
        assert((t + r).drop_first() =~= t.drop_first() + r);
        lemma_tags_inside(t.drop_first(), r, g);
    }
}

/// A whole tag `<t>` reads as one space.
proof fn lemma_tags_one_tag(t: Seq<char>, r: Seq<char>)
    requires
        is_tag_body(t),
    ensures
        tags_removed(seq!['<'] + t + seq!['>'] + r, false, true) == seq![' '] + tags_removed(
            r,
            false,
            true,
        ),
{
    let s = seq!['<'] + t + seq!['>'] + r;
    let gr = seq!['>'] + r;
    assert(s[0] == '<');
    assert(s.drop_first() =~= t + gr);
    lemma_tags_inside(t, gr, true);
    assert(gr[0] == '>');
    assert(gr.drop_first() =~= r);
}

proof fn lemma_squash_word(a: Seq<char>, r: Seq<char>, started: bool, gap: bool)
    requires
        a.len() > 0,
        forall|i: int| 0 <= i < a.len() ==> !is_ws(#[trigger] a[i]),
    ensures
        squash(a + r, started, gap) == (if started && gap {
            seq![' '] + a
        } else {
            a
        }) + squash(r, true, false),
    decreases a.len(),
{
    let t = a.drop_first();
    assert((a + r)[0] == a[0]);
    assert((a + r).drop_first() =~= t + r);
    if t.len() == 0 {
        assert(t + r =~= r);
        if started && gap {
            assert(seq![' ', a[0]] =~= seq![' '] + a);
        } else {
            assert(seq![a[0]] =~= a);
        }
    } else {
        assert forall|i: int| 0 <= i < t.len() implies !is_ws(#[trigger] t[i]) by {
            assert(t[i] == a[i + 1]);
        }
        lemma_squash_word(t, r, true, false);
        if started && gap {
            assert(seq![' ', a[0]] + (t + squash(r, true, false)) =~= (seq![' '] + a) + squash(
                r,
                true,
                false,
            ));
        } else {
            assert(seq![a[0]] + (t + squash(r, true, false)) =~= a + squash(r, true, false));
        }
    }
}

proof fn lemma_squash_spaces(w: Seq<char>, r: Seq<char>, started: bool, gap: bool)
    requires
        forall|i: int| 0 <= i < w.len() ==> #[trigger] w[i] == ' ',
    ensures
        squash(w + r, started, gap) == squash(r, started, gap || w.len() > 0),
    decreases w.len(),
{
    if w.len() == 0 {
        assert(w + r =~= r);
    } else {
        assert((w + r)[0] == ' ');
        assert(is_ws(' '));
        assert((w + r).drop_first() =~= w.drop_first() + r);
        lemma_squash_spaces(w.drop_first(), r, started, true);
    }
}

/// A document whose tags leave two words with spaces between them reads
/// as the two words with one space between them.
proof fn lemma_document_two_words(s: Seq<char>, x: Seq<char>, w: Seq<char>, y: Seq<char>)
    requires
        no_bang_after_lt(s),
        tags_removed(s, false, true) == x + w + y,
        is_plain_word(x),
        is_plain_word(y),
        w.len() > 0,
        forall|i: int| 0 <= i < w.len() ==> #[trigger] w[i] == ' ',
    ensures
        document_text(s) == x + seq![' '] + y,
{
    lemma_strip_comments_none(s);
    let m = x + w + y;
    assert forall|i: int| 0 <= i < m.len() implies #[trigger] m[i] != '&' by {
        if i < x.len() {
            assert(m[i] == x[i]);
        } else if i < x.len() + w.len() {
            assert(m[i] == w[i - x.len()]);
        } else {
            assert(m[i] == y[i - x.len() - w.len()]);
        }
    }
    lemma_decode_no_amp(m);
    assert forall|i: int| 0 <= i < x.len() implies !is_ws(#[trigger] x[i]) by {}
    assert forall|i: int| 0 <= i < y.len() implies !is_ws(#[trigger] y[i]) by {}
    assert(m =~= x + (w + y));
    lemma_squash_word(x, w + y, false, false);
    lemma_squash_spaces(w, y, true, false);
    assert(y =~= y + Seq::<char>::empty());
    lemma_squash_word(y, Seq::<char>::empty(), true, true);
    assert(x + (seq![' '] + y + Seq::<char>::empty()) =~= x + seq![' '] + y);
}

/// Words in two elements separated by a tag are read with a space between
/// them: `x<t>y` reads as `x y`, for every tag `<t>` that is not a comment.
pub proof fn lemma_tag_separates_words(x: Seq<char>, t: Seq<char>, y: Seq<char>)
    requires
        is_plain_word(x),
        is_tag_body(t),
        is_plain_word(y),
    ensures
        document_text(x + seq!['<'] + t + seq!['>'] + y) == x + seq![' '] + y,
{
    let s = x + seq!['<'] + t + seq!['>'] + y;
    let tail = seq!['<'] + t + seq!['>'] + y;
    assert(s =~= x + tail);
    assert forall|k: int| 0 <= k && k + 1 < s.len() && #[trigger] s[k] == '<' implies s[k + 1]
        != '!' by {
        if k < x.len() {
            assert(s[k] == x[k]);
        } else if k == x.len() {
            if t.len() > 0 {
                assert(s[k + 1] == t[0]);
            } else {
                assert(s[k + 1] == '>');
            }
        } else if k <= x.len() + t.len() {
            assert(s[k] == t[k - x.len() - 1]);
        } else if k == x.len() + t.len() + 1 {
            assert(s[k] == '>');
        } else {
            assert(s[k] == y[k - x.len() - t.len() - 2]);
        }
    }
    lemma_tags_text(x, tail, true);
    lemma_tags_one_tag(t, y);
    assert(y =~= y + Seq::<char>::empty());
    lemma_tags_text(y, Seq::<char>::empty(), true);
    assert(x + (seq![' '] + (y + Seq::<char>::empty())) =~= x + seq![' '] + y);
    lemma_document_two_words(s, x, seq![' '], y);
}

/// Words in two sibling elements are read with a space between them:
/// `x<t1><t2>y` (as in `x</p><p>y`) reads as `x y`.
pub proof fn lemma_sibling_elements_separate_words(
    x: Seq<char>,
    t1: Seq<char>,
    t2: Seq<char>,
    y: Seq<char>,
)
    requires
        is_plain_word(x),
        is_tag_body(t1),
        is_tag_body(t2),
        is_plain_word(y),
    ensures
        document_text(x + seq!['<'] + t1 + seq!['>', '<'] + t2 + seq!['>'] + y) == x + seq![' ']
            + y,
{
    let s = x + seq!['<'] + t1 + seq!['>', '<'] + t2 + seq!['>'] + y;
    let second = seq!['<'] + t2 + seq!['>'] + y;
    let tail = seq!['<'] + t1 + seq!['>'] + second;
    assert(s =~= x + tail);
    let a = x.len();
    let b = a + t1.len() + 2;
    assert forall|k: int| 0 <= k && k + 1 < s.len() && #[trigger] s[k] == '<' implies s[k + 1]
        != '!' by {
        if k < a {
            assert(s[k] == x[k]);
        } else if k == a {
            if t1.len() > 0 {
                assert(s[k + 1] == t1[0]);
            } else {
                assert(s[k + 1] == '>');
            }
        } else if k < b - 1 {
            assert(s[k] == t1[k - a - 1]);
        } else if k == b - 1 {
            assert(s[k] == '>');
        } else if k == b {
            if t2.len() > 0 {
                assert(s[k + 1] == t2[0]);
            } else {
                assert(s[k + 1] == '>');
            }
        } else if k < b + t2.len() + 1 {
            assert(s[k] == t2[k - b - 1]);
        } else if k == b + t2.len() + 1 {
            assert(s[k] == '>');
        } else {
            assert(s[k] == y[k - b - t2.len() - 2]);
        }
    }
    lemma_tags_text(x, tail, true);
    lemma_tags_one_tag(t1, second);
    lemma_tags_one_tag(t2, y);
    assert(y =~= y + Seq::<char>::empty());
    lemma_tags_text(y, Seq::<char>::empty(), true);
    assert(x + (seq![' '] + (seq![' '] + (y + Seq::<char>::empty()))) =~= x + seq![' ', ' ']
        + y);
    lemma_document_two_words(s, x, seq![' ', ' '], y);
}

} // verus!
