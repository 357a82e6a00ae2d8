//! Character-level text helpers shared by the clipboard, search and preview code.
//!
//! Text is handled as sequences of Unicode scalar values (`char`), which is
//! how `str` and `String` are viewed in specifications.
use vstd::prelude::*;

verus! {

/// Unicode `White_Space` characters, as classified by `char::is_whitespace`.
pub open spec fn is_ws(c: char) -> bool {
    let n = c as u32;
    ||| (0x9 <= n && n <= 0xd)
    ||| n == 0x20
    ||| n == 0x85
    ||| n == 0xa0
    ||| n == 0x1680
    ||| (0x2000 <= n && n <= 0x200a)
    ||| n == 0x2028
    ||| n == 0x2029
    ||| n == 0x202f
    ||| n == 0x205f
    ||| n == 0x3000
}

/// `s` without its leading whitespace.
pub open spec fn trim_start(s: Seq<char>) -> Seq<char>
    decreases s.len(),
{
    if s.len() > 0 && is_ws(s[0]) {
        trim_start(s.drop_first())
    } else {
        s
    }
}

/// `s` without its trailing whitespace.
pub open spec fn trim_end(s: Seq<char>) -> Seq<char>
    decreases s.len(),
{
    if s.len() > 0 && is_ws(s.last()) {
        trim_end(s.drop_last())
    } else {
        s
    }
}

/// `s` without leading and trailing whitespace.
pub open spec fn trim(s: Seq<char>) -> Seq<char> {
    trim_end(trim_start(s))
}

/// ASCII upper-case letters mapped to lower case; every other char is kept.
pub open spec fn ascii_lower_char(c: char) -> char {
    if 'A' <= c && c <= 'Z' {
        ((c as u32) + 32) as char
    } else {
        c
    }
}

/// `s` with every ASCII upper-case letter mapped to lower case.
pub open spec fn ascii_lower(s: Seq<char>) -> Seq<char> {
    s.map_values(|c: char| ascii_lower_char(c))
}

/// `p` occurs in `s` starting at position `i`.
pub open spec fn occurs_at<A>(s: Seq<A>, p: Seq<A>, i: int) -> bool {
    0 <= i && i + p.len() <= s.len() && s.subrange(i, i + p.len()) == p
}

/// `s` begins with `p`.
pub open spec fn starts_with<A>(s: Seq<A>, p: Seq<A>) -> bool {
    occurs_at(s, p, 0)
}

/// `p` occurs somewhere in `s`.
pub open spec fn contains_seq<A>(s: Seq<A>, p: Seq<A>) -> bool {
    exists|i: int| occurs_at(s, p, i)
}

/// The first position at or after `i` where `p` occurs in `s`.
pub open spec fn find_from<A>(s: Seq<A>, p: Seq<A>, i: int) -> Option<int>
    decreases s.len() + 1 - i,
{
    if i < 0 || i + p.len() > s.len() {
        None
    } else if occurs_at(s, p, i) {
        Some(i)
    } else {
        find_from(s, p, i + 1)
    }
}

/// The first position where `p` occurs in `s`.
pub open spec fn find<A>(s: Seq<A>, p: Seq<A>) -> Option<int> {
    find_from(s, p, 0)
}

/// Whitespace runs collapsed: the words of `s`, joined by single spaces.
/// `started` says whether a word was already emitted, `gap` whether
/// whitespace was seen since the last word character.
pub open spec fn squash(s: Seq<char>, started: bool, gap: bool) -> Seq<char>
    decreases s.len(),
{
    if s.len() == 0 {
        Seq::empty()
    } else if is_ws(s[0]) {
        squash(s.drop_first(), started, true)
    } else if started && gap {
        seq![' ', s[0]] + squash(s.drop_first(), true, false)
    } else {
        seq![s[0]] + squash(s.drop_first(), true, false)
    }
}

/// The whitespace-separated words of `s`, joined by single spaces.
pub open spec fn condense_ws(s: Seq<char>) -> Seq<char> {
    squash(s, false, false)
}

/// At most the first `n` characters of `s`.
pub open spec fn take_at_most<A>(s: Seq<A>, n: nat) -> Seq<A> {
    if s.len() <= n {
        s
    } else {
        s.take(n as int)
    }
}

/// Appends one character to a `String`.
#[verifier::external_body]
fn push_char(s: &mut String, c: char)
    ensures
        final(s)@ == old(s)@.push(c),
{
    s.push(c);
}

/// The characters of `s`, in order.
pub fn chars_of(s: &str) -> (v: Vec<char>)
    ensures
        v@ == s@,
{
    let mut v: Vec<char> = Vec::new();
    for c in it: s.chars()
        invariant
            v@ == it.seq().take(it.index() as int),
            it.seq() == s@,
    {
        v.push(c);
    }
    v
}

/// A `String` holding the characters of `v`.
pub fn string_of(v: &[char]) -> (s: String)
    ensures
        s@ == v@,
{
    let mut s = String::new();
    let mut i: usize = 0;
    while i < v.len()
        invariant
            i <= v.len(),
            s@ == v@.take(i as int),
        decreases v.len() - i,
    {
        push_char(&mut s, v[i]);
        assert(v@.take(i as int).push(v@[i as int]) =~= v@.take(i + 1));
        i = i + 1;
    }
    assert(v@.take(v.len() as int) =~= v@);
    s
}

/// Whether `c` is Unicode whitespace.
pub fn is_whitespace(c: char) -> (b: bool)
    ensures
        b == is_ws(c),
{
    let n = c as u32;
    (0x9 <= n && n <= 0xd) || n == 0x20 || n == 0x85 || n == 0xa0 || n == 0x1680 || (0x2000 <= n
        && n <= 0x200a) || n == 0x2028 || n == 0x2029 || n == 0x202f || n == 0x205f || n == 0x3000
}

proof fn lemma_trim_start_skip(s: Seq<char>, i: int)
    requires
        0 <= i <= s.len(),
        forall|k: int| 0 <= k < i ==> is_ws(#[trigger] s[k]),
    ensures
        trim_start(s) == trim_start(s.skip(i)),
    decreases i,
{
    if i > 0 {
        assert(is_ws(s[0]));
        assert(s.drop_first().skip(i - 1) =~= s.skip(i));
        assert forall|k: int| 0 <= k < i - 1 implies is_ws(#[trigger] s.drop_first()[k]) by {
            assert(s.drop_first()[k] == s[k + 1]);
        }
        lemma_trim_start_skip(s.drop_first(), i - 1);
    } else {
        assert(s.skip(0) =~= s);
    }
}

proof fn lemma_trim_end_take(s: Seq<char>, j: int)
    requires
        0 <= j <= s.len(),
        forall|k: int| j <= k < s.len() ==> is_ws(#[trigger] s[k]),
    ensures
        trim_end(s) == trim_end(s.take(j)),
    decreases s.len() - j,
{
    if j < s.len() {
        assert(is_ws(s.last()));
        assert(s.drop_last().take(j) =~= s.take(j));
        assert forall|k: int| j <= k < s.drop_last().len() implies is_ws(
            #[trigger] s.drop_last()[k],
        ) by {
            assert(s.drop_last()[k] == s[k]);
        }
        lemma_trim_end_take(s.drop_last(), j);
    } else {
        assert(s.take(j) =~= s);
    }
}

/// Position of the first non-whitespace character of `s` (or `s.len()`).
pub fn trim_start_index(s: &[char]) -> (i: usize)
    ensures
        i <= s@.len(),
        s@.skip(i as int) == trim_start(s@),
{
    let mut i: usize = 0;
    while i < s.len() && is_whitespace(s[i])
        invariant
            i <= s.len(),
            forall|k: int| 0 <= k < i ==> is_ws(#[trigger] s@[k]),
        decreases s.len() - i,
    {
        i = i + 1;
    }
    proof {
        lemma_trim_start_skip(s@, i as int);
        let t = s@.skip(i as int);
        if t.len() > 0 {
            assert(t[0] == s@[i as int]);
        }
    }
    i
}

/// Position just after the last non-whitespace character of `s[..end]`.
pub fn trim_end_index(s: &[char], end: usize) -> (j: usize)
    requires
        end <= s@.len(),
    ensures
        j <= end,
        s@.take(j as int) == trim_end(s@.take(end as int)),
{
    let mut j: usize = end;
    while j > 0 && is_whitespace(s[j - 1])
        invariant
            j <= end <= s.len(),
            forall|k: int| j <= k < end ==> is_ws(#[trigger] s@[k]),
        decreases j,
    {
        j = j - 1;
    }
    proof {
        let e = s@.take(end as int);
        assert forall|k: int| j <= k < e.len() implies is_ws(#[trigger] e[k]) by {
            assert(e[k] == s@[k]);
        }
        lemma_trim_end_take(e, j as int);
        assert(e.take(j as int) =~= s@.take(j as int));
        let t = s@.take(j as int);
        if t.len() > 0 {
            assert(t.last() == s@[j - 1]);
        }
    }
    j
}

/// The characters `s[from..to]` as a new vector.
pub fn copy_range(s: &[char], from: usize, to: usize) -> (v: Vec<char>)
    requires
        from <= to <= s@.len(),
    ensures
        v@ == s@.subrange(from as int, to as int),
{
    let mut v: Vec<char> = Vec::new();
    let mut i = from;
    while i < to
        invariant
            from <= i <= to <= s.len(),
            v@ == s@.subrange(from as int, i as int),
        decreases to - i,
    {
        v.push(s[i]);
        assert(s@.subrange(from as int, i as int).push(s@[i as int]) =~= s@.subrange(
            from as int,
            i + 1,
        ));
        i = i + 1;
    }
    v
}

/// `s` without leading and trailing whitespace.
pub fn trimmed(s: &[char]) -> (v: Vec<char>)
    ensures
        v@ == trim(s@),
{
    let i = trim_start_index(s);
    let t = copy_range(s, i, s.len());
    assert(t@ =~= s@.skip(i as int));
    let j = trim_end_index(&t, t.len());
    assert(t@.take(t@.len() as int) =~= t@);
    let v = copy_range(&t, 0, j);
    assert(v@ =~= t@.take(j as int));
    v
}

/// `trim_end(s)` is a prefix of `s` whose remainder is whitespace and whose
/// last character (if any) is not.
pub proof fn lemma_trim_end_shape(s: Seq<char>)
    ensures
        trim_end(s).len() <= s.len(),
        trim_end(s) == s.take(trim_end(s).len() as int),
        forall|k: int| trim_end(s).len() <= k < s.len() ==> is_ws(#[trigger] s[k]),
        trim_end(s).len() > 0 ==> !is_ws(trim_end(s).last()),
    decreases s.len(),
{
    if s.len() > 0 && is_ws(s.last()) {
        lemma_trim_end_shape(s.drop_last());
        let t = trim_end(s.drop_last());
        assert(s.drop_last().take(t.len() as int) =~= s.take(t.len() as int));
        assert forall|k: int| t.len() <= k < s.len() implies is_ws(#[trigger] s[k]) by {
            if k < s.len() - 1 {
                assert(s.drop_last()[k] == s[k]);
            }
        }
    } else {
        assert(s.take(s.len() as int) =~= s);
    }
}

/// `trim_start(s)` is a suffix of `s` whose skipped part is whitespace and
/// whose first character (if any) is not.
pub proof fn lemma_trim_start_shape(s: Seq<char>)
    ensures
        trim_start(s).len() <= s.len(),
        trim_start(s) == s.skip(s.len() - trim_start(s).len()),
        forall|k: int| 0 <= k < s.len() - trim_start(s).len() ==> is_ws(#[trigger] s[k]),
        trim_start(s).len() > 0 ==> !is_ws(trim_start(s)[0]),
    decreases s.len(),
{
    if s.len() > 0 && is_ws(s[0]) {
        lemma_trim_start_shape(s.drop_first());
        let t = trim_start(s.drop_first());
        assert(s.drop_first().skip(s.drop_first().len() - t.len()) =~= s.skip(
            s.len() - t.len(),
        ));
        assert forall|k: int| 0 <= k < s.len() - t.len() implies is_ws(#[trigger] s[k]) by {
            if k > 0 {
                assert(s.drop_first()[k - 1] == s[k]);
            }
        }
    } else {
        assert(s.skip(0) =~= s);
    }
}

/// `s` with ASCII upper-case letters mapped to lower case.
pub fn to_ascii_lower(s: &[char]) -> (v: Vec<char>)
    ensures
        v@ == ascii_lower(s@),
{
    let mut v: Vec<char> = Vec::new();
    let mut i: usize = 0;
    while i < s.len()
        invariant
            i <= s.len(),
            v@ == ascii_lower(s@.take(i as int)),
        decreases s.len() - i,
    {
        let c = s[i];
        let d = if 'A' <= c && c <= 'Z' {
            char_from_ascii_code((c as u32 + 32) as u8)
        } else {
            c
        };
        v.push(d);
        assert(ascii_lower(s@.take(i as int)).push(ascii_lower_char(s@[i as int])) =~= ascii_lower(
            s@.take(i + 1),
        ));
        i = i + 1;
    }
    assert(s@.take(s.len() as int) =~= s@);
    v
}

fn char_from_ascii_code(b: u8) -> (c: char)
    ensures
        c as u32 == b as u32,
{
    b as char
}

/// Whether `p` occurs in `s` at position `i`.
pub fn matches_at(s: &[char], p: &[char], i: usize) -> (b: bool)
    ensures
        b == occurs_at(s@, p@, i as int),
{
    if i > s.len() || p.len() > s.len() - i {
        return false;
    }
    let mut k: usize = 0;
    while k < p.len()
        invariant
            i + p.len() <= s.len(),
            k <= p.len(),
            forall|m: int| 0 <= m < k ==> s@[i + m] == p@[m],
        decreases p.len() - k,
    {
        if s[i + k] != p[k] {
            assert(s@.subrange(i as int, i + p.len())[k as int] != p@[k as int]);
            return false;
        }
        k = k + 1;
    }
    assert(s@.subrange(i as int, i + p.len()) =~= p@);
    true
}

/// The first position at or after `from` where `p` occurs in `s`.
pub fn find_chars_from(s: &[char], p: &[char], from: usize) -> (r: Option<usize>)
    ensures
        match r {
            Some(i) => find_from(s@, p@, from as int) == Some(i as int),
            None => find_from(s@, p@, from as int) is None,
        },
{
    let mut i = from;
    while i <= s.len() && p.len() <= s.len() - i
        invariant
            from <= i,
            find_from(s@, p@, from as int) == find_from(s@, p@, i as int),
        decreases s.len() + 1 - i,
    {
        if matches_at(s, p, i) {
            return Some(i);
        }
        if i == s.len() {
            assert(find_from(s@, p@, i + 1) is None);
            return None;
        }
        i = i + 1;
    }
    None
}

/// Whether `p` occurs anywhere in `s`.
pub fn contains_chars(s: &[char], p: &[char]) -> (b: bool)
    ensures
        b == contains_seq(s@, p@),
{
    let r = find_chars_from(s, p, 0);
    proof {
        lemma_find_from_spec(s@, p@, 0);
    }
    r.is_some()
}

/// `find_from` gives the first occurrence at or after `i`.
pub proof fn lemma_find_from_spec<A>(s: Seq<A>, p: Seq<A>, i: int)
    requires
        0 <= i,
    ensures
        match find_from(s, p, i) {
            Some(k) => i <= k && occurs_at(s, p, k) && forall|m: int|
                i <= m < k ==> !occurs_at(s, p, m),
            None => forall|m: int| i <= m ==> !occurs_at(s, p, m),
        },
    decreases s.len() + 1 - i,
{
    if i + p.len() > s.len() {
    } else if occurs_at(s, p, i) {
    } else {
        lemma_find_from_spec(s, p, i + 1);
    }
}

/// The words of `s` joined by single spaces.
pub fn condense(s: &[char]) -> (v: Vec<char>)
    ensures
        v@ == condense_ws(s@),
{
    let mut v: Vec<char> = Vec::new();
    let mut started = false;
    let mut gap = false;
    let mut i: usize = 0;
    assert(s@.skip(0) =~= s@);
    assert(v@ + condense_ws(s@) =~= condense_ws(s@));
    while i < s.len()
        invariant
            i <= s.len(),
            condense_ws(s@) == v@ + squash(s@.skip(i as int), started, gap),
        decreases s.len() - i,
    {
        let c = s[i];
        let ghost rest = s@.skip(i + 1);
        proof {
            assert(s@.skip(i as int).drop_first() =~= rest);
            assert(s@.skip(i as int)[0] == c);
        }
        if is_whitespace(c) {
            gap = true;
        } else {
            let ghost before = v@;
            let ghost piece = if started && gap {
                seq![' ', c]
            } else {
                seq![c]
            };
            if started && gap {
                v.push(' ');
            }
            v.push(c);
            proof {
                assert(v@ =~= before + piece);
                assert(before + (piece + squash(rest, true, false)) =~= (before + piece) + squash(
                    rest,
                    true,
                    false,
                ));
            }
            started = true;
            gap = false;
        }
        i = i + 1;
    }
    assert(squash(s@.skip(i as int), started, gap) =~= Seq::<char>::empty());
    assert(v@ + Seq::<char>::empty() =~= v@);
    v
}

/// At most the first `n` characters of `s`.
pub fn take_chars(s: &[char], n: usize) -> (v: Vec<char>)
    ensures
        v@ == take_at_most(s@, n as nat),
{
    let end = if s.len() <= n {
        s.len()
    } else {
        n
    };
    let v = copy_range(s, 0, end);
    assert(s@.subrange(0, s@.len() as int) =~= s@);
    v
}

/// Every whitespace character of `r` is a space followed by a
/// non-whitespace character, and `r` ends with a non-whitespace character.
pub open spec fn single_spaced(r: Seq<char>) -> bool {
    &&& forall|i: int| 0 <= i < r.len() && is_ws(#[trigger] r[i]) ==> r[i] == ' ' && i + 1 < r.len()
        && !is_ws(r[i + 1])
    &&& r.len() > 0 ==> !is_ws(r.last())
}

proof fn lemma_squash_shape(s: Seq<char>, started: bool, gap: bool)
    ensures
        single_spaced(squash(s, started, gap)),
        !started ==> (squash(s, started, gap).len() == 0 || !is_ws(squash(s, started, gap)[0])),
    decreases s.len(),
{
    if s.len() == 0 {
    } else if is_ws(s[0]) {
        lemma_squash_shape(s.drop_first(), started, true);
    } else {
        let rest = squash(s.drop_first(), true, false);
        lemma_squash_shape(s.drop_first(), true, false);
        let head = if started && gap {
            seq![' ', s[0]]
        } else {
            seq![s[0]]
        };
        let r = head + rest;
        assert(r == squash(s, started, gap));
        assert forall|i: int| 0 <= i < r.len() && is_ws(#[trigger] r[i]) implies r[i] == ' ' && i
            + 1 < r.len() && !is_ws(r[i + 1]) by {
            if i >= head.len() {
                assert(r[i] == rest[i - head.len()]);
                assert(r[i + 1] == rest[i + 1 - head.len()]);
            } else {
                assert(is_ws(' '));
            }
        }
        if rest.len() > 0 {
            assert(r.last() == rest.last());
        }
    }
}

/// Condensed text has single spaces only between words: no whitespace at
/// either end, no other whitespace than single spaces.
pub proof fn lemma_condense_shape(s: Seq<char>)
    ensures
        single_spaced(condense_ws(s)),
        condense_ws(s).len() > 0 ==> !is_ws(condense_ws(s)[0]),
{
    lemma_squash_shape(s, false, false);
}

/// Text that is already single spaced is left as it is by condensing.
pub proof fn lemma_condense_fixed(s: Seq<char>)
    requires
        single_spaced(s),
        s.len() > 0 ==> !is_ws(s[0]),
    ensures
        condense_ws(s) == s,
{
    lemma_squash_fixed(s, false, false);
}

proof fn lemma_squash_fixed(s: Seq<char>, started: bool, gap: bool)
    requires
        single_spaced(s),
        s.len() > 0 ==> !is_ws(s[0]) || started,
        started && !gap ==> (s.len() == 0 || !is_ws(s[0]) || s[0] == ' '),
        gap ==> started,
        gap ==> s.len() > 0 && !is_ws(s[0]),
    ensures
        squash(s, started, gap) == (if gap { seq![' '] + s } else { s }),
    decreases s.len(),
{
    if s.len() == 0 {
    } else if is_ws(s[0]) {
        let t = s.drop_first();
        assert(s[0] == ' ' && 1 < s.len() && !is_ws(s[1]));
        assert(single_spaced(t)) by {
            assert forall|i: int| 0 <= i < t.len() && is_ws(#[trigger] t[i]) implies t[i] == ' '
                && i + 1 < t.len() && !is_ws(t[i + 1]) by {
                assert(t[i] == s[i + 1]);
                assert(is_ws(s[i + 1]));
            }
            if t.len() > 0 {
                assert(t.last() == s.last());
            }
        }
        lemma_squash_fixed(t, started, true);
        assert(seq![' '] + t =~= s);
    } else {
        let t = s.drop_first();
        assert(single_spaced(t)) by {
            assert forall|i: int| 0 <= i < t.len() && is_ws(#[trigger] t[i]) implies t[i] == ' '
                && i + 1 < t.len() && !is_ws(t[i + 1]) by {
                assert(t[i] == s[i + 1]);
                assert(is_ws(s[i + 1]));
            }
            if t.len() > 0 {
                assert(t.last() == s.last());
            }
        }
        if t.len() > 0 && is_ws(t[0]) {
            assert(t[0] == s[1]);
            assert(is_ws(s[1]));
        }
        lemma_squash_fixed(t, true, false);
        if started && gap {
            assert(seq![' ', s[0]] + t =~= seq![' '] + s);
        } else {
            assert(seq![s[0]] + t =~= s);
        }
    }
}

/// Condensing twice is condensing once.
pub proof fn lemma_condense_idempotent(s: Seq<char>)
    ensures
        condense_ws(condense_ws(s)) == condense_ws(s),
{
    lemma_condense_shape(s);
    lemma_condense_fixed(condense_ws(s));
}

/// A text begins with each of its prefixes.
pub proof fn lemma_starts_with_concat(p: Seq<char>)
    ensures
        forall|t: Seq<char>| #[trigger] starts_with(p + t, p),
{
    assert forall|t: Seq<char>| #[trigger] starts_with(p + t, p) by {
        assert((p + t).subrange(0, p.len() as int) =~= p);
    }
}

} // verus!
