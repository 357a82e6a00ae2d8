//! Filtering and ordering of clipboard history for the picker's search box.
use vstd::prelude::*;
use crate::item::{ClipboardItem, text_or_empty};
use crate::text::{chars_of, contains_chars, contains_seq, string_of, trim, trimmed};

verus! {

/// The full Unicode lower-case mapping of a text, as `str::to_lowercase`
/// computes it.
pub uninterp spec fn unicode_lowercase(s: Seq<char>) -> Seq<char>;

/// Calls `str::to_lowercase`; the lower case of the empty text is empty.
#[verifier::external_body]
fn to_lowercase(s: &str) -> (r: String)
    ensures
        r@ == unicode_lowercase(s@),
        s@.len() == 0 ==> r@.len() == 0,
{
    s.to_lowercase()
}

/// What a query is matched by: the query trimmed and lower-cased.
pub open spec fn search_needle(query: Seq<char>) -> Seq<char> {
    unicode_lowercase(trim(query))
}

/// A history item is shown for `needle` when it is not deleted and the
/// needle is empty or occurs in its lower-cased plain text or HTML.
pub open spec fn item_matches(needle: Seq<char>, item: ClipboardItem) -> bool {
    &&& item.deleted_at is None
    &&& (needle.len() == 0 || contains_seq(
        unicode_lowercase(text_or_empty(item.payload.text_plain)),
        needle,
    ) || contains_seq(unicode_lowercase(text_or_empty(item.payload.text_html)), needle))
}

/// `a` is listed strictly before `b`: pinned first, then favorites, then the
/// most recently used.
pub open spec fn outranks(a: ClipboardItem, b: ClipboardItem) -> bool {
    ||| (a.is_pinned && !b.is_pinned)
    ||| (a.is_pinned == b.is_pinned && a.is_favorite && !b.is_favorite)
    ||| (a.is_pinned == b.is_pinned && a.is_favorite == b.is_favorite && a.last_used_at
        > b.last_used_at)
}

/// `x` placed into `s` just before the first item it outranks.
pub open spec fn insert_ranked(s: Seq<ClipboardItem>, x: ClipboardItem) -> Seq<ClipboardItem>
    decreases s.len(),
{
    if s.len() == 0 {
        seq![x]
    } else if outranks(x, s[0]) {
        seq![x] + s
    } else {
        seq![s[0]] + insert_ranked(s.drop_first(), x)
    }
}

/// `s` in rank order; items of equal rank keep their order (a stable sort).
pub open spec fn sort_ranked(s: Seq<ClipboardItem>) -> Seq<ClipboardItem>
    decreases s.len(),
{
    if s.len() == 0 {
        s
    } else {
        insert_ranked(sort_ranked(s.drop_last()), s.last())
    }
}

/// The search result: the matching items of `items`, in rank order.
pub open spec fn ranked(query: Seq<char>, items: Seq<ClipboardItem>) -> Seq<ClipboardItem> {
    sort_ranked(items.filter(|it: ClipboardItem| item_matches(search_needle(query), it)))
}

/// No item of `s` outranks an item listed before it.
pub open spec fn in_rank_order(s: Seq<ClipboardItem>) -> bool {
    forall|i: int, j: int| 0 <= i < j < s.len() ==> !outranks(#[trigger] s[j], #[trigger] s[i])
}

/// The position `insert_ranked` gives `x` in `s`.
pub open spec fn rank_position(s: Seq<ClipboardItem>, x: ClipboardItem, j: int) -> bool {
    &&& 0 <= j <= s.len()
    &&& forall|k: int| 0 <= k < j ==> !outranks(x, #[trigger] s[k])
    &&& j < s.len() ==> outranks(x, s[j])
}

proof fn lemma_insert_ranked_at(s: Seq<ClipboardItem>, x: ClipboardItem, j: int)
    requires
        rank_position(s, x, j),
    ensures
        insert_ranked(s, x) == s.take(j) + seq![x] + s.skip(j),
    decreases s.len(),
{
    if s.len() == 0 {
        assert(s.take(j) + seq![x] + s.skip(j) =~= seq![x]);
    } else if outranks(x, s[0]) {
        assert(j == 0);
        assert(s.take(j) + seq![x] + s.skip(j) =~= seq![x] + s);
    } else {
        let t = s.drop_first();
        assert(j > 0);
        assert forall|k: int| 0 <= k < j - 1 implies !outranks(x, #[trigger] t[k]) by {
            assert(t[k] == s[k + 1]);
        }
        if j - 1 < t.len() {
            assert(t[j - 1] == s[j]);
        }
        lemma_insert_ranked_at(t, x, j - 1);
        assert(seq![s[0]] + (t.take(j - 1) + seq![x] + t.skip(j - 1)) =~= s.take(j) + seq![x]
            + s.skip(j));
    }
}

/// Inserting into a sequence in rank order keeps it in rank order and adds
/// exactly the inserted item.
pub proof fn lemma_insert_ranked_props(s: Seq<ClipboardItem>, x: ClipboardItem)
    requires
        in_rank_order(s),
    ensures
        in_rank_order(insert_ranked(s, x)),
        insert_ranked(s, x).to_multiset() == s.to_multiset().insert(x),
    decreases s.len(),
{
    broadcast use vstd::seq_lib::group_to_multiset_ensures;

    let r = insert_ranked(s, x);
    if s.len() == 0 {
        assert(r =~= Seq::<ClipboardItem>::empty().push(x));
    } else if outranks(x, s[0]) {
        assert forall|i: int, j: int| 0 <= i < j < r.len() implies !outranks(
            #[trigger] r[j],
            #[trigger] r[i],
        ) by {
            if i == 0 {
                assert(r[j] == s[j - 1]);
                if j - 1 > 0 {
                    assert(!outranks(s[j - 1], s[0]));
                }
            } else {
                assert(r[i] == s[i - 1]);
                assert(r[j] == s[j - 1]);
            }
        }
        lemma_multiset_prepend(s, x);
    } else {
        let t = s.drop_first();
        assert forall|i: int, j: int| 0 <= i < j < t.len() implies !outranks(
            #[trigger] t[j],
            #[trigger] t[i],
        ) by {
            assert(t[i] == s[i + 1]);
            assert(t[j] == s[j + 1]);
        }
        lemma_insert_ranked_props(t, x);
        let rt = insert_ranked(t, x);
        assert(r == seq![s[0]] + rt);
        assert forall|i: int, j: int| 0 <= i < j < r.len() implies !outranks(
            #[trigger] r[j],
            #[trigger] r[i],
        ) by {
            if i == 0 {
                assert(r[j] == rt[j - 1]);
                // rt[j-1] is x or an element of t; none of them outranks s[0]
                lemma_multiset_member(rt, j - 1);
                assert(rt.to_multiset().count(rt[j - 1]) > 0);
                assert(t.to_multiset().insert(x).count(rt[j - 1]) > 0);
                if rt[j - 1] != x {
                    assert(t.to_multiset().count(rt[j - 1]) > 0);
                    assert(t.contains(rt[j - 1]));
                    let k = choose|k: int| 0 <= k < t.len() && t[k] == rt[j - 1];
                    assert(t[k] == s[k + 1]);
                }
            } else {
                assert(r[i] == rt[i - 1]);
                assert(r[j] == rt[j - 1]);
            }
        }
        lemma_multiset_prepend(rt, s[0]);
        lemma_multiset_prepend(t, s[0]);
        assert(s =~= seq![s[0]] + t);
        assert(t.to_multiset().insert(x).insert(s[0]) =~= t.to_multiset().insert(s[0]).insert(
            x,
        ));
    }
}

proof fn lemma_multiset_member(s: Seq<ClipboardItem>, i: int)
    requires
        0 <= i < s.len(),
    ensures
        s.to_multiset().count(s[i]) > 0,
{
    broadcast use vstd::seq_lib::group_to_multiset_ensures;

    assert(s.contains(s[i]));
}

proof fn lemma_multiset_prepend(s: Seq<ClipboardItem>, x: ClipboardItem)
    ensures
        (seq![x] + s).to_multiset() == s.to_multiset().insert(x),
    decreases s.len(),
{
    broadcast use vstd::seq_lib::group_to_multiset_ensures;

    if s.len() == 0 {
        assert(seq![x] + s =~= Seq::<ClipboardItem>::empty().push(x));
    } else {
        let d = s.drop_last();
        lemma_multiset_prepend(d, x);
        assert(seq![x] + s =~= (seq![x] + d).push(s.last()));
        assert(s =~= d.push(s.last()));
        assert(d.to_multiset().insert(x).insert(s.last()) =~= d.to_multiset().insert(
            s.last(),
        ).insert(x));
    }
}

/// A ranked sequence is in rank order and holds exactly the items of the
/// sequence it ranks.
pub proof fn lemma_sort_ranked_props(s: Seq<ClipboardItem>)
    ensures
        in_rank_order(sort_ranked(s)),
        sort_ranked(s).to_multiset() == s.to_multiset(),
    decreases s.len(),
{
    broadcast use vstd::seq_lib::group_to_multiset_ensures;

    if s.len() > 0 {
        lemma_sort_ranked_props(s.drop_last());
        lemma_insert_ranked_props(sort_ranked(s.drop_last()), s.last());
        assert(s =~= s.drop_last().push(s.last()));
    } else {
        assert(s.to_multiset() =~= sort_ranked(s).to_multiset());
    }
}

/// Search results are in rank order, hold each matching item exactly as
/// often as the input does, and only matching items.
pub proof fn lemma_ranked_results(query: Seq<char>, items: Seq<ClipboardItem>)
    ensures
        in_rank_order(ranked(query, items)),
        ranked(query, items).to_multiset() == items.filter(
            |it: ClipboardItem| item_matches(search_needle(query), it),
        ).to_multiset(),
        forall|i: int|
            0 <= i < ranked(query, items).len() ==> item_matches(
                search_needle(query),
                #[trigger] ranked(query, items)[i],
            ),
{
    broadcast use vstd::seq_lib::group_to_multiset_ensures;
    broadcast use vstd::seq_lib::group_filter_ensures;

    let pred = |it: ClipboardItem| item_matches(search_needle(query), it);
    let f = items.filter(pred);
    lemma_sort_ranked_props(f);
    let r = ranked(query, items);
    assert forall|i: int| 0 <= i < r.len() implies item_matches(
        search_needle(query),
        #[trigger] r[i],
    ) by {
        lemma_multiset_member(r, i);
        assert(f.to_multiset().count(r[i]) > 0);
        assert(f.contains(r[i]));
        let k = choose|k: int| 0 <= k < f.len() && f[k] == r[i];
        assert(pred(f[k]));
    }
}

/// Deleted items are never shown, whatever the query.
pub proof fn lemma_deleted_items_not_shown(query: Seq<char>, items: Seq<ClipboardItem>, i: int)
    requires
        0 <= i < ranked(query, items).len(),
    ensures
        ranked(query, items)[i].deleted_at is None,
{
    lemma_ranked_results(query, items);
}

/// In a search result, pinned items come before unpinned ones; among items
/// pinned alike, favorites come before the rest; and among items alike in
/// both, the more recently used comes first, pinned or not.
pub proof fn lemma_result_order(query: Seq<char>, items: Seq<ClipboardItem>, i: int, j: int)
    requires
        0 <= i < j < ranked(query, items).len(),
    ensures
        ranked(query, items)[j].is_pinned ==> ranked(query, items)[i].is_pinned,
        ranked(query, items)[i].is_pinned == ranked(query, items)[j].is_pinned
            && ranked(query, items)[j].is_favorite ==> ranked(query, items)[i].is_favorite,
        ranked(query, items)[i].is_pinned == ranked(query, items)[j].is_pinned
            && ranked(query, items)[i].is_favorite == ranked(query, items)[j].is_favorite
            ==> ranked(query, items)[i].last_used_at >= ranked(query, items)[j].last_used_at,
{
    lemma_ranked_results(query, items);
    let r = ranked(query, items);
    assert(!outranks(r[j], r[i]));
}

/// Whether `item` is shown for `needle`; see [`item_matches`].
fn matches_needle(needle: &[char], item: &ClipboardItem) -> (b: bool)
    ensures
        b == item_matches(needle@, *item),
{
    if item.deleted_at.is_some() {
        return false;
    }
    if needle.len() == 0 {
        return true;
    }
    let plain = match &item.payload.text_plain {
        Some(t) => to_lowercase(t.as_str()),
        None => to_lowercase(""),
    };
    proof {
        if item.payload.text_plain is None {
            assert(""@ =~= Seq::<char>::empty()) by {
                reveal_strlit("");
            }
        }
    }
    let plain_chars = chars_of(plain.as_str());
    if contains_chars(&plain_chars, needle) {
        return true;
    }
    let html = match &item.payload.text_html {
        Some(t) => to_lowercase(t.as_str()),
        None => to_lowercase(""),
    };
    proof {
        if item.payload.text_html is None {
            assert(""@ =~= Seq::<char>::empty()) by {
                reveal_strlit("");
            }
        }
    }
    let html_chars = chars_of(html.as_str());
    contains_chars(&html_chars, needle)
}

/// Where `item` goes in the ranked list `list`.
fn rank_insert_position(list: &Vec<ClipboardItem>, item: &ClipboardItem) -> (j: usize)
    ensures
        rank_position(list@, *item, j as int),
{
    let mut j: usize = 0;
    while j < list.len()
        invariant
            j <= list.len(),
            forall|k: int| 0 <= k < j ==> !outranks(*item, #[trigger] list@[k]),
        decreases list.len() - j,
    {
        let other = &list[j];
        let before = (item.is_pinned && !other.is_pinned) || (item.is_pinned == other.is_pinned
            && item.is_favorite && !other.is_favorite) || (item.is_pinned == other.is_pinned
            && item.is_favorite == other.is_favorite && item.last_used_at > other.last_used_at);
        if before {
            return j;
        }
        j = j + 1;
    }
    j
}

/// The items shown for `query`: those not deleted whose plain text or HTML
/// contains the trimmed, lower-cased query (all of them for an empty
/// query), pinned first, then favorites, then most recently used.
pub fn rank_items(query: &str, items: Vec<ClipboardItem>) -> (result: Vec<ClipboardItem>)
    ensures
        result@ == ranked(query@, items@),
        trim(query@).len() == 0 ==> result@ == sort_ranked(
            items@.filter(|it: ClipboardItem| it.deleted_at is None),
        ),
{
    let query_chars = chars_of(query);
    let trimmed_query = trimmed(&query_chars);
    let trimmed_text = string_of(&trimmed_query);
    let lowered = to_lowercase(trimmed_text.as_str());
    let needle = chars_of(lowered.as_str());
    proof {
        if trim(query@).len() == 0 {
            let p1 = |it: ClipboardItem| item_matches(search_needle(query@), it);
            let p2 = |it: ClipboardItem| it.deleted_at is None;
            assert(p1 =~= p2);
        }
    }
    let ghost pred = |it: ClipboardItem| item_matches(search_needle(query@), it);
    let ghost all = items@;
    let mut result: Vec<ClipboardItem> = Vec::new();
    proof {
        reveal(Seq::filter);
        assert(all.take(0) =~= Seq::<ClipboardItem>::empty());
    }
    for item in it: items
        invariant
            it.seq() == all,
            needle@ == search_needle(query@),
            pred == (|it: ClipboardItem| item_matches(search_needle(query@), it)),
            result@ == sort_ranked(all.take(it.index() as int).filter(pred)),
    {
        let ghost k = it.index() as int;
        proof {
            reveal(Seq::filter);
            assert(all.take(k + 1).drop_last() =~= all.take(k));
            assert(all.take(k + 1).last() == item);
        }
        if matches_needle(&needle, &item) {
            let pos = rank_insert_position(&result, &item);
            proof {
                lemma_insert_ranked_at(result@, item, pos as int);
            }
            let ghost before = result@;
            result.insert(pos, item);
            proof {
                assert(result@ =~= before.take(pos as int) + seq![item] + before.skip(pos as int));
                let f = all.take(k + 1).filter(pred);
                assert(f == all.take(k).filter(pred).push(item));
                assert(f.drop_last() =~= all.take(k).filter(pred));
            }
        }
    }
    proof {
        assert(all.take(all.len() as int) =~= all);
    }
    result
}

} // verus!
