//! A map from text to text that is kept in the order of its keys.
use vstd::prelude::*;
use crate::text::{lemma_before_asymmetric, lemma_before_total, lemma_before_transitive, text_before, text_is_before, same_text};
use crate::values::{append, empty_list, Agree, Replicate};

verus! {

pub type TextPair = (Seq<char>, Seq<char>);

/// The map that holds each pair of a sequence; of two pairs with one key the later one counts.
pub open spec fn map_of(pairs: Seq<TextPair>) -> Map<Seq<char>, Seq<char>>
    decreases pairs.len(),
{
    if pairs.len() == 0 {
        Map::empty()
    } else {
        map_of(pairs.drop_last()).insert(pairs.last().0, pairs.last().1)
    }
}

/// The keys stand in strictly ascending order.
pub open spec fn keys_ascend(pairs: Seq<TextPair>) -> bool {
    forall|i: int, j: int|
        0 <= i < j < pairs.len() ==> #[trigger] text_before(pairs[i].0, pairs[j].0)
}

/// The pairs of a map in ascending order of their keys.
pub open spec fn ordered(map: Map<Seq<char>, Seq<char>>) -> Seq<TextPair> {
    choose|pairs: Seq<TextPair>| #[trigger] keys_ascend(pairs) && map_of(pairs) == map
}

/// What `map_of` holds where no key stands twice.
pub proof fn lemma_map_of(pairs: Seq<TextPair>)
    requires
        keys_ascend(pairs),
    ensures
        forall|i: int|
            0 <= i < pairs.len() ==> map_of(pairs).contains_key(#[trigger] pairs[i].0)
                && map_of(pairs)[pairs[i].0] == pairs[i].1,
        forall|key: Seq<char>| #[trigger]
            map_of(pairs).contains_key(key) ==> exists|i: int|
                0 <= i < pairs.len() && #[trigger] pairs[i].0 == key,
    decreases pairs.len(),
{
    if pairs.len() > 0 {
        let front = pairs.drop_last();
        assert(keys_ascend(front)) by {
            assert forall|i: int, j: int| 0 <= i < j < front.len() implies #[trigger] text_before(
                front[i].0,
                front[j].0,
            ) by {
                assert(text_before(pairs[i].0, pairs[j].0));
            }
        }
        lemma_map_of(front);
        assert forall|i: int| 0 <= i < pairs.len() implies map_of(pairs).contains_key(
            #[trigger] pairs[i].0,
        ) && map_of(pairs)[pairs[i].0] == pairs[i].1 by {
            if i < pairs.len() - 1 {
                assert(text_before(pairs[i].0, pairs[pairs.len() - 1].0));
                lemma_before_asymmetric(pairs[i].0, pairs[pairs.len() - 1].0);
                assert(front[i] == pairs[i]);
            }
        }
        assert forall|key: Seq<char>| #[trigger]
            map_of(pairs).contains_key(key) implies exists|i: int|
            0 <= i < pairs.len() && #[trigger] pairs[i].0 == key by {
            if key == pairs.last().0 {
                assert(pairs[pairs.len() - 1].0 == key);
            } else {
                assert(map_of(front).contains_key(key));
                let i = choose|i: int| 0 <= i < front.len() && #[trigger] front[i].0 == key;
                assert(pairs[i].0 == key);
            }
        }
    }
}

/// What a map of pairs holds under a key is one of the pairs.
pub proof fn lemma_map_of_holds(pairs: Seq<TextPair>, key: Seq<char>)
    ensures
        map_of(pairs).contains_key(key) ==> exists|i: int|
            0 <= i < pairs.len() && #[trigger] pairs[i] == (key, map_of(pairs)[key]),
    decreases pairs.len(),
{
    if pairs.len() > 0 {
        let front = pairs.drop_last();
        lemma_map_of_holds(front, key);
        if map_of(pairs).contains_key(key) {
            if pairs.last().0 == key {
                assert(pairs[pairs.len() - 1] == (key, map_of(pairs)[key]));
            } else {
                let i = choose|i: int|
                    0 <= i < front.len() && #[trigger] front[i] == (key, map_of(front)[key]);
                assert(pairs[i] == (key, map_of(pairs)[key]));
            }
        }
    }
}

/// Two ascending sequences that hold the same map are equal.
pub proof fn lemma_ascending_unique(a: Seq<TextPair>, b: Seq<TextPair>)
    requires
        keys_ascend(a),
        keys_ascend(b),
        map_of(a) == map_of(b),
    ensures
        a == b,
    decreases a.len(),
{
    lemma_map_of(a);
    lemma_map_of(b);
    if a.len() == 0 {
        if b.len() > 0 {
            assert(map_of(b).contains_key(b[0].0));
        }
        assert(a =~= b);
    } else {
        assert(map_of(a).contains_key(a[0].0));
        assert(b.len() > 0);
        let last_a = a.last().0;
        let last_b = b.last().0;
        assert(map_of(b).contains_key(a[a.len() - 1].0));
        assert(map_of(a).contains_key(b[b.len() - 1].0));
        let i = choose|i: int| 0 <= i < b.len() && #[trigger] b[i].0 == last_a;
        let j = choose|j: int| 0 <= j < a.len() && #[trigger] a[j].0 == last_b;
        if i < b.len() - 1 {
            assert(text_before(b[i].0, b[b.len() - 1].0));
            lemma_before_asymmetric(last_a, last_b);
            if j < a.len() - 1 {
                assert(text_before(a[j].0, a[a.len() - 1].0));
            }
        }
        assert(last_a == last_b);
        assert(map_of(a)[a[a.len() - 1].0] == a.last().1);
        assert(map_of(b)[b[b.len() - 1].0] == b.last().1);
        assert(a.last() == b.last());
        let fa = a.drop_last();
        let fb = b.drop_last();
        assert(keys_ascend(fa)) by {
            assert forall|x: int, y: int| 0 <= x < y < fa.len() implies #[trigger] text_before(
                fa[x].0,
                fa[y].0,
            ) by {
                assert(text_before(a[x].0, a[y].0));
            }
        }
        assert(keys_ascend(fb)) by {
            assert forall|x: int, y: int| 0 <= x < y < fb.len() implies #[trigger] text_before(
                fb[x].0,
                fb[y].0,
            ) by {
                assert(text_before(b[x].0, b[y].0));
            }
        }
        lemma_map_of(fa);
        lemma_map_of(fb);
        assert(!map_of(fa).contains_key(last_a)) by {
            if map_of(fa).contains_key(last_a) {
                let x = choose|x: int| 0 <= x < fa.len() && #[trigger] fa[x].0 == last_a;
                assert(text_before(a[x].0, a[a.len() - 1].0));
                lemma_before_asymmetric(a[x].0, a[a.len() - 1].0);
            }
        }
        assert(!map_of(fb).contains_key(last_a)) by {
            if map_of(fb).contains_key(last_a) {
                let x = choose|x: int| 0 <= x < fb.len() && #[trigger] fb[x].0 == last_a;
                assert(text_before(b[x].0, b[b.len() - 1].0));
                lemma_before_asymmetric(b[x].0, b[b.len() - 1].0);
            }
        }
        assert(map_of(fa) =~= map_of(a).remove(last_a));
        assert(map_of(fb) =~= map_of(b).remove(last_b));
        lemma_ascending_unique(fa, fb);
        assert(a =~= fa.push(a.last()));
        assert(b =~= fb.push(b.last()));
    }
}

/// An ascending sequence is the order of the map that it holds.
pub proof fn lemma_ordered(pairs: Seq<TextPair>)
    requires
        keys_ascend(pairs),
    ensures
        ordered(map_of(pairs)) == pairs,
{
    let other = ordered(map_of(pairs));
    assert(keys_ascend(other) && map_of(other) == map_of(pairs));
    lemma_ascending_unique(pairs, other);
}

/// An ascending sequence takes in one more key, and stays ascending.
proof fn lemma_ordered_insert(pairs: Seq<TextPair>, key: Seq<char>, value: Seq<char>) -> (r: Seq<
    TextPair,
>)
    requires
        keys_ascend(pairs),
        !map_of(pairs).contains_key(key),
    ensures
        keys_ascend(r),
        map_of(r) == map_of(pairs).insert(key, value),
    decreases pairs.len(),
{
    lemma_map_of(pairs);
    if pairs.len() == 0 || text_before(pairs.last().0, key) {
        let r = pairs.push((key, value));
        assert(r.drop_last() =~= pairs);
        assert forall|i: int, j: int| 0 <= i < j < r.len() implies #[trigger] text_before(
            r[i].0,
            r[j].0,
        ) by {
            if j < pairs.len() {
                assert(text_before(pairs[i].0, pairs[j].0));
            } else if i < pairs.len() - 1 {
                assert(text_before(pairs[i].0, pairs[pairs.len() - 1].0));
                lemma_before_transitive(pairs[i].0, pairs.last().0, key);
            }
        }
        r
    } else {
        let last = pairs.last();
        assert(map_of(pairs).contains_key(pairs[pairs.len() - 1].0));
        lemma_before_total(last.0, key);
        let front = pairs.drop_last();
        assert(keys_ascend(front)) by {
            assert forall|i: int, j: int| 0 <= i < j < front.len() implies #[trigger] text_before(
                front[i].0,
                front[j].0,
            ) by {
                assert(text_before(pairs[i].0, pairs[j].0));
            }
        }
        let earlier = lemma_ordered_insert(front, key, value);
        lemma_map_of(front);
        lemma_map_of(earlier);
        let r = earlier.push(last);
        assert(r.drop_last() =~= earlier);
        assert(map_of(r) =~= map_of(pairs).insert(key, value));
        assert forall|i: int, j: int| 0 <= i < j < r.len() implies #[trigger] text_before(
            r[i].0,
            r[j].0,
        ) by {
            if j < earlier.len() {
                assert(text_before(earlier[i].0, earlier[j].0));
            } else {
                assert(map_of(earlier).contains_key(earlier[i].0));
                if earlier[i].0 != key {
                    let k = choose|k: int|
                        0 <= k < front.len() && #[trigger] front[k].0 == earlier[i].0;
                    assert(text_before(pairs[k].0, pairs[pairs.len() - 1].0));
                }
            }
        }
        r
    }
}

/// Every finite map has an order: its pairs, with their keys in strictly ascending order.
pub proof fn law_ordered(map: Map<Seq<char>, Seq<char>>)
    requires
        map.dom().finite(),
    ensures
        keys_ascend(ordered(map)),
        map_of(ordered(map)) == map,
    decreases map.dom().len(),
{
    if map.dom().len() == 0 {
        let none = Seq::<TextPair>::empty();
        assert(map =~= Map::empty());
        assert(keys_ascend(none) && map_of(none) == map);
    } else {
        let key = map.dom().choose();
        let others = map.remove(key);
        assert(others.dom() =~= map.dom().remove(key));
        law_ordered(others);
        let pairs = lemma_ordered_insert(ordered(others), key, map[key]);
        assert(others.insert(key, map[key]) =~= map);
        assert(keys_ascend(pairs) && map_of(pairs) == map);
    }
}

/// What a sequence of pairs holds is finite, so that it has an order.
pub proof fn law_pairs_have_an_order(pairs: Seq<TextPair>)
    ensures
        map_of(pairs).dom().finite(),
        keys_ascend(ordered(map_of(pairs))),
        map_of(ordered(map_of(pairs))) == map_of(pairs),
    decreases pairs.len(),
{
    if pairs.len() > 0 {
        law_pairs_have_an_order(pairs.drop_last());
    }
    law_ordered(map_of(pairs));
}

/// `text` put into an ascending sequence, behind what does not come after it.
pub open spec fn with_text(texts: Seq<Seq<char>>, text: Seq<char>) -> Seq<Seq<char>>
    decreases texts.len(),
{
    if texts.len() > 0 && text_before(text, texts.last()) {
        with_text(texts.drop_last(), text).push(texts.last())
    } else {
        texts.push(text)
    }
}

/// The texts in ascending order.
pub open spec fn sorted(texts: Seq<Seq<char>>) -> Seq<Seq<char>>
    decreases texts.len(),
{
    if texts.len() == 0 {
        Seq::empty()
    } else {
        with_text(sorted(texts.drop_last()), texts.last())
    }
}

/// No text comes before one that stands in front of it.
pub open spec fn ascends(texts: Seq<Seq<char>>) -> bool {
    forall|i: int, j: int| 0 <= i < j < texts.len() ==> !#[trigger] text_before(texts[j], texts[i])
}

proof fn lemma_with_text(texts: Seq<Seq<char>>, text: Seq<char>)
    requires
        ascends(texts),
    ensures
        ascends(with_text(texts, text)),
        with_text(texts, text).to_multiset() == texts.to_multiset().insert(text),
        with_text(texts, text).len() == texts.len() + 1,
    decreases texts.len(),
{
    broadcast use vstd::seq_lib::group_to_multiset_ensures;

    if texts.len() > 0 && text_before(text, texts.last()) {
        let front = texts.drop_last();
        let rest = with_text(front, text);
        assert(ascends(front)) by {
            assert forall|i: int, j: int| 0 <= i < j < front.len() implies !#[trigger] text_before(
                front[j],
                front[i],
            ) by {
                assert(!text_before(texts[j], texts[i]));
            }
        }
        lemma_with_text(front, text);
        let r = with_text(texts, text);
        assert forall|i: int, j: int| 0 <= i < j < r.len() implies !#[trigger] text_before(
            r[j],
            r[i],
        ) by {
            if j == r.len() - 1 {
                if text_before(texts.last(), rest[i]) {
                    assert(rest.to_multiset().count(rest[i]) > 0) by {
                        assert(rest.contains(rest[i]));
                    }
                    if rest[i] == text {
                        lemma_before_asymmetric(text, texts.last());
                    } else {
                        assert(front.to_multiset().count(rest[i]) > 0);
                        assert(front.contains(rest[i]));
                        let k = choose|k: int| 0 <= k < front.len() && front[k] == rest[i];
                        assert(!text_before(texts[texts.len() - 1], texts[k]));
                    }
                }
            } else {
                assert(!text_before(rest[j], rest[i]));
            }
        }
        assert(texts =~= front.push(texts.last()));
        assert(r.to_multiset() =~= texts.to_multiset().insert(text));
    } else {
        let r = texts.push(text);
        assert forall|i: int, j: int| 0 <= i < j < r.len() implies !#[trigger] text_before(
            r[j],
            r[i],
        ) by {
            if j == r.len() - 1 {
                if text_before(text, texts[i]) {
                    if i < texts.len() - 1 {
                        assert(!text_before(texts[texts.len() - 1], texts[i]));
                        lemma_before_total(texts[i], texts.last());
                        if text_before(texts[i], texts.last()) {
                            lemma_before_transitive(text, texts[i], texts.last());
                        }
                    }
                }
            } else {
                assert(!text_before(texts[j], texts[i]));
            }
        }
    }
}

/// Sorting keeps every text as often as it occurs and puts them in ascending order.
pub proof fn law_sorted(texts: Seq<Seq<char>>)
    ensures
        ascends(sorted(texts)),
        sorted(texts).to_multiset() == texts.to_multiset(),
        sorted(texts).len() == texts.len(),
    decreases texts.len(),
{
    broadcast use vstd::seq_lib::group_to_multiset_ensures;

    if texts.len() > 0 {
        law_sorted(texts.drop_last());
        lemma_with_text(sorted(texts.drop_last()), texts.last());
        assert(texts =~= texts.drop_last().push(texts.last()));
    } else {
        assert(texts =~= Seq::empty());
    }
}

/// Two ascending sequences of the same texts are equal.
pub proof fn lemma_ascending_texts_unique(a: Seq<Seq<char>>, b: Seq<Seq<char>>)
    requires
        ascends(a),
        ascends(b),
        a.to_multiset() == b.to_multiset(),
    ensures
        a == b,
    decreases a.len(),
{
    broadcast use vstd::seq_lib::group_to_multiset_ensures;

    vstd::seq_lib::to_multiset_len(a);
    vstd::seq_lib::to_multiset_len(b);
    if a.len() == 0 {
        assert(a =~= b);
    } else {
        assert(a.contains(a.last()));
        assert(b.contains(b.last()));
        assert(b.to_multiset().count(a.last()) > 0);
        assert(a.to_multiset().count(b.last()) > 0);
        assert(b.contains(a.last()));
        assert(a.contains(b.last()));
        let i = choose|i: int| 0 <= i < b.len() && b[i] == a.last();
        let j = choose|j: int| 0 <= j < a.len() && a[j] == b.last();
        lemma_before_total(a.last(), b.last());
        if i < b.len() - 1 {
            assert(!text_before(b[b.len() - 1], b[i]));
        }
        if j < a.len() - 1 {
            assert(!text_before(a[a.len() - 1], a[j]));
        }
        assert(a.last() == b.last());
        let fa = a.drop_last();
        let fb = b.drop_last();
        assert(ascends(fa)) by {
            assert forall|x: int, y: int| 0 <= x < y < fa.len() implies !#[trigger] text_before(
                fa[y],
                fa[x],
            ) by {
                assert(!text_before(a[y], a[x]));
            }
        }
        assert(ascends(fb)) by {
            assert forall|x: int, y: int| 0 <= x < y < fb.len() implies !#[trigger] text_before(
                fb[y],
                fb[x],
            ) by {
                assert(!text_before(b[y], b[x]));
            }
        }
        assert(a =~= fa.push(a.last()));
        assert(b =~= fb.push(b.last()));
        assert(fa.to_multiset() =~= a.to_multiset().remove(a.last()));
        assert(fb.to_multiset() =~= b.to_multiset().remove(b.last()));
        lemma_ascending_texts_unique(fa, fb);
    }
}

/// Sorting two lists of the same texts gives the same list, whatever their order was.
pub proof fn law_sorting_ignores_order(a: Seq<Seq<char>>, b: Seq<Seq<char>>)
    requires
        a.to_multiset() == b.to_multiset(),
    ensures
        sorted(a) == sorted(b),
{
    law_sorted(a);
    law_sorted(b);
    lemma_ascending_texts_unique(sorted(a), sorted(b));
}

/// `text` put into an ascending list, behind what does not come after it.
pub fn put_text(texts: Vec<String>, text: String) -> (r: Vec<String>)
    ensures
        r.deep_view() == with_text(texts.deep_view(), text@),
    decreases texts@.len(),
{
    let mut front = texts;
    let ghost all = texts.deep_view();
    match front.pop() {
        None => {
            let mut r: Vec<String> = empty_list();
            append(&mut r, text);
            assert(all =~= Seq::empty());
            r
        },
        Some(last) => {
            assert(front.deep_view() =~= all.drop_last());
            assert(all.last() == last@);
            if text_is_before(text.as_str(), last.as_str()) {
                let mut r = put_text(front, text);
                append(&mut r, last);
                r
            } else {
                append(&mut front, last);
                assert(front.deep_view() =~= all);
                append(&mut front, text);
                front
            }
        },
    }
}

/// The texts in ascending order.
pub fn sort_texts(texts: &Vec<String>) -> (r: Vec<String>)
    ensures
        r.deep_view() == sorted(texts.deep_view()),
{
    let mut r: Vec<String> = empty_list();
    let mut i: usize = 0;
    let ghost all = texts.deep_view();
    assert(all.take(0) =~= Seq::<Seq<char>>::empty());
    while i < texts.len()
        invariant
            i <= texts@.len(),
            all == texts.deep_view(),
            r.deep_view() == sorted(all.take(i as int)),
        decreases texts@.len() - i,
    {
        assert(all.take(i as int + 1).drop_last() =~= all.take(i as int));
        assert(all[i as int] == texts@[i as int]@);
        r = put_text(r, texts[i].clone());
        i = i + 1;
    }
    assert(all.take(i as int) =~= all);
    r
}

/// The texts in ascending order, each once.
pub open spec fn sorted_set(texts: Seq<Seq<char>>) -> Seq<Seq<char>>
    decreases texts.len(),
{
    if texts.len() == 0 {
        Seq::empty()
    } else {
        let earlier = sorted_set(texts.drop_last());
        if earlier.contains(texts.last()) {
            earlier
        } else {
            with_text(earlier, texts.last())
        }
    }
}

/// Each text comes before those that stand behind it.
pub open spec fn strictly_ascends(texts: Seq<Seq<char>>) -> bool {
    forall|i: int, j: int| 0 <= i < j < texts.len() ==> #[trigger] text_before(texts[i], texts[j])
}

/// A text that is not in the list yet is put in its place, and nothing else changes.
pub proof fn lemma_with_new_text(texts: Seq<Seq<char>>, text: Seq<char>)
    requires
        strictly_ascends(texts),
        !texts.contains(text),
    ensures
        strictly_ascends(with_text(texts, text)),
        forall|other: Seq<char>| #[trigger]
            with_text(texts, text).contains(other) <==> texts.contains(other) || other == text,
{
    broadcast use vstd::seq_lib::group_to_multiset_ensures;

    let all = with_text(texts, text);
    assert(ascends(texts)) by {
        assert forall|i: int, j: int| 0 <= i < j < texts.len() implies !#[trigger] text_before(
            texts[j],
            texts[i],
        ) by {
            assert(text_before(texts[i], texts[j]));
            lemma_before_asymmetric(texts[i], texts[j]);
        }
    }
    assert(texts.no_duplicates()) by {
        assert forall|i: int, j: int| 0 <= i < j < texts.len() implies texts[i] != texts[j] by {
            assert(text_before(texts[i], texts[j]));
            lemma_before_asymmetric(texts[i], texts[j]);
        }
    }
    lemma_with_text(texts, text);
    assert(all.to_multiset() == texts.push(text).to_multiset());
    texts.lemma_multiset_has_no_duplicates();
    assert(texts.push(text).no_duplicates());
    texts.push(text).lemma_multiset_has_no_duplicates();
    all.lemma_multiset_has_no_duplicates_conv();
    assert forall|other: Seq<char>| #[trigger] all.contains(other) <==> texts.contains(other)
        || other == text by {
        assert(all.contains(other) <==> all.to_multiset().count(other) > 0);
        assert(texts.push(text).contains(other) <==> texts.push(text).to_multiset().count(other)
            > 0);
        lemma_push_contains(texts, text, other);
    }
    assert forall|i: int, j: int| 0 <= i < j < all.len() implies #[trigger] text_before(
        all[i],
        all[j],
    ) by {
        assert(!text_before(all[j], all[i]));
        assert(all[i] != all[j]);
        lemma_before_total(all[i], all[j]);
    }
}

/// A list in which each of the texts stands once, and nothing else, in ascending order.
pub proof fn law_sorted_set(texts: Seq<Seq<char>>)
    ensures
        strictly_ascends(sorted_set(texts)),
        forall|text: Seq<char>| #[trigger]
            sorted_set(texts).contains(text) <==> texts.contains(text),
    decreases texts.len(),
{
    if texts.len() > 0 {
        law_sorted_set(texts.drop_last());
        let earlier = sorted_set(texts.drop_last());
        let last = texts.last();
        assert(texts =~= texts.drop_last().push(last));
        if !earlier.contains(last) {
            lemma_with_new_text(earlier, last);
        }
        assert forall|text: Seq<char>| #[trigger] sorted_set(texts).contains(text)
            <==> texts.contains(text) by {
            lemma_push_contains(texts.drop_last(), last, text);
        }
    }
}

proof fn lemma_push_contains(texts: Seq<Seq<char>>, last: Seq<char>, text: Seq<char>)
    ensures
        texts.push(last).contains(text) <==> texts.contains(text) || text == last,
{
    let all = texts.push(last);
    if texts.contains(text) {
        let i = choose|i: int| 0 <= i < texts.len() && texts[i] == text;
        assert(all[i] == text);
    }
    if text == last {
        assert(all[texts.len() as int] == text);
    }
}

/// The list with one more text, where it is not there yet.
pub fn put_once(texts: Vec<String>, text: String) -> (r: Vec<String>)
    ensures
        r.deep_view() == (if texts.deep_view().contains(text@) {
            texts.deep_view()
        } else {
            with_text(texts.deep_view(), text@)
        }),
{
    if crate::values::list_holds(&texts, &text) {
        texts
    } else {
        put_text(texts, text)
    }
}

/// A map from text to text; its entries stand in ascending order of their keys.
#[derive(Debug, PartialEq, Eq)]
pub struct TextMap {
    entries: Vec<(String, String)>,
}

impl View for TextMap {
    type V = Map<Seq<char>, Seq<char>>;

    closed spec fn view(&self) -> Map<Seq<char>, Seq<char>> {
        map_of(self.entries.deep_view())
    }
}

impl DeepView for TextMap {
    type V = Map<Seq<char>, Seq<char>>;

    open spec fn deep_view(&self) -> Map<Seq<char>, Seq<char>> {
        self.view()
    }
}

impl TextMap {
    #[verifier::type_invariant]
    spec fn ascends(self) -> bool {
        keys_ascend(self.entries.deep_view())
    }

    /// A map without entries.
    pub fn new() -> (r: Self)
        ensures
            r@ == Map::<Seq<char>, Seq<char>>::empty(),
    {
        let entries: Vec<(String, String)> = Vec::new();
        assert(entries.deep_view() =~= Seq::<TextPair>::empty());
        TextMap { entries }
    }

    /// The number of keys that come before `key`.
    fn position(entries: &Vec<(String, String)>, key: &str) -> (r: usize)
        requires
            keys_ascend(entries.deep_view()),
        ensures
            r <= entries@.len(),
            forall|i: int| 0 <= i < r ==> text_before(#[trigger] entries.deep_view()[i].0, key@),
            forall|i: int|
                r <= i < entries@.len() ==> !text_before(
                    #[trigger] entries.deep_view()[i].0,
                    key@,
                ),
    {
        let mut i: usize = 0;
        let ghost pairs = entries.deep_view();
        while i < entries.len() && text_is_before(entries[i].0.as_str(), key)
            invariant
                i <= entries@.len(),
                pairs == entries.deep_view(),
                forall|k: int| 0 <= k < i ==> text_before(#[trigger] pairs[k].0, key@),
            decreases entries@.len() - i,
        {
            assert(pairs[i as int].0 == entries@[i as int].0@);
            i = i + 1;
        }
        if i < entries.len() {
            assert(pairs[i as int].0 == entries@[i as int].0@);
            assert forall|k: int| i <= k < entries@.len() implies !text_before(
                #[trigger] pairs[k].0,
                key@,
            ) by {
                if k > i && text_before(pairs[k].0, key@) {
                    assert(text_before(pairs[i as int].0, pairs[k].0));
                    lemma_before_transitive(pairs[i as int].0, pairs[k].0, key@);
                }
            }
        }
        i
    }

    /// The value under `key`.
    pub fn get(&self, key: &str) -> (r: Option<String>)
        ensures
            r.deep_view() == (if self@.contains_key(key@) {
                Some(self@[key@])
            } else {
                None
            }),
    {
        proof {
            use_type_invariant(self);
            lemma_map_of(self.entries.deep_view());
        }
        let ghost pairs = self.entries.deep_view();
        let mut i: usize = 0;
        while i < self.entries.len()
            invariant
                i <= self.entries@.len(),
                pairs == self.entries.deep_view(),
                self@ == map_of(pairs),
                forall|k: int| 0 <= k < i ==> (#[trigger] pairs[k]).0 != key@,
                forall|k: int|
                    0 <= k < pairs.len() ==> map_of(pairs).contains_key(#[trigger] pairs[k].0)
                        && map_of(pairs)[pairs[k].0] == pairs[k].1,
                forall|name: Seq<char>| #[trigger]
                    map_of(pairs).contains_key(name) ==> exists|k: int|
                        0 <= k < pairs.len() && #[trigger] pairs[k].0 == name,
            decreases self.entries@.len() - i,
        {
            assert(pairs[i as int].0 == self.entries@[i as int].0@);
            if same_text(self.entries[i].0.as_str(), key) {
                return Some(self.entries[i].1.clone());
            }
            i = i + 1;
        }
        None
    }

    /// Whether there is a value under `key`.
    pub fn contains_key(&self, key: &str) -> (r: bool)
        ensures
            r == self@.contains_key(key@),
    {
        self.get(key).is_some()
    }

    /// Puts `value` under `key`, in place of what stood there.
    pub fn insert(&mut self, key: String, value: String)
        ensures
            final(self)@ == old(self)@.insert(key@, value@),
    {
        proof {
            use_type_invariant(&*self);
        }
        let mut entries: Vec<(String, String)> = Vec::new();
        assert(entries.deep_view() =~= Seq::<TextPair>::empty());
        std::mem::swap(&mut entries, &mut self.entries);
        let ghost before = entries.deep_view();
        let ghost name = key@;
        let ghost text = value@;
        let at = Self::position(&entries, key.as_str());
        let replaces = at < entries.len() && same_text(entries[at].0.as_str(), key.as_str());
        proof {
            lemma_map_of(before);
        }
        if replaces {
            assert(before[at as int].0 == name);
            entries.set(at, (key, value));
            assert(entries.deep_view() =~= before.update(at as int, (name, text)));
        } else {
            entries.insert(at, (key, value));
            assert(entries.deep_view() =~= before.insert(at as int, (name, text)));
        }
        let ghost after = entries.deep_view();
        proof {
            assert(keys_ascend(after)) by {
                assert forall|i: int, j: int|
                    0 <= i < j < after.len() implies #[trigger] text_before(
                    after[i].0,
                    after[j].0,
                ) by {
                    if replaces {
                        assert(after[i].0 == before[i].0);
                        assert(after[j].0 == before[j].0);
                        assert(text_before(before[i].0, before[j].0));
                    } else {
                        let x = if i < at { i } else { i - 1 };
                        let y = if j < at { j } else { j - 1 };
                        if i == at {
                            lemma_before_total(before[y].0, name);
                            if before[y].0 == name {
                                if y > at {
                                    assert(text_before(before[at as int].0, before[y].0));
                                }
                                assert(before[at as int].0 == entries@[at + 1].0@);
                            }
                            assert(!text_before(before[y].0, name));
                        } else if j == at {
                            assert(text_before(before[x].0, name));
                        } else {
                            assert(text_before(before[x].0, before[y].0));
                        }
                    }
                }
            }
            lemma_map_of(after);
            assert(map_of(after) =~= map_of(before).insert(name, text)) by {
                assert forall|k: Seq<char>| map_of(after).contains_key(k) == (k == name || map_of(
                    before,
                ).contains_key(k)) by {
                    if map_of(after).contains_key(k) && k != name {
                        let i = choose|i: int| 0 <= i < after.len() && #[trigger] after[i].0 == k;
                        let x = if replaces || i < at { i } else { i - 1 };
                        assert(before[x] == after[i]);
                    }
                    if map_of(before).contains_key(k) {
                        let x = choose|x: int| 0 <= x < before.len() && #[trigger] before[x].0 == k;
                        let i = if replaces || x < at { x } else { x + 1 };
                        assert(after[i].0 == before[x].0);
                    }
                    if k == name {
                        assert(after[at as int].0 == name);
                    }
                }
                assert forall|k: Seq<char>| map_of(after).contains_key(k) implies map_of(after)[k]
                    == map_of(before).insert(name, text)[k] by {
                    let i = choose|i: int| 0 <= i < after.len() && #[trigger] after[i].0 == k;
                    if i == at {
                    } else {
                        let x = if replaces || i < at { i } else { i - 1 };
                        assert(before[x] == after[i]);
                        if k == name {
                            assert(after[at as int].0 == name);
                            if i < at {
                                assert(text_before(after[i].0, after[at as int].0));
                                lemma_before_asymmetric(after[i].0, after[at as int].0);
                            } else {
                                assert(text_before(after[at as int].0, after[i].0));
                                lemma_before_asymmetric(after[at as int].0, after[i].0);
                            }
                        }
                    }
                }
            }
        }
        self.entries = entries;
    }

    /// The entries in ascending order of their keys.
    pub fn entries(&self) -> (r: Vec<(String, String)>)
        ensures
            r.deep_view() == ordered(self@),
            keys_ascend(r.deep_view()),
            map_of(r.deep_view()) == self@,
    {
        proof {
            use_type_invariant(self);
            lemma_ordered(self.entries.deep_view());
        }
        self.entries.replicate()
    }

    /// Whether there are no entries.
    pub fn is_empty(&self) -> (r: bool)
        ensures
            r == (self@ == Map::<Seq<char>, Seq<char>>::empty()),
    {
        proof {
            use_type_invariant(self);
            lemma_map_of(self.entries.deep_view());
        }
        let r = self.entries.len() == 0;
        proof {
            if r {
                assert(self.entries.deep_view() =~= Seq::<TextPair>::empty());
            } else {
                assert(self@.contains_key(self.entries.deep_view()[0].0));
            }
        }
        r
    }

    /// The map of the pairs, where the later of two pairs with one key counts.
    pub fn from_pairs(pairs: &Vec<(String, String)>) -> (r: Self)
        ensures
            r@ == map_of(pairs.deep_view()),
    {
        let mut r = Self::new();
        let mut i: usize = 0;
        let ghost all = pairs.deep_view();
        assert(all.take(0) =~= Seq::<TextPair>::empty());
        while i < pairs.len()
            invariant
                i <= pairs@.len(),
                all == pairs.deep_view(),
                r@ == map_of(all.take(i as int)),
            decreases pairs@.len() - i,
        {
            assert(all[i as int] == (pairs@[i as int].0@, pairs@[i as int].1@));
            assert(all.take(i as int + 1).drop_last() =~= all.take(i as int));
            r.insert(pairs[i].0.clone(), pairs[i].1.clone());
            i = i + 1;
        }
        assert(all.take(i as int) =~= all);
        r
    }
}

impl Replicate for TextMap {
    fn replicate(&self) -> (r: Self) {
        proof {
            use_type_invariant(self);
        }
        TextMap { entries: self.entries.replicate() }
    }
}

impl Clone for TextMap {
    fn clone(&self) -> (r: Self)
        ensures
            r@ == self@,
    {
        self.replicate()
    }
}

impl Agree for TextMap {
    fn agrees(&self, other: &Self) -> (r: bool) {
        proof {
            use_type_invariant(self);
            use_type_invariant(other);
            if self@ == other@ {
                lemma_ascending_unique(self.entries.deep_view(), other.entries.deep_view());
            }
        }
        self.entries.agrees(&other.entries)
    }
}

} // verus!
