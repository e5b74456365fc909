//! What orders and histograms of texts promise.

use vstd::prelude::*;

use crate::collections::{
    before, entry_keys, is_tally, lemma_ascending_has_no_duplicates, occurrences,
};

verus! {

/// Texts are ordered by the first character in which they differ; a text stands
/// before its continuations.
pub proof fn law_order_goes_by_the_first_difference(
    common: Seq<char>,
    left: Seq<char>,
    right: Seq<char>,
)
    ensures
        left.len() > 0 && right.len() > 0 && left[0] != right[0] ==> (before(common + left, common + right)
            <==> left[0] < right[0]),
        right.len() > 0 ==> before(common, common + right),
        !before(common + left, common),
    decreases common.len(),
{
    if common.len() == 0 {
        assert(common + left =~= left);
        assert(common + right =~= right);
    } else {
        let rest = common.skip(1);
        law_order_goes_by_the_first_difference(rest, left, right);
        assert((common + left).skip(1) =~= rest + left);
        assert((common + right).skip(1) =~= rest + right);
        assert((common + left)[0] == common[0]);
        assert((common + right)[0] == common[0]);
    }
}

/// At how many places of a list a text stands.
pub open spec fn places(texts: Seq<Seq<char>>, text: Seq<char>) -> nat {
    texts.filter(|it: Seq<char>| it == text).len()
}

/// Occurrences are the places at which the text stands.
pub proof fn law_occurrences_are_places(texts: Seq<Seq<char>>, text: Seq<char>)
    ensures
        occurrences(texts, text) == places(texts, text),
        occurrences(texts, text) > 0 <==> texts.contains(text),
    decreases texts.len(),
{
    reveal(Seq::filter);
    if texts.len() > 0 {
        let front = texts.drop_last();
        law_occurrences_are_places(front, text);
        if texts.last() == text {
            assert(texts[texts.len() - 1] == text);
        }
        if front.contains(text) {
            let i = choose|i: int| 0 <= i < front.len() && front[i] == text;
            assert(texts[i] == text);
        }
        if texts.contains(text) && texts.last() != text {
            let i = choose|i: int| 0 <= i < texts.len() && texts[i] == text;
            assert(front[i] == text);
        }
    }
}

/// How often the keys occur, all together.
pub open spec fn total_of_keys(keys: Seq<Seq<char>>, texts: Seq<Seq<char>>) -> nat
    decreases keys.len(),
{
    if keys.len() == 0 {
        0
    } else {
        total_of_keys(keys.drop_last(), texts) + occurrences(texts, keys.last())
    }
}

/// One more text counts once where it is a key, and not otherwise.
proof fn lemma_total_grows(keys: Seq<Seq<char>>, texts: Seq<Seq<char>>)
    requires
        texts.len() > 0,
        keys.no_duplicates(),
    ensures
        total_of_keys(keys, texts) == total_of_keys(keys, texts.drop_last()) + if keys.contains(
            texts.last(),
        ) {
            1nat
        } else {
            0
        },
    decreases keys.len(),
{
    if keys.len() > 0 {
        let front = keys.drop_last();
        let text = texts.last();
        assert(front.no_duplicates());
        lemma_total_grows(front, texts);
        if front.contains(text) {
            let i = choose|i: int| 0 <= i < front.len() && front[i] == text;
            assert(keys[i] == text);
            assert(keys[keys.len() - 1] != keys[i]);
        } else if keys.contains(text) {
            let i = choose|i: int| 0 <= i < keys.len() && keys[i] == text;
            if i < front.len() {
                assert(front[i] == text);
            }
            assert(keys.last() == text);
        }
        if keys.last() == text {
            assert(keys[keys.len() - 1] == text);
        }
    }
}

/// With every text among the keys, the keys' occurrences are all the texts.
proof fn lemma_total_is_all(keys: Seq<Seq<char>>, texts: Seq<Seq<char>>)
    requires
        keys.no_duplicates(),
        forall|i: int| 0 <= i < texts.len() ==> keys.contains(#[trigger] texts[i]),
    ensures
        total_of_keys(keys, texts) == texts.len(),
    decreases texts.len(),
{
    if texts.len() == 0 {
        lemma_total_of_nothing(keys, texts);
    } else {
        let front = texts.drop_last();
        assert forall|i: int| 0 <= i < front.len() implies keys.contains(#[trigger] front[i]) by {
            assert(front[i] == texts[i]);
        }
        lemma_total_is_all(keys, front);
        assert(keys.contains(texts[texts.len() - 1]));
        lemma_total_grows(keys, texts);
    }
}

/// Nothing occurs in an empty list.
proof fn lemma_total_of_nothing(keys: Seq<Seq<char>>, texts: Seq<Seq<char>>)
    requires
        texts.len() == 0,
    ensures
        total_of_keys(keys, texts) == 0,
    decreases keys.len(),
{
    if keys.len() > 0 {
        lemma_total_of_nothing(keys.drop_last(), texts);
    }
}

/// The counts of a histogram, added up.
pub open spec fn sum_of_counts(entries: Seq<(String, u32)>) -> nat
    decreases entries.len(),
{
    if entries.len() == 0 {
        0
    } else {
        sum_of_counts(entries.drop_last()) + entries.last().1 as nat
    }
}

/// Counts that tell the occurrences add up as those do.
proof fn lemma_sum_is_total(entries: Seq<(String, u32)>, texts: Seq<Seq<char>>)
    requires
        forall|i: int|
            0 <= i < entries.len() ==> (#[trigger] entries[i]).1 == occurrences(texts, entries[i].0@),
    ensures
        sum_of_counts(entries) == total_of_keys(entry_keys(entries), texts),
    decreases entries.len(),
{
    if entries.len() > 0 {
        let front = entries.drop_last();
        assert forall|i: int| 0 <= i < front.len() implies (#[trigger] front[i]).1 == occurrences(
            texts,
            front[i].0@,
        ) by {
            assert(front[i] == entries[i]);
        }
        lemma_sum_is_total(front, texts);
        assert(entry_keys(entries).drop_last() =~= entry_keys(front));
        assert(entries[entries.len() - 1].1 == occurrences(texts, entries.last().0@));
        assert(entry_keys(entries).last() == entries.last().0@);
    }
}

/// A text never occurs more often than there are texts.
proof fn lemma_occurrences_bound(texts: Seq<Seq<char>>, text: Seq<char>)
    ensures
        occurrences(texts, text) <= texts.len(),
    decreases texts.len(),
{
    if texts.len() > 0 {
        lemma_occurrences_bound(texts.drop_last(), text);
    }
}

/// A histogram counts every text once: each text has one entry, each entry counts
/// the places of its text, and the counts add up to the number of texts.
pub proof fn law_a_histogram_counts_every_text_once(
    entries: Seq<(String, u32)>,
    texts: Seq<Seq<char>>,
)
    requires
        is_tally(entries, texts),
        texts.len() <= u32::MAX,
    ensures
        sum_of_counts(entries) == texts.len(),
        forall|i: int|
            0 <= i < texts.len() ==> exists|k: int|
                0 <= k < entries.len() && (#[trigger] entries[k]).0@ == #[trigger] texts[i],
        forall|k: int, l: int|
            0 <= k < l < entries.len() ==> (#[trigger] entries[k]).0@ != (#[trigger] entries[l]).0@,
        forall|k: int|
            0 <= k < entries.len() ==> (#[trigger] entries[k]).1 == places(
                texts,
                entries[k].0@,
            ) && entries[k].1 > 0,
{
    let keys = entry_keys(entries);
    lemma_ascending_has_no_duplicates(keys);
    assert forall|i: int| 0 <= i < texts.len() implies keys.contains(#[trigger] texts[i]) && exists|
        k: int,
    |
        0 <= k < entries.len() && (#[trigger] entries[k]).0@ == texts[i] by {
        law_occurrences_are_places(texts, texts[i]);
        assert(texts.contains(texts[i]));
        assert(occurrences(texts, texts[i]) > 0);
        let k = choose|k: int| 0 <= k < keys.len() && keys[k] == texts[i];
        assert(entries[k].0@ == keys[k]);
    }
    assert forall|k: int| 0 <= k < entries.len() implies (#[trigger] entries[k]).1 == occurrences(
        texts,
        entries[k].0@,
    ) by {
        lemma_occurrences_bound(texts, entries[k].0@);
    }
    assert forall|k: int| 0 <= k < entries.len() implies (#[trigger] entries[k]).1 == places(
        texts,
        entries[k].0@,
    ) && entries[k].1 > 0 by {
        law_occurrences_are_places(texts, entries[k].0@);
    }
    assert forall|k: int, l: int| 0 <= k < l < entries.len() implies (#[trigger] entries[k]).0@ != (
    #[trigger] entries[l]).0@ by {
        assert(keys[k] != keys[l]);
    }
    lemma_total_is_all(keys, texts);
    lemma_sum_is_total(entries, texts);
}

} // verus!
