//! Ordered collections of texts, kept in vectors: a set without duplicates and
//! a histogram. Both hold their texts in the order of their code points.

use vstd::prelude::*;

use crate::text::{chars_of, views};

verus! {

/// Does `left` stand before `right` in the order of their code points?
pub open spec fn before(left: Seq<char>, right: Seq<char>) -> bool
    decreases left.len(),
{
    if right.len() == 0 {
        false
    } else if left.len() == 0 {
        true
    } else if left[0] == right[0] {
        before(left.skip(1), right.skip(1))
    } else {
        left[0] < right[0]
    }
}

/// The order is irreflexive.
pub proof fn lemma_before_irreflexive(text: Seq<char>)
    ensures
        !before(text, text),
    decreases text.len(),
{
    if text.len() > 0 {
        lemma_before_irreflexive(text.skip(1));
    }
}

/// The order is transitive.
pub proof fn lemma_before_transitive(a: Seq<char>, b: Seq<char>, c: Seq<char>)
    requires
        before(a, b),
        before(b, c),
    ensures
        before(a, c),
    decreases a.len(),
{
    if a.len() > 0 && b.len() > 0 && c.len() > 0 && a[0] == b[0] && b[0] == c[0] {
        lemma_before_transitive(a.skip(1), b.skip(1), c.skip(1));
    }
}

/// Of two different texts one stands before the other.
pub proof fn lemma_before_total(a: Seq<char>, b: Seq<char>)
    requires
        a != b,
    ensures
        before(a, b) || before(b, a),
    decreases a.len(),
{
    if a.len() == 0 {
        if b.len() == 0 {
            assert(a =~= b);
        }
    } else if b.len() > 0 && a[0] == b[0] {
        if a.skip(1) == b.skip(1) {
            assert(a =~= seq![a[0]] + a.skip(1));
            assert(b =~= seq![b[0]] + b.skip(1));
        }
        lemma_before_total(a.skip(1), b.skip(1));
    }
}

/// Every text stands before those that follow it.
pub open spec fn ascending(texts: Seq<Seq<char>>) -> bool {
    forall|i: int, j: int| 0 <= i < j < texts.len() ==> before(#[trigger] texts[i], #[trigger] texts[j])
}

/// An ascending sequence holds no text twice.
pub proof fn lemma_ascending_has_no_duplicates(texts: Seq<Seq<char>>)
    requires
        ascending(texts),
    ensures
        texts.no_duplicates(),
{
    assert forall|i: int, j: int| 0 <= i < texts.len() && 0 <= j < texts.len() && i != j implies #[trigger] texts[i]
        != #[trigger] texts[j] by {
        if texts[i] == texts[j] {
            lemma_before_irreflexive(texts[i]);
            if i < j {
                assert(before(texts[i], texts[j]));
            } else {
                assert(before(texts[j], texts[i]));
            }
        }
    }
}

/// Does `left` stand before `right`?
pub fn is_before(left: &str, right: &str) -> (less: bool)
    ensures
        less == before(left@, right@),
{
    let a = chars_of(left);
    let b = chars_of(right);
    let mut at: usize = 0;
    proof {
        assert(a@.skip(0) =~= a@);
        assert(b@.skip(0) =~= b@);
    }
    while at < a.len() && at < b.len() && a[at] == b[at]
        invariant
            at <= a@.len(),
            at <= b@.len(),
            before(a@, b@) == before(a@.skip(at as int), b@.skip(at as int)),
        decreases a@.len() - at,
    {
        proof {
            assert(a@.skip(at as int).skip(1) =~= a@.skip(at + 1));
            assert(b@.skip(at as int).skip(1) =~= b@.skip(at + 1));
        }
        at = at + 1;
    }
    at < b.len() && (at == a.len() || a[at] < b[at])
}

/// The place of `text` in an ascending list: everything left of it stands
/// before `text`, everything from it on does not.
pub open spec fn is_place(texts: Seq<Seq<char>>, text: Seq<char>, place: int) -> bool {
    &&& 0 <= place <= texts.len()
    &&& forall|i: int| 0 <= i < place ==> before(#[trigger] texts[i], text)
    &&& place < texts.len() ==> !before(texts[place], text)
}

proof fn lemma_place(texts: Seq<Seq<char>>, text: Seq<char>, place: int)
    requires
        ascending(texts),
        is_place(texts, text, place),
    ensures
        texts.contains(text) <==> place < texts.len() && texts[place] == text,
        !texts.contains(text) ==> ascending(texts.insert(place, text)),
        forall|i: int| place < i < texts.len() ==> before(text, #[trigger] texts[i]),
{
    assert forall|i: int| place < i < texts.len() implies before(text, #[trigger] texts[i]) by {
        assert(before(texts[place], texts[i]));
        if texts[place] != text {
            lemma_before_total(texts[place], text);
            lemma_before_transitive(text, texts[place], texts[i]);
        }
    }
    if texts.contains(text) {
        let at = choose|at: int| 0 <= at < texts.len() && texts[at] == text;
        lemma_before_irreflexive(text);
        assert(at == place);
    } else {
        let grown = texts.insert(place, text);
        assert forall|i: int, j: int| 0 <= i < j < grown.len() implies before(
            #[trigger] grown[i],
            #[trigger] grown[j],
        ) by {
            let left = if i < place { i } else { i - 1 };
            let right = if j < place { j } else { j - 1 };
            if i == place {
                if j == place + 1 {
                    assert(texts.contains(texts[place]));
                    lemma_before_total(texts[place], text);
                }
            } else if j != place {
                assert(before(texts[left], texts[right]));
            }
        }
    }
}

/// A set of texts, in order.
#[derive(Debug, PartialEq, Eq)]
pub struct TextSet {
    items: Vec<String>,
}

impl View for TextSet {
    type V = Set<Seq<char>>;

    closed spec fn view(&self) -> Set<Seq<char>> {
        views(self.items@).to_set()
    }
}

impl TextSet {
    /// The texts, from the first to the last.
    pub closed spec fn listed(&self) -> Seq<Seq<char>> {
        views(self.items@)
    }

    /// The texts are listed in order, and the set holds exactly those.
    pub closed spec fn wf(&self) -> bool {
        ascending(self.listed())
    }

    /// A well-formed set lists its texts, each once, in order.
    pub proof fn law_lists_each_text_once(&self)
        ensures
            self@ == self.listed().to_set(),
            self.wf() ==> ascending(self.listed()),
            self.wf() ==> self.listed().no_duplicates(),
    {
        if self.wf() {
            lemma_ascending_has_no_duplicates(self.listed());
        }
    }

    /// The empty set.
    pub fn new() -> (set: Self)
        ensures
            set.wf(),
            set@ == Set::<Seq<char>>::empty(),
            set.listed() == Seq::<Seq<char>>::empty(),
    {
        let set = TextSet { items: Vec::new() };
        proof {
            assert(set.listed() =~= Seq::<Seq<char>>::empty());
            assert(set@ =~= Set::<Seq<char>>::empty());
        }
        set
    }

    /// The number of texts.
    pub fn len(&self) -> (count: usize)
        ensures
            count == self.listed().len(),
    {
        self.items.len()
    }

    /// The text at a place of the list.
    pub fn get(&self, at: usize) -> (text: &String)
        requires
            at < self.listed().len(),
        ensures
            text@ == self.listed()[at as int],
    {
        &self.items[at]
    }

    /// The texts, from the first to the last.
    pub fn to_vec(&self) -> (texts: Vec<String>)
        ensures
            views(texts@) == self.listed(),
    {
        let mut texts: Vec<String> = Vec::new();
        let mut at: usize = 0;
        while at < self.items.len()
            invariant
                at <= self.items@.len(),
                views(texts@) == views(self.items@).take(at as int),
            decreases self.items@.len() - at,
        {
            let ghost prior = views(texts@);
            texts.push(self.items[at].clone());
            at = at + 1;
            proof {
                assert(views(texts@) =~= prior.push(views(self.items@)[at - 1]));
                assert(views(texts@) =~= views(self.items@).take(at as int));
            }
        }
        proof {
            assert(views(texts@) =~= views(self.items@));
        }
        texts
    }

    fn place(&self, text: &str) -> (place: usize)
        requires
            self.wf(),
        ensures
            is_place(self.listed(), text@, place as int),
    {
        let mut at: usize = 0;
        while at < self.items.len() && is_before(self.items[at].as_str(), text)
            invariant
                at <= self.items@.len(),
                forall|i: int| 0 <= i < at ==> before(#[trigger] self.listed()[i], text@),
            decreases self.items@.len() - at,
        {
            at = at + 1;
        }
        at
    }

    /// Does the set hold `text`?
    pub fn contains(&self, text: &str) -> (held: bool)
        requires
            self.wf(),
        ensures
            held == self@.contains(text@),
    {
        let place = self.place(text);
        proof {
            lemma_place(self.listed(), text@, place as int);
        }
        place < self.items.len() && *self.items[place].as_str() == *text
    }

    /// Add `text`; `true` when the set did not hold it yet.
    pub fn insert(&mut self, text: String) -> (fresh: bool)
        requires
            old(self).wf(),
        ensures
            final(self).wf(),
            fresh == !old(self)@.contains(text@),
            final(self)@ == old(self)@.insert(text@),
            final(self).listed().len() == old(self).listed().len() + (if fresh { 1int } else { 0 }),
    {
        let place = self.place(text.as_str());
        proof {
            lemma_place(self.listed(), text@, place as int);
        }
        let ghost before = self.listed();
        if place < self.items.len() && *self.items[place].as_str() == *text.as_str() {
            proof {
                assert(self@.insert(text@) =~= self@);
            }
            false
        } else {
            let ghost added = text@;
            self.items.insert(place, text);
            proof {
                assert(self.listed() =~= before.insert(place as int, added));
                assert(self@ =~= before.to_set().insert(added)) by {
                    assert forall|t: Seq<char>| self@.contains(t) <==> before.to_set().insert(added).contains(t) by {
                        if before.contains(t) {
                            let i = choose|i: int| 0 <= i < before.len() && before[i] == t;
                            let j = if i < place { i } else { i + 1 };
                            assert(self.listed()[j] == t);
                        }
                        if t == added {
                            assert(self.listed()[place as int] == t);
                        }
                        if self.listed().contains(t) {
                            let j = choose|j: int| 0 <= j < self.listed().len() && self.listed()[j] == t;
                            if j < place {
                                assert(before[j] == t);
                            } else if j > place {
                                assert(before[j - 1] == t);
                            }
                        }
                    }
                }
            }
            true
        }
    }
}

impl Default for TextSet {
    fn default() -> (set: Self)
        ensures
            set.wf(),
            set@ == Set::<Seq<char>>::empty(),
    {
        TextSet::new()
    }
}

impl Clone for TextSet {
    fn clone(&self) -> (copy: Self)
        ensures
            copy@ == self@,
            copy.listed() == self.listed(),
            copy.wf() == self.wf(),
    {
        TextSet { items: self.to_vec() }
    }
}

/// How often `text` occurs in `texts`.
pub open spec fn occurrences(texts: Seq<Seq<char>>, text: Seq<char>) -> nat
    decreases texts.len(),
{
    if texts.len() == 0 {
        0
    } else {
        occurrences(texts.drop_last(), text) + if texts.last() == text { 1nat } else { 0 }
    }
}

/// A count, held at the largest value that an entry can carry.
pub open spec fn capped(count: nat) -> u32 {
    if count <= u32::MAX {
        count as u32
    } else {
        u32::MAX
    }
}

/// The texts of a list of entries.
pub open spec fn entry_keys(entries: Seq<(String, u32)>) -> Seq<Seq<char>> {
    entries.map_values(|entry: (String, u32)| entry.0@)
}

/// The entries of `texts`: one for each text that occurs, in order, with the
/// number of its occurrences.
pub open spec fn is_tally(entries: Seq<(String, u32)>, texts: Seq<Seq<char>>) -> bool {
    &&& ascending(entry_keys(entries))
    &&& forall|i: int|
        0 <= i < entries.len() ==> {
            &&& occurrences(texts, (#[trigger] entries[i]).0@) > 0
            &&& entries[i].1 == capped(occurrences(texts, entries[i].0@))
        }
    &&& forall|text: Seq<char>| #[trigger]
        occurrences(texts, text) > 0 ==> entry_keys(entries).contains(text)
}

/// Count the texts.
pub fn tally(texts: &Vec<String>) -> (entries: Vec<(String, u32)>)
    ensures
        is_tally(entries@, views(texts@)),
{
    let mut entries: Vec<(String, u32)> = Vec::new();
    let mut at: usize = 0;
    proof {
        assert(entry_keys(entries@) =~= Seq::<Seq<char>>::empty());
    }
    while at < texts.len()
        invariant
            at <= texts@.len(),
            is_tally(entries@, views(texts@).take(at as int)),
        decreases texts@.len() - at,
    {
        let ghost counted = views(texts@).take(at as int);
        let ghost text = texts@[at as int]@;
        let ghost prior = entries@;
        count(&mut entries, texts[at].clone(), Ghost(counted));
        at = at + 1;
        proof {
            assert(views(texts@).take(at as int) =~= counted.push(text));
        }
    }
    proof {
        assert(views(texts@).take(texts@.len() as int) =~= views(texts@));
    }
    entries
}

proof fn lemma_occurrences_push(texts: Seq<Seq<char>>, added: Seq<char>)
    ensures
        forall|text: Seq<char>| #[trigger]
            occurrences(texts.push(added), text) == occurrences(texts, text) + (if text == added {
                1nat
            } else {
                0
            }),
{
    assert(texts.push(added).drop_last() =~= texts);
}

/// One more occurrence of `text`.
fn count(entries: &mut Vec<(String, u32)>, text: String, Ghost(texts): Ghost<Seq<Seq<char>>>)
    requires
        is_tally(old(entries)@, texts),
    ensures
        is_tally(final(entries)@, texts.push(text@)),
{
    let ghost added = text@;
    let ghost prior = entries@;
    let ghost keys = entry_keys(prior);
    let mut place: usize = 0;
    while place < entries.len() && is_before(entries[place].0.as_str(), text.as_str())
        invariant
            entries@ == prior,
            keys == entry_keys(prior),
            added == text@,
            place <= prior.len(),
            forall|i: int| 0 <= i < place ==> before(#[trigger] keys[i], added),
        decreases prior.len() - place,
    {
        place = place + 1;
    }
    proof {
        lemma_place(keys, added, place as int);
        lemma_occurrences_push(texts, added);
    }
    if place < entries.len() && *entries[place].0.as_str() == *text.as_str() {
        let old_count: u32 = entries[place].1;
        let new_count: u32 = if old_count < u32::MAX {
            old_count + 1
        } else {
            old_count
        };
        let key = entries[place].0.clone();
        entries.set(place, (key, new_count));
        proof {
            assert(entry_keys(entries@) =~= keys);
            assert forall|i: int| 0 <= i < entries@.len() implies {
                &&& occurrences(texts.push(added), (#[trigger] entries@[i]).0@) > 0
                &&& entries@[i].1 == capped(occurrences(texts.push(added), entries@[i].0@))
            } by {
                assert(entries@[i].0@ == keys[i]);
                if i != place {
                    lemma_before_irreflexive(added);
                    assert(entries@[i] == prior[i]);
                    assert(keys[i] != added);
                }
            }
        }
    } else {
        entries.insert(place, (text, 1));
        proof {
            assert(entry_keys(entries@) =~= keys.insert(place as int, added));
            assert(occurrences(texts, added) == 0);
            assert forall|i: int| 0 <= i < entries@.len() implies {
                &&& occurrences(texts.push(added), (#[trigger] entries@[i]).0@) > 0
                &&& entries@[i].1 == capped(occurrences(texts.push(added), entries@[i].0@))
            } by {
                if i < place {
                    assert(entries@[i] == prior[i]);
                    assert(keys.contains(keys[i]));
                } else if i > place {
                    assert(entries@[i] == prior[i - 1]);
                    assert(keys.contains(keys[i - 1]));
                }
            }
            assert forall|t: Seq<char>| #[trigger] occurrences(texts.push(added), t) > 0 implies entry_keys(
                entries@,
            ).contains(t) by {
                if t == added {
                    assert(entry_keys(entries@)[place as int] == added);
                } else {
                    assert(occurrences(texts, t) > 0);
                    let i = choose|i: int| 0 <= i < keys.len() && keys[i] == t;
                    let j = if i < place { i } else { i + 1 };
                    assert(entry_keys(entries@)[j] == t);
                }
            }
        }
    }
}

} // verus!
