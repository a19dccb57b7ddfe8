//! Counting how often each item is asked for.

use vstd::prelude::*;

verus! {

/// The place of the first entry for `id`, or the length of `entries` where
/// there is none.
pub open spec fn position(entries: Seq<(Seq<char>, nat)>, id: Seq<char>) -> int
    decreases entries.len(),
{
    if entries.len() == 0 {
        0
    } else if entries[0].0 == id {
        0
    } else {
        1 + position(entries.skip(1), id)
    }
}

/// How many of `id` the entries ask for; 0 where they do not name it.
pub open spec fn count_of(entries: Seq<(Seq<char>, nat)>, id: Seq<char>) -> nat {
    let at = position(entries, id);
    if at < entries.len() {
        entries[at].1
    } else {
        0
    }
}

/// The entries after one more `id` is asked for: its entry counts one more, or
/// a new entry with count 1 is added at the end.
pub open spec fn bumped(entries: Seq<(Seq<char>, nat)>, id: Seq<char>) -> Seq<(Seq<char>, nat)> {
    let at = position(entries, id);
    if at < entries.len() {
        entries.update(at, (id, entries[at].1 + 1))
    } else {
        entries.push((id, 1))
    }
}

/// The entries that asking for each of `ids` in turn leaves: one entry for each
/// distinct item, in the order in which the items first occur, with the number
/// of times it occurs.
pub open spec fn tallied(ids: Seq<Seq<char>>) -> Seq<(Seq<char>, nat)>
    decreases ids.len(),
{
    if ids.len() == 0 {
        Seq::empty()
    } else {
        bumped(tallied(ids.drop_last()), ids.last())
    }
}

/// The test for being the item `id`.
pub open spec fn is_item(id: Seq<char>) -> spec_fn(Seq<char>) -> bool {
    |other: Seq<char>| other == id
}

/// How often `id` occurs in `ids`.
pub open spec fn occurrences(ids: Seq<Seq<char>>, id: Seq<char>) -> nat {
    ids.filter(is_item(id)).len()
}

/// Whether no two entries name the same item.
pub open spec fn distinct_items(entries: Seq<(Seq<char>, nat)>) -> bool {
    forall|i: int, j: int|
        0 <= i < entries.len() && 0 <= j < entries.len() && i != j ==> (#[trigger] entries[i]).0
            != (#[trigger] entries[j]).0
}

/// Whether the entries are a mapping from items to positive counts: no two of
/// them name the same item, and none has the count 0.
pub open spec fn is_mapping(entries: Seq<(Seq<char>, nat)>) -> bool {
    &&& distinct_items(entries)
    &&& forall|i: int| 0 <= i < entries.len() ==> (#[trigger] entries[i]).1 >= 1
}

/// Whether an entry names `id`.
pub open spec fn has_item(entries: Seq<(Seq<char>, nat)>, id: Seq<char>) -> bool {
    exists|i: int| 0 <= i < entries.len() && (#[trigger] entries[i]).0 == id
}

/// The values of a list of counted items.
pub open spec fn entry_views(entries: Seq<(String, u64)>) -> Seq<(Seq<char>, nat)> {
    Seq::new(entries.len(), |i: int| (entries[i].0@, entries[i].1 as nat))
}

/// The values of a list of texts.
pub open spec fn text_views(texts: Seq<String>) -> Seq<Seq<char>> {
    Seq::new(texts.len(), |i: int| texts[i]@)
}

/// `position` is the first place that names `id`.
pub proof fn lemma_position(entries: Seq<(Seq<char>, nat)>, id: Seq<char>)
    ensures
        0 <= position(entries, id) <= entries.len(),
        position(entries, id) < entries.len() ==> entries[position(entries, id)].0 == id,
        forall|j: int| 0 <= j < position(entries, id) ==> (#[trigger] entries[j]).0 != id,
    decreases entries.len(),
{
    if entries.len() > 0 && entries[0].0 != id {
        let rest = entries.skip(1);
        lemma_position(rest, id);
        assert forall|j: int| 0 <= j < position(entries, id) implies (#[trigger] entries[j]).0
            != id by {
            if j > 0 {
                assert(rest[j - 1] == entries[j]);
            }
        }
    }
}

/// A place that names `id`, with none before it that does, is `position`.
pub proof fn lemma_position_is(entries: Seq<(Seq<char>, nat)>, id: Seq<char>, at: int)
    requires
        0 <= at <= entries.len(),
        at < entries.len() ==> entries[at].0 == id,
        forall|j: int| 0 <= j < at ==> (#[trigger] entries[j]).0 != id,
    ensures
        position(entries, id) == at,
{
    lemma_position(entries, id);
}

/// Asking for one more `other` adds one to the count of `other` and leaves the
/// count of every other item as it was.
pub proof fn lemma_bumped_count(entries: Seq<(Seq<char>, nat)>, other: Seq<char>, id: Seq<char>)
    ensures
        count_of(bumped(entries, other), id) == count_of(entries, id) + if other == id {
            1nat
        } else {
            0nat
        },
{
    lemma_position(entries, other);
    lemma_position(entries, id);
    let after = bumped(entries, other);
    let at = position(entries, id);
    if other == id {
        lemma_position_is(after, id, at);
    } else if at < entries.len() {
        lemma_position_is(after, id, at);
    } else {
        lemma_position_is(after, id, after.len() as int);
    }
}

/// Asking for one more item of a mapping leaves a mapping.
pub proof fn lemma_bumped_is_mapping(entries: Seq<(Seq<char>, nat)>, id: Seq<char>)
    requires
        is_mapping(entries),
    ensures
        is_mapping(bumped(entries, id)),
{
    lemma_position(entries, id);
}

/// A tally is a mapping: it holds each item once, with a positive count.
pub proof fn lemma_tallied_is_mapping(ids: Seq<Seq<char>>)
    ensures
        is_mapping(tallied(ids)),
    decreases ids.len(),
{
    if ids.len() > 0 {
        lemma_tallied_is_mapping(ids.drop_last());
        lemma_bumped_is_mapping(tallied(ids.drop_last()), ids.last());
    }
}

/// The tally counts for each item how often it occurs: occurrences add up, and
/// none replaces another.
pub proof fn lemma_tallied_count(ids: Seq<Seq<char>>, id: Seq<char>)
    ensures
        count_of(tallied(ids), id) == occurrences(ids, id),
        occurrences(ids, id) <= ids.len(),
    decreases ids.len(),
{
    let same = is_item(id);
    ids.lemma_filter_len(same);
    if ids.len() == 0 {
    } else {
        let before = ids.drop_last();
        lemma_tallied_count(before, id);
        lemma_bumped_count(tallied(before), ids.last(), id);
        before.lemma_filter_push(ids.last(), same);
        assert(before.push(ids.last()) =~= ids);
    }
}

/// A tally names the items that occur, and no others.
pub proof fn lemma_tallied_items(ids: Seq<Seq<char>>, id: Seq<char>)
    ensures
        has_item(tallied(ids), id) <==> ids.contains(id),
{
    let entries = tallied(ids);
    let same = is_item(id);
    lemma_tallied_count(ids, id);
    lemma_tallied_is_mapping(ids);
    lemma_position(entries, id);
    if has_item(entries, id) {
        // the entry counts at least one occurrence, and that one is in `ids`
        ids.lemma_filter_pred(same, 0);
        ids.lemma_filter_contains_rev(same, ids.filter(same)[0]);
    }
    if ids.contains(id) {
        ids.lemma_filter_contains(same, ids.index_of(id));
    }
}

/// The entries of a tally stand in the order in which their items first
/// occur: the item of an earlier entry occurs before any occurrence of the item
/// of a later one.
pub proof fn lemma_tallied_order(ids: Seq<Seq<char>>, earlier: int, later: int)
    requires
        0 <= earlier < later < tallied(ids).len(),
    ensures
        exists|p: int|
            0 <= p < ids.len() && #[trigger] ids[p] == tallied(ids)[earlier].0 && forall|q: int|
                0 <= q <= p ==> #[trigger] ids[q] != tallied(ids)[later].0,
    decreases ids.len(),
{
    let before = ids.drop_last();
    let entries = tallied(before);
    lemma_position(entries, ids.last());
    let p = if later < entries.len() {
        lemma_tallied_order(before, earlier, later);
        choose|p: int|
            0 <= p < before.len() && #[trigger] before[p] == entries[earlier].0 && forall|q: int|
                0 <= q <= p ==> #[trigger] before[q] != entries[later].0
    } else {
        lemma_tallied_items(before, ids.last());
        lemma_tallied_items(before, entries[earlier].0);
        before.index_of(entries[earlier].0)
    };
    assert forall|q: int| 0 <= q <= p implies #[trigger] ids[q] != tallied(ids)[later].0 by {
        assert(ids[q] == before[q]);
    }
}

/// Asks for one more `id`.
fn record(entries: &mut Vec<(String, u64)>, id: String)
    requires
        count_of(entry_views(old(entries)@), id@) < u64::MAX,
    ensures
        entry_views(final(entries)@) == bumped(entry_views(old(entries)@), id@),
{
    let ghost before = entry_views(entries@);
    let mut i: usize = 0;
    while i < entries.len()
        invariant
            i <= entries.len(),
            before == entry_views(entries@),
            before == entry_views(old(entries)@),
            count_of(before, id@) < u64::MAX,
            forall|j: int| 0 <= j < i ==> (#[trigger] before[j]).0 != id@,
        decreases entries.len() - i,
    {
        if entries[i].0 == id {
            proof {
                lemma_position_is(before, id@, i as int);
            }
            let count = entries[i].1;
            entries.set(i, (id, count + 1));
            return ;
        }
        i += 1;
    }
    proof {
        lemma_position_is(before, id@, i as int);
    }
    entries.push((id, 1));
}

/// Counts how often each item occurs in `ids`: one entry for each distinct
/// item, in the order in which the items first occur.
pub fn tally(ids: Vec<String>) -> (entries: Vec<(String, u64)>)
    ensures
        entry_views(entries@) == tallied(text_views(ids@)),
        is_mapping(entry_views(entries@)),
{
    proof {
        lemma_tallied_is_mapping(text_views(ids@));
    }
    let ghost all = text_views(ids@);
    let mut entries: Vec<(String, u64)> = Vec::new();
    assert(all.len() == ids.len());
    for id in it: ids
        invariant
            all.len() <= usize::MAX,
            all == text_views(it.seq()),
            entry_views(entries@) == tallied(all.take(it.index() as int)),
    {
        proof {
            lemma_tallied_count(all.take(it.index() as int), id@);
            assert(all.take(it.index() + 1).drop_last() =~= all.take(it.index() as int));
        }
        record(&mut entries, id);
    }
    assert(all.take(all.len() as int) =~= all);
    entries
}

} // verus!
