//! From the entries of the catalogue to the records that are published.
//!
//! An entry is retained if and only if its record has a market group. Of each
//! retained entry one record is published: its number is read from the key of
//! the entry, its name and its group are taken over as they are. The
//! published records keep the order of their entries, and are not sorted.

use vstd::prelude::*;
use vstd::seq_lib::{group_to_multiset_ensures, lemma_multiset_commutative};
use crate::error::ConvertError;
use crate::key::{key_id, parse_key};
use crate::model::{OutputRecord, OutputRecordView, SourceEntry, SourceEntryView};
use crate::order::lemma_rearranged_holds_the_same;

verus! {

/// Whether `entry` is retained: its record has a market group. The value of
/// the market group plays no part: zero and negative numbers count.
pub open spec fn is_retained(entry: SourceEntryView) -> bool {
    entry.record.market_group_id is Some
}

/// The record that is published of `entry`, where its key names a number.
pub open spec fn output_of(entry: SourceEntryView) -> OutputRecordView {
    OutputRecordView {
        id: key_id(entry.key).unwrap(),
        name: entry.record.name,
        group_id: entry.record.group_id,
    }
}

/// The entries of `entries` that are retained, in their order.
pub open spec fn retained(entries: Seq<SourceEntryView>) -> Seq<SourceEntryView> {
    entries.filter(|entry: SourceEntryView| is_retained(entry))
}

/// Whether the key of every retained entry names a number. The key of an
/// entry that is not retained is never read, and may be any text.
pub open spec fn keys_are_valid(entries: Seq<SourceEntryView>) -> bool {
    forall|i: int|
        0 <= i < entries.len() && is_retained(#[trigger] entries[i]) ==> key_id(entries[i].key)
            is Some
}

/// The records that are published of `entries`, in the order of their
/// entries.
pub open spec fn published(entries: Seq<SourceEntryView>) -> Seq<OutputRecordView> {
    retained(entries).map_values(|entry: SourceEntryView| output_of(entry))
}

/// Nothing is published of no entries.
pub proof fn lemma_published_of_nothing()
    ensures
        published(Seq::<SourceEntryView>::empty()) == Seq::<OutputRecordView>::empty(),
{
    reveal(Seq::filter);
}

/// What one more entry adds to the published records: its record, if the
/// entry is retained.
pub proof fn lemma_published_step(entries: Seq<SourceEntryView>, i: int)
    requires
        0 <= i < entries.len(),
    ensures
        published(entries.take(i + 1)) == if is_retained(entries[i]) {
            published(entries.take(i)).push(output_of(entries[i]))
        } else {
            published(entries.take(i))
        },
{
    reveal(Seq::filter);
    assert(entries.take(i + 1).drop_last() =~= entries.take(i));
}

/// Selects the entries that are retained and publishes one record of each.
///
/// Fails with `KeyFormatError` if and only if some retained entry has a key
/// that names no number; nothing is returned then, whatever the other entries
/// hold. Otherwise returns the record of each retained entry, in the order of
/// the entries.
pub fn yaml_fmt(entries: &Vec<SourceEntry>) -> (result: Result<Vec<OutputRecord>, ConvertError>)
    ensures
        match result {
            Ok(records) => keys_are_valid(entries.deep_view()) && records.deep_view() == published(
                entries.deep_view(),
            ),
            Err(e) => e == ConvertError::KeyFormatError && !keys_are_valid(entries.deep_view()),
        },
{
    let ghost all = entries.deep_view();
    let mut records: Vec<OutputRecord> = Vec::new();
    let mut i: usize = 0;
    proof {
        lemma_published_of_nothing();
    }
    while i < entries.len()
        invariant
            i <= entries.len(),
            all == entries.deep_view(),
            all.len() == entries.len(),
            keys_are_valid(all.take(i as int)),
            records.deep_view() == published(all.take(i as int)),
        decreases entries.len() - i,
    {
        let entry = &entries[i];
        proof {
            lemma_published_step(all, i as int);
        }
        if entry.record.market_group_id.is_some() {
            match parse_key(entry.key.as_str()) {
                Some(id) => {
                    let record = OutputRecord {
                        id,
                        name: entry.record.name.clone(),
                        group_id: entry.record.group_id,
                    };
                    records.push(record);
                },
                None => {
                    return Err(ConvertError::KeyFormatError);
                },
            }
        }
        assert(keys_are_valid(all.take(i + 1))) by {
            assert forall|j: int|
                0 <= j < all.take(i + 1).len() && is_retained(
                    #[trigger] all.take(i + 1)[j],
                ) implies key_id(all.take(i + 1)[j].key) is Some by {
                if j < i {
                    assert(all.take(i as int)[j] == all.take(i + 1)[j]);
                }
            }
        }
        i = i + 1;
    }
    assert(all.take(i as int) =~= all);
    Ok(records)
}

/// The place among the published records of the record of the entry at `i`,
/// where that entry is retained: the number of retained entries in front of
/// it.
pub open spec fn place_of(entries: Seq<SourceEntryView>, i: int) -> int {
    retained(entries.take(i)).len() as int
}

/// The place in `entries` of the entry of which the published record at `j`
/// is made.
pub open spec fn source_of(entries: Seq<SourceEntryView>, j: int) -> int {
    choose|i: int|
        #![trigger place_of(entries, i)]
        0 <= i < entries.len() && is_retained(entries[i]) && place_of(entries, i) == j
}

/// Whether the published record at `j` is that of some retained entry.
spec fn has_source(entries: Seq<SourceEntryView>, j: int) -> bool {
    exists|i: int|
        #![trigger place_of(entries, i)]
        0 <= i < entries.len() && is_retained(entries[i]) && place_of(entries, i) == j
}

/// What one more entry adds to the retained entries.
proof fn lemma_retained_step(entries: Seq<SourceEntryView>)
    requires
        entries.len() > 0,
    ensures
        retained(entries) == if is_retained(entries.last()) {
            retained(entries.drop_last()).push(entries.last())
        } else {
            retained(entries.drop_last())
        },
{
    reveal(Seq::filter);
}

/// The places of the retained entries: each lies among the retained entries
/// and holds its entry, they rise with the entries, and none is left out.
proof fn lemma_places(entries: Seq<SourceEntryView>)
    ensures
        forall|i: int|
            0 <= i <= entries.len() ==> 0 <= #[trigger] place_of(entries, i) <= retained(
                entries,
            ).len(),
        forall|i: int|
            0 <= i < entries.len() && is_retained(entries[i]) ==> #[trigger] place_of(entries, i)
                < retained(entries).len() && retained(entries)[place_of(entries, i)] == entries[i],
        forall|i: int, k: int|
            0 <= i < k <= entries.len() && is_retained(entries[i]) ==> #[trigger] place_of(
                entries,
                i,
            ) < #[trigger] place_of(entries, k),
        forall|j: int| 0 <= j < retained(entries).len() ==> #[trigger] has_source(entries, j),
    decreases entries.len(),
{
    let n = entries.len() as int;
    if n == 0 {
        reveal(Seq::filter);
    } else {
        let front = entries.drop_last();
        lemma_places(front);
        lemma_retained_step(entries);
        assert(entries.take(n) =~= entries);
        assert forall|i: int| 0 <= i < n implies #[trigger] place_of(entries, i) == place_of(
            front,
            i,
        ) by {
            assert(entries.take(i) =~= front.take(i));
        }
        assert forall|j: int| 0 <= j < retained(entries).len() implies #[trigger] has_source(
            entries,
            j,
        ) by {
            if j < retained(front).len() {
                assert(has_source(front, j));
                let i = choose|i: int|
                    #![trigger place_of(front, i)]
                    0 <= i < front.len() && is_retained(front[i]) && place_of(front, i) == j;
                assert(is_retained(entries[i]) && place_of(entries, i) == j);
            } else {
                assert(is_retained(entries[n - 1]) && place_of(entries, n - 1) == j);
            }
        }
    }
}

/// Of the entries, exactly those with a market group have a record among the
/// published ones, and each has one:
/// - there are as many published records as retained entries;
/// - a retained entry has its record at the place that `place_of` gives, with
///   the number that its key names, its name and its group;
/// - two retained entries have different places, in the order of the entries;
/// - every published record is made of a retained entry, the one that
///   `source_of` gives, and stands at its place, so that an entry without a
///   market group has none.
pub proof fn lemma_filter_correctness(entries: Seq<SourceEntryView>)
    ensures
        published(entries).len() == retained(entries).len(),
        forall|i: int|
            0 <= i < entries.len() && is_retained(entries[i]) ==> 0 <= #[trigger] place_of(
                entries,
                i,
            ) < published(entries).len() && published(entries)[place_of(entries, i)] == output_of(
                entries[i],
            ),
        forall|i: int, k: int|
            0 <= i < k < entries.len() && is_retained(entries[i]) && is_retained(entries[k])
                ==> #[trigger] place_of(entries, i) < #[trigger] place_of(entries, k),
        forall|j: int|
            0 <= j < published(entries).len() ==> 0 <= #[trigger] source_of(entries, j)
                < entries.len() && is_retained(entries[source_of(entries, j)]) && place_of(
                entries,
                source_of(entries, j),
            ) == j && published(entries)[j] == output_of(entries[source_of(entries, j)]),
{
    lemma_places(entries);
    assert forall|j: int| 0 <= j < published(entries).len() implies 0 <= #[trigger] source_of(
        entries,
        j,
    ) < entries.len() && is_retained(entries[source_of(entries, j)]) && place_of(
        entries,
        source_of(entries, j),
    ) == j && published(entries)[j] == output_of(entries[source_of(entries, j)]) by {
        assert(has_source(entries, j));
    }
}

/// Whether no key occurs twice in `entries`, as in the mapping of a
/// document.
pub open spec fn keys_are_distinct(entries: Seq<SourceEntryView>) -> bool {
    forall|i: int, k: int|
        0 <= i < k < entries.len() ==> #[trigger] entries[i].key != #[trigger] entries[k].key
}

/// Where no key occurs twice, the records of a mapping are told apart by
/// their keys, and each record with a market group has exactly one published
/// record, a record without one has none: the published record at `j` is made
/// of the entry with a given key if and only if that entry is retained and
/// `j` is its place.
pub proof fn lemma_one_record_for_each_key(entries: Seq<SourceEntryView>)
    requires
        keys_are_distinct(entries),
    ensures
        forall|j: int|
            0 <= j < published(entries).len() ==> 0 <= #[trigger] source_of(entries, j)
                < entries.len(),
        forall|i: int, j: int|
            #![trigger entries[i], source_of(entries, j)]
            0 <= i < entries.len() && 0 <= j < published(entries).len() ==> (entries[source_of(
                entries,
                j,
            )].key == entries[i].key <==> is_retained(entries[i]) && j == place_of(entries, i)),
{
    lemma_filter_correctness(entries);
    assert forall|i: int, j: int|
        #![trigger entries[i], source_of(entries, j)]
        0 <= i < entries.len() && 0 <= j < published(entries).len() implies (entries[source_of(
        entries,
        j,
    )].key == entries[i].key <==> is_retained(entries[i]) && j == place_of(entries, i)) by {
        let from = source_of(entries, j);
        if is_retained(entries[i]) && j == place_of(entries, i) {
            if from < i {
                assert(place_of(entries, from) < place_of(entries, i));
            } else if i < from {
                assert(place_of(entries, i) < place_of(entries, from));
            }
        }
        if entries[from].key == entries[i].key {
            if from < i {
                assert(entries[from].key != entries[i].key);
            } else if i < from {
                assert(entries[i].key != entries[from].key);
            }
        }
    }
}

/// A market group of zero is a market group like any other: the entry is
/// retained and its record is published.
pub proof fn lemma_zero_market_group_is_retained(entry: SourceEntryView)
    requires
        entry.record.market_group_id == Some(0i32),
    ensures
        is_retained(entry),
        published(seq![entry]) == seq![output_of(entry)],
{
    reveal_with_fuel(Seq::filter, 2);
}

/// The published records of one sequence behind another are those of the
/// first and behind them those of the second.
proof fn lemma_published_of_concatenation(a: Seq<SourceEntryView>, b: Seq<SourceEntryView>)
    ensures
        published(a + b) == published(a) + published(b),
{
    Seq::filter_distributes_over_add(a, b, |entry: SourceEntryView| is_retained(entry));
}

/// The order of the entries decides the order of the published records and
/// nothing else: two sequences that hold the same entries, each as often as
/// the other, fail together, and where they do not fail they give the same
/// published records, each as often as the other.
pub proof fn lemma_order_of_entries_is_order_of_records(
    a: Seq<SourceEntryView>,
    b: Seq<SourceEntryView>,
)
    requires
        a.to_multiset() == b.to_multiset(),
    ensures
        keys_are_valid(a) == keys_are_valid(b),
        published(a).to_multiset() == published(b).to_multiset(),
    decreases a.len(),
{
    broadcast use group_to_multiset_ensures;

    lemma_rearranged_holds_the_same(a, b);
    if keys_are_valid(a) {
        assert forall|i: int| 0 <= i < b.len() && is_retained(#[trigger] b[i]) implies key_id(
            b[i].key,
        ) is Some by {
            assert(b.contains(b[i]));
        }
    }
    if keys_are_valid(b) {
        assert forall|i: int| 0 <= i < a.len() && is_retained(#[trigger] a[i]) implies key_id(
            a[i].key,
        ) is Some by {
            assert(a.contains(a[i]));
        }
    }
    if a.len() > 0 {
        let x = a.last();
        let front = a.drop_last();
        assert(a =~= front + seq![x]);
        assert(a.contains(x));
        let k = choose|k: int| 0 <= k < b.len() && b[k] == x;
        let head = b.take(k);
        let tail = b.skip(k + 1);
        let rest = b.remove(k);
        assert(b =~= head + seq![x] + tail);
        assert(rest =~= head + tail);
        assert(front.to_multiset() =~= rest.to_multiset()) by {
            assert(a =~= front.push(x));
            assert(a.to_multiset() =~= front.to_multiset().insert(x));
            assert(rest.to_multiset() =~= b.to_multiset().remove(x));
        }
        lemma_order_of_entries_is_order_of_records(front, rest);
        lemma_published_of_concatenation(front, seq![x]);
        lemma_published_of_concatenation(head, seq![x]);
        lemma_published_of_concatenation(head + seq![x], tail);
        lemma_published_of_concatenation(head, tail);
        lemma_multiset_commutative(published(front), published(seq![x]));
        lemma_multiset_commutative(published(head), published(seq![x]));
        lemma_multiset_commutative(published(head) + published(seq![x]), published(tail));
        lemma_multiset_commutative(published(head), published(tail));
        assert(published(a).to_multiset() =~= published(b).to_multiset());
    }
}

} // verus!
