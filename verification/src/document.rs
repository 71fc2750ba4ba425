//! The document of the catalogue and its schema: what a record must hold.
//!
//! The root of the document is a mapping from keys to records. A record must
//! have a name and a group. It may have a market group. What else it holds
//! is not read.

use vstd::prelude::*;
use crate::error::ConvertError;
use crate::order::{lemma_rearranged_holds_the_same, lemma_rearranged_under_map};
use crate::model::{
    RawEntry,
    RawEntryView,
    RawRecord,
    RawRecordView,
    SourceEntry,
    SourceEntryView,
    SourceRecord,
    SourceRecordView,
};

verus! {

/// How the reading of the text as a document ended.
#[derive(Debug, PartialEq, Eq)]
pub enum Parsed {
    /// The text is not a well-formed document.
    Malformed,
    /// The text is a document with these entries, in the order in which they
    /// were handed out, which need not be that of the text. The mapping of a
    /// document holds no key twice; the conversion does not depend on it.
    Document(Vec<RawEntry>),
}

impl View for Parsed {
    type V = Option<Seq<RawEntryView>>;

    open spec fn view(&self) -> Option<Seq<RawEntryView>> {
        match self {
            Parsed::Malformed => None,
            Parsed::Document(entries) => Some(entries.deep_view()),
        }
    }
}

/// Whether `raw` has the fields that every record must have.
pub open spec fn is_complete(raw: RawRecordView) -> bool {
    raw.name is Some && raw.group_id is Some
}

/// The record that `raw` holds, where it is complete.
pub open spec fn completed(raw: RawRecordView) -> SourceRecordView {
    SourceRecordView {
        name: raw.name.unwrap(),
        group_id: raw.group_id.unwrap(),
        market_group_id: raw.market_group_id,
    }
}

/// The entry that `raw` holds, where its record is complete.
pub open spec fn completed_entry(raw: RawEntryView) -> SourceEntryView {
    SourceEntryView { key: raw.key, record: completed(raw.record) }
}

/// Whether every record of `entries` is complete.
pub open spec fn schema_holds(entries: Seq<RawEntryView>) -> bool {
    forall|i: int| 0 <= i < entries.len() ==> is_complete(#[trigger] entries[i].record)
}

/// The entries that `entries` hold, where every record is complete.
pub open spec fn completed_entries(entries: Seq<RawEntryView>) -> Seq<SourceEntryView> {
    entries.map_values(|raw: RawEntryView| completed_entry(raw))
}

/// Holds one record against the schema.
///
/// Fails with `SchemaError` if and only if the record has no name or no
/// group. A record without a market group is in order.
pub fn validate_record(raw: &RawRecord) -> (result: Result<SourceRecord, ConvertError>)
    ensures
        match result {
            Ok(record) => is_complete(raw@) && record@ == completed(raw@),
            Err(e) => e == ConvertError::SchemaError && !is_complete(raw@),
        },
{
    match (&raw.name, raw.group_id) {
        (Some(name), Some(group_id)) => Ok(
            SourceRecord { name: name.clone(), group_id, market_group_id: raw.market_group_id },
        ),
        _ => Err(ConvertError::SchemaError),
    }
}

/// Holds every record of the document against the schema.
///
/// Fails with `SchemaError` if and only if some record has no name or no
/// group, whether or not that record would be published. Otherwise returns
/// the entries in their order, each under its key.
pub fn validate_document(entries: &Vec<RawEntry>) -> (result: Result<
    Vec<SourceEntry>,
    ConvertError,
>)
    ensures
        match result {
            Ok(valid) => schema_holds(entries.deep_view()) && valid.deep_view()
                == completed_entries(entries.deep_view()),
            Err(e) => e == ConvertError::SchemaError && !schema_holds(entries.deep_view()),
        },
{
    let ghost all = entries.deep_view();
    let mut valid: Vec<SourceEntry> = Vec::new();
    let mut i: usize = 0;
    while i < entries.len()
        invariant
            i <= entries.len(),
            all == entries.deep_view(),
            all.len() == entries.len(),
            forall|j: int| 0 <= j < i ==> is_complete(#[trigger] all[j].record),
            valid.deep_view() == completed_entries(all).take(i as int),
        decreases entries.len() - i,
    {
        let entry = &entries[i];
        assert(all[i as int] == entry@);
        let record = match validate_record(&entry.record) {
            Ok(record) => record,
            Err(e) => {
                return Err(e);
            },
        };
        valid.push(SourceEntry { key: entry.key.clone(), record });
        assert(completed_entries(all).take(i + 1) =~= completed_entries(all).take(i as int).push(
            completed_entry(entry@),
        ));
        i = i + 1;
    }
    Ok(valid)
}

/// The schema asks nothing of the order of the entries: rearranged entries
/// pass or fail together, and where they pass they give rearranged records.
pub proof fn lemma_schema_ignores_order(a: Seq<RawEntryView>, b: Seq<RawEntryView>)
    requires
        a.to_multiset() == b.to_multiset(),
    ensures
        schema_holds(a) == schema_holds(b),
        completed_entries(a).to_multiset() == completed_entries(b).to_multiset(),
{
    lemma_rearranged_holds_the_same(a, b);
    lemma_rearranged_under_map(a, b, |raw: RawEntryView| completed_entry(raw));
    if schema_holds(a) {
        assert forall|i: int| 0 <= i < b.len() implies is_complete(#[trigger] b[i].record) by {
            assert(b.contains(b[i]));
        }
    }
    if schema_holds(b) {
        assert forall|i: int| 0 <= i < a.len() implies is_complete(#[trigger] a[i].record) by {
            assert(a.contains(a[i]));
        }
    }
}

} // verus!
