//! The whole conversion, from the document as it was read to the bytes that
//! are written.

use vstd::prelude::*;
use vstd::utf8::encode_utf8;
use crate::document::{
    completed_entries,
    lemma_schema_ignores_order,
    schema_holds,
    validate_document,
    Parsed,
};
use crate::error::ConvertError;
use crate::gzip::{gzip_stream, zip};
use crate::json::{can_be_written, json_elements, json_text, lemma_elements_follow_order, to_json};
use crate::model::{OutputRecordView, RawEntryView};
use crate::transform::{
    keys_are_valid,
    lemma_filter_correctness,
    lemma_order_of_entries_is_order_of_records,
    published,
    retained,
    yaml_fmt,
};

verus! {

/// The records that are published of `entries`, where no stage fails.
pub open spec fn records_of(entries: Seq<RawEntryView>) -> Seq<OutputRecordView> {
    published(completed_entries(entries))
}

/// The error with which the stages between the reading of the document and
/// the compression end, or `None` where they all pass. The first of these
/// that applies:
/// - `SchemaError`, where some record has no name or no group;
/// - `KeyFormatError`, where the key of a published record names no number;
/// - `SerializeError`, where a name cannot be written as JSON.
pub open spec fn failure_of(entries: Seq<RawEntryView>) -> Option<ConvertError> {
    if !schema_holds(entries) {
        Some(ConvertError::SchemaError)
    } else if !keys_are_valid(completed_entries(entries)) {
        Some(ConvertError::KeyFormatError)
    } else if !can_be_written(records_of(entries)) {
        Some(ConvertError::SerializeError)
    } else {
        None
    }
}

/// What the conversion of the entries of a document gives: the error of the
/// first stage that fails, or the gzip stream of the JSON text of the
/// published records, or `IoError` where the compressor fails.
pub open spec fn conversion(entries: Seq<RawEntryView>) -> Result<Seq<u8>, ConvertError> {
    match failure_of(entries) {
        Some(e) => Err(e),
        None => match gzip_stream(encode_utf8(json_text(records_of(entries)))) {
            Some(stream) => Ok(stream),
            None => Err(ConvertError::IoError),
        },
    }
}

/// What the conversion gives for each way in which the reading of the text
/// can end: `ParseError` for a text that is no document, and else what the
/// conversion of its entries gives.
pub open spec fn conversion_of(parsed: Option<Seq<RawEntryView>>) -> Result<
    Seq<u8>,
    ConvertError,
> {
    match parsed {
        None => Err(ConvertError::ParseError),
        Some(entries) => conversion(entries),
    }
}

/// Converts the document of the catalogue into the bytes of the output file.
///
/// The stages run one after the other, and the first that fails ends the
/// conversion with its error: nothing is returned then, and no record is
/// skipped because it is bad.
pub fn convert(parsed: &Parsed) -> (result: Result<Vec<u8>, ConvertError>)
    ensures
        match result {
            Ok(stream) => conversion_of(parsed@) matches Ok(bytes) && bytes == stream@,
            Err(e) => conversion_of(parsed@) matches Err(failure) && failure == e,
        },
{
    let entries = match parsed {
        Parsed::Malformed => {
            return Err(ConvertError::ParseError);
        },
        Parsed::Document(entries) => entries,
    };
    let source = match validate_document(entries) {
        Ok(source) => source,
        Err(e) => {
            return Err(e);
        },
    };
    let records = match yaml_fmt(&source) {
        Ok(records) => records,
        Err(e) => {
            return Err(e);
        },
    };
    let text = match to_json(&records) {
        Ok(text) => text,
        Err(e) => {
            return Err(e);
        },
    };
    zip(text.as_str())
}

/// The entries of `entries` whose records have a market group, in their
/// order.
pub open spec fn market_entries(entries: Seq<RawEntryView>) -> Seq<RawEntryView> {
    entries.filter(|raw: RawEntryView| raw.record.market_group_id is Some)
}

/// The entries that are retained are those that had a market group when
/// they were read.
proof fn lemma_retained_are_the_market_entries(entries: Seq<RawEntryView>)
    ensures
        retained(completed_entries(entries)) == completed_entries(market_entries(entries)),
    decreases entries.len(),
{
    reveal(Seq::filter);
    if entries.len() > 0 {
        let front = entries.drop_last();
        lemma_retained_are_the_market_entries(front);
        assert(completed_entries(entries).drop_last() =~= completed_entries(front));
    }
}

/// The JSON array holds as many objects as the catalogue has records with a
/// market group.
pub proof fn lemma_one_element_for_each_market_record(entries: Seq<RawEntryView>)
    ensures
        json_elements(records_of(entries)).len() == market_entries(entries).len(),
{
    lemma_filter_correctness(completed_entries(entries));
    lemma_retained_are_the_market_entries(entries);
}

/// The order in which the entries come decides the order of the objects in
/// the JSON array and nothing else. Rearranged entries end with the same
/// error, or pass together; and where they pass, the arrays hold the same
/// objects, each as often in the one as in the other.
pub proof fn lemma_order_aside(a: Seq<RawEntryView>, b: Seq<RawEntryView>)
    requires
        a.to_multiset() == b.to_multiset(),
    ensures
        failure_of(a) == failure_of(b),
        json_elements(records_of(a)).to_multiset() == json_elements(records_of(b)).to_multiset(),
{
    lemma_schema_ignores_order(a, b);
    lemma_order_of_entries_is_order_of_records(completed_entries(a), completed_entries(b));
    lemma_elements_follow_order(records_of(a), records_of(b));
}

} // verus!
