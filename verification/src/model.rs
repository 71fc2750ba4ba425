//! The records of the catalogue and their mathematical views.

use vstd::prelude::*;

verus! {

/// The name of an item in up to eight languages. A language in which the
/// item has no name is `None`, which is not the same as an empty name.
#[derive(Debug, PartialEq, Eq)]
pub struct LocalizedName {
    pub de: Option<String>,
    pub en: Option<String>,
    pub es: Option<String>,
    pub fr: Option<String>,
    pub ja: Option<String>,
    pub ko: Option<String>,
    pub ru: Option<String>,
    pub zh: Option<String>,
}

/// A `LocalizedName` as text.
pub struct NameView {
    pub de: Option<Seq<char>>,
    pub en: Option<Seq<char>>,
    pub es: Option<Seq<char>>,
    pub fr: Option<Seq<char>>,
    pub ja: Option<Seq<char>>,
    pub ko: Option<Seq<char>>,
    pub ru: Option<Seq<char>>,
    pub zh: Option<Seq<char>>,
}

impl View for LocalizedName {
    type V = NameView;

    open spec fn view(&self) -> NameView {
        NameView {
            de: self.de.deep_view(),
            en: self.en.deep_view(),
            es: self.es.deep_view(),
            fr: self.fr.deep_view(),
            ja: self.ja.deep_view(),
            ko: self.ko.deep_view(),
            ru: self.ru.deep_view(),
            zh: self.zh.deep_view(),
        }
    }
}

impl DeepView for LocalizedName {
    type V = NameView;

    open spec fn deep_view(&self) -> NameView {
        self@
    }
}

impl Default for LocalizedName {
    /// The name of an item that has no name in any language.
    fn default() -> (name: Self)
        ensures
            name@ == (NameView {
                de: None,
                en: None,
                es: None,
                fr: None,
                ja: None,
                ko: None,
                ru: None,
                zh: None,
            }),
    {
        LocalizedName {
            de: None,
            en: None,
            es: None,
            fr: None,
            ja: None,
            ko: None,
            ru: None,
            zh: None,
        }
    }
}

/// A copy of an optional text.
fn clone_text(text: &Option<String>) -> (copy: Option<String>)
    ensures
        copy.deep_view() == text.deep_view(),
{
    match text {
        Some(s) => Some(s.clone()),
        None => None,
    }
}

impl Clone for LocalizedName {
    fn clone(&self) -> (copy: Self)
        ensures
            copy@ == self@,
    {
        LocalizedName {
            de: clone_text(&self.de),
            en: clone_text(&self.en),
            es: clone_text(&self.es),
            fr: clone_text(&self.fr),
            ja: clone_text(&self.ja),
            ko: clone_text(&self.ko),
            ru: clone_text(&self.ru),
            zh: clone_text(&self.zh),
        }
    }
}

/// One record of the catalogue as it was read: a field that the document
/// left out, or gave as null, is `None`.
#[derive(Debug, PartialEq, Eq)]
pub struct RawRecord {
    pub name: Option<LocalizedName>,
    pub group_id: Option<i32>,
    pub market_group_id: Option<i32>,
}

/// A `RawRecord` as plain values.
pub struct RawRecordView {
    pub name: Option<NameView>,
    pub group_id: Option<i32>,
    pub market_group_id: Option<i32>,
}

impl View for RawRecord {
    type V = RawRecordView;

    open spec fn view(&self) -> RawRecordView {
        RawRecordView {
            name: self.name.deep_view(),
            group_id: self.group_id,
            market_group_id: self.market_group_id,
        }
    }
}

impl DeepView for RawRecord {
    type V = RawRecordView;

    open spec fn deep_view(&self) -> RawRecordView {
        self@
    }
}

impl Clone for RawRecord {
    fn clone(&self) -> (copy: Self)
        ensures
            copy@ == self@,
    {
        let name = match &self.name {
            Some(name) => Some(name.clone()),
            None => None,
        };
        RawRecord { name, group_id: self.group_id, market_group_id: self.market_group_id }
    }
}

/// A raw record under the key that the document gave it.
#[derive(Debug, PartialEq, Eq)]
pub struct RawEntry {
    pub key: String,
    pub record: RawRecord,
}

/// A `RawEntry` as plain values.
pub struct RawEntryView {
    pub key: Seq<char>,
    pub record: RawRecordView,
}

impl View for RawEntry {
    type V = RawEntryView;

    open spec fn view(&self) -> RawEntryView {
        RawEntryView { key: self.key@, record: self.record@ }
    }
}

impl DeepView for RawEntry {
    type V = RawEntryView;

    open spec fn deep_view(&self) -> RawEntryView {
        self@
    }
}

impl Clone for RawEntry {
    fn clone(&self) -> (copy: Self)
        ensures
            copy@ == self@,
    {
        RawEntry { key: self.key.clone(), record: self.record.clone() }
    }
}

/// One record of the catalogue with its required fields in place. An item is
/// on the market if and only if `market_group_id` is there, whatever its value.
#[derive(Debug, PartialEq, Eq)]
pub struct SourceRecord {
    pub name: LocalizedName,
    pub group_id: i32,
    pub market_group_id: Option<i32>,
}

/// A `SourceRecord` as plain values.
pub struct SourceRecordView {
    pub name: NameView,
    pub group_id: i32,
    pub market_group_id: Option<i32>,
}

impl View for SourceRecord {
    type V = SourceRecordView;

    open spec fn view(&self) -> SourceRecordView {
        SourceRecordView {
            name: self.name@,
            group_id: self.group_id,
            market_group_id: self.market_group_id,
        }
    }
}

impl DeepView for SourceRecord {
    type V = SourceRecordView;

    open spec fn deep_view(&self) -> SourceRecordView {
        self@
    }
}

impl Clone for SourceRecord {
    fn clone(&self) -> (copy: Self)
        ensures
            copy@ == self@,
    {
        SourceRecord {
            name: self.name.clone(),
            group_id: self.group_id,
            market_group_id: self.market_group_id,
        }
    }
}

/// A record under the key that the document gave it. The key is kept as text:
/// it is read as a number only for a record that is published.
#[derive(Debug, PartialEq, Eq)]
pub struct SourceEntry {
    pub key: String,
    pub record: SourceRecord,
}

/// A `SourceEntry` as plain values.
pub struct SourceEntryView {
    pub key: Seq<char>,
    pub record: SourceRecordView,
}

impl View for SourceEntry {
    type V = SourceEntryView;

    open spec fn view(&self) -> SourceEntryView {
        SourceEntryView { key: self.key@, record: self.record@ }
    }
}

impl DeepView for SourceEntry {
    type V = SourceEntryView;

    open spec fn deep_view(&self) -> SourceEntryView {
        self@
    }
}

impl Clone for SourceEntry {
    fn clone(&self) -> (copy: Self)
        ensures
            copy@ == self@,
    {
        SourceEntry { key: self.key.clone(), record: self.record.clone() }
    }
}

/// A published record: the number of the item, its name and its group.
#[derive(Debug, PartialEq, Eq)]
pub struct OutputRecord {
    pub id: i32,
    pub name: LocalizedName,
    pub group_id: i32,
}

/// An `OutputRecord` as plain values.
pub struct OutputRecordView {
    pub id: i32,
    pub name: NameView,
    pub group_id: i32,
}

impl View for OutputRecord {
    type V = OutputRecordView;

    open spec fn view(&self) -> OutputRecordView {
        OutputRecordView { id: self.id, name: self.name@, group_id: self.group_id }
    }
}

impl DeepView for OutputRecord {
    type V = OutputRecordView;

    open spec fn deep_view(&self) -> OutputRecordView {
        self@
    }
}

impl Clone for OutputRecord {
    fn clone(&self) -> (copy: Self)
        ensures
            copy@ == self@,
    {
        OutputRecord { id: self.id, name: self.name.clone(), group_id: self.group_id }
    }
}

} // verus!
