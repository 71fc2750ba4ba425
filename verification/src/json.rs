//! The published records as JSON text.
//!
//! The text is compact: no space or line break stands between its parts. The
//! records form one array. Each record is an object with the members `id`,
//! `name` and `groupID`, in this order. A name is an object with one member
//! for each language in which the item has a name, in the order `de`, `en`,
//! `es`, `fr`, `ja`, `ko`, `ru`, `zh`; the other languages have no member.
//!
//! The frame of the text is written here. Strings are written by
//! `serde_json`, so that their quotes and escapes are those of that crate.

use vstd::prelude::*;
use vstd::string::*;
use crate::decimal::{append_decimal, decimal};
use crate::error::ConvertError;
use crate::order::{lemma_rearranged_holds_the_same, lemma_rearranged_under_map};
use crate::model::{LocalizedName, NameView, OutputRecord, OutputRecordView};

verus! {

/// The error of `serde_json`, carried through and never looked into.
#[verifier::external_type_specification]
#[verifier::external_body]
pub struct ExJsonError(serde_json::Error);

/// The JSON string that `serde_json` writes for the text `s`, quotes and
/// escapes included, or `None` where it fails to write one.
pub uninterp spec fn json_quoted(s: Seq<char>) -> Option<Seq<char>>;

/// `serde_json::to_string` on a `str`. It hands the text to the crate's
/// writer of strings, which puts it in quotes and escapes what JSON does not
/// take as it is. What comes back, a text or a failure, depends on `s`
/// alone; `json_quoted` is the name of it, and nothing more is claimed.
#[verifier::external_body]
fn to_json_string(s: &str) -> (outcome: Result<String, serde_json::Error>)
    ensures
        match outcome {
            Ok(quoted) => json_quoted(s@) == Some(quoted@),
            Err(_) => json_quoted(s@) is None,
        },
{
    serde_json::to_string(s)
}

/// The parts of `parts` one behind the other, with a comma between each two.
pub open spec fn joined(parts: Seq<Seq<char>>) -> Seq<char>
    decreases parts.len(),
{
    if parts.len() == 0 {
        Seq::empty()
    } else if parts.len() == 1 {
        parts[0]
    } else {
        joined(parts.drop_last()) + ","@ + parts.last()
    }
}

/// The parts of `parts` with commas between them.
pub fn join_with_commas(parts: &Vec<String>) -> (text: String)
    ensures
        text@ == joined(parts.deep_view()),
{
    let ghost all = parts.deep_view();
    let mut out = String::new();
    let mut i: usize = 0;
    while i < parts.len()
        invariant
            i <= parts.len(),
            all == parts.deep_view(),
            all.len() == parts.len(),
            out@ == joined(all.take(i as int)),
        decreases parts.len() - i,
    {
        assert(all.take(i + 1).drop_last() =~= all.take(i as int));
        if i > 0 {
            out.append(",");
        }
        out.append(parts[i].as_str());
        i = i + 1;
    }
    assert(all.take(i as int) =~= all);
    out
}

/// A name whose text in each language is a JSON string already, in quotes
/// and with its escapes.
#[derive(Debug, PartialEq, Eq)]
pub struct QuotedName {
    pub de: Option<String>,
    pub en: Option<String>,
    pub es: Option<String>,
    pub fr: Option<String>,
    pub ja: Option<String>,
    pub ko: Option<String>,
    pub ru: Option<String>,
    pub zh: Option<String>,
}

impl View for QuotedName {
    type V = NameView;

    open spec fn view(&self) -> NameView {
        NameView {
            de: self.de.deep_view(),
            en: self.en.deep_view(),
            es: self.es.deep_view(),
            fr: self.fr.deep_view(),
            ja: self.ja.deep_view(),
            ko: self.ko.deep_view(),
            ru: self.ru.deep_view(),
            zh: self.zh.deep_view(),
        }
    }
}

/// The member of a name for one language: none where the item has no name in
/// that language, else the label, which is the language in quotes and a
/// colon, and behind it the name in that language as a JSON string.
pub open spec fn member(label: Seq<char>, quoted: Option<Seq<char>>) -> Seq<Seq<char>> {
    match quoted {
        Some(text) => seq![label + text],
        None => Seq::empty(),
    }
}

/// The members of a name whose texts are JSON strings already.
pub open spec fn name_members(quoted: NameView) -> Seq<Seq<char>> {
    member("\"de\":"@, quoted.de) + member("\"en\":"@, quoted.en) + member("\"es\":"@, quoted.es)
        + member("\"fr\":"@, quoted.fr) + member("\"ja\":"@, quoted.ja) + member(
        "\"ko\":"@,
        quoted.ko,
    ) + member("\"ru\":"@, quoted.ru) + member("\"zh\":"@, quoted.zh)
}

/// The JSON object of a name whose texts are JSON strings already.
pub open spec fn name_frame(quoted: NameView) -> Seq<char> {
    "{"@ + joined(name_members(quoted)) + "}"@
}

/// The JSON object of a record, `name` being the object of its name.
pub open spec fn record_frame(id: i32, name: Seq<char>, group_id: i32) -> Seq<char> {
    "{\"id\":"@ + decimal(id as int) + ",\"name\":"@ + name + ",\"groupID\":"@ + decimal(
        group_id as int,
    ) + "}"@
}

/// The JSON array of the given elements.
pub open spec fn array_frame(elements: Seq<Seq<char>>) -> Seq<char> {
    "["@ + joined(elements) + "]"@
}

/// Adds the member of one language to `members`.
fn push_member(members: &mut Vec<String>, label: &str, quoted: &Option<String>)
    ensures
        final(members).deep_view() == old(members).deep_view() + member(
            label@,
            quoted.deep_view(),
        ),
{
    match quoted {
        Some(text) => {
            let mut entry = String::new();
            entry.append(label);
            entry.append(text.as_str());
            members.push(entry);
        },
        None => {},
    }
}

/// Writes the object of a name. Each text in `quoted` is written as it
/// stands.
pub fn name_object(quoted: &QuotedName) -> (text: String)
    ensures
        text@ == name_frame(quoted@),
{
    let mut members: Vec<String> = Vec::new();
    push_member(&mut members, "\"de\":", &quoted.de);
    push_member(&mut members, "\"en\":", &quoted.en);
    push_member(&mut members, "\"es\":", &quoted.es);
    push_member(&mut members, "\"fr\":", &quoted.fr);
    push_member(&mut members, "\"ja\":", &quoted.ja);
    push_member(&mut members, "\"ko\":", &quoted.ko);
    push_member(&mut members, "\"ru\":", &quoted.ru);
    push_member(&mut members, "\"zh\":", &quoted.zh);
    let inner = join_with_commas(&members);
    let mut out = String::new();
    out.append("{");
    out.append(inner.as_str());
    out.append("}");
    out
}

/// Writes the object of a record. `name` is the object of its name, and is
/// written as it stands.
pub fn record_object(id: i32, name: &str, group_id: i32) -> (text: String)
    ensures
        text@ == record_frame(id, name@, group_id),
{
    let mut out = String::new();
    out.append("{\"id\":");
    append_decimal(&mut out, id);
    out.append(",\"name\":");
    out.append(name);
    out.append(",\"groupID\":");
    append_decimal(&mut out, group_id);
    out.append("}");
    out
}

/// Writes the array of the given elements, each written as it stands.
pub fn array_text(elements: &Vec<String>) -> (text: String)
    ensures
        text@ == array_frame(elements.deep_view()),
{
    let inner = join_with_commas(elements);
    let mut out = String::new();
    out.append("[");
    out.append(inner.as_str());
    out.append("]");
    out
}

/// The name in one language as a JSON string: `Some(None)` where the item
/// has no name in that language, and `None` where it has one that cannot be
/// written.
pub open spec fn quoted_text(text: Option<Seq<char>>) -> Option<Option<Seq<char>>> {
    match text {
        None => Some(None),
        Some(s) => match json_quoted(s) {
            Some(q) => Some(Some(q)),
            None => None,
        },
    }
}

/// Whether the text of `name` in every language can be written as a JSON
/// string.
pub open spec fn can_be_quoted(name: NameView) -> bool {
    &&& quoted_text(name.de) is Some
    &&& quoted_text(name.en) is Some
    &&& quoted_text(name.es) is Some
    &&& quoted_text(name.fr) is Some
    &&& quoted_text(name.ja) is Some
    &&& quoted_text(name.ko) is Some
    &&& quoted_text(name.ru) is Some
    &&& quoted_text(name.zh) is Some
}

/// The name with its text in each language as a JSON string.
pub open spec fn quoted_name(name: NameView) -> NameView {
    NameView {
        de: quoted_text(name.de).unwrap(),
        en: quoted_text(name.en).unwrap(),
        es: quoted_text(name.es).unwrap(),
        fr: quoted_text(name.fr).unwrap(),
        ja: quoted_text(name.ja).unwrap(),
        ko: quoted_text(name.ko).unwrap(),
        ru: quoted_text(name.ru).unwrap(),
        zh: quoted_text(name.zh).unwrap(),
    }
}

/// What becomes of the outcome of writing one text: the JSON string is handed
/// on as it is, and a failure of any kind is a `SerializeError`.
pub fn quoted_or_error(outcome: Result<String, serde_json::Error>) -> (result: Result<
    String,
    ConvertError,
>)
    ensures
        match (outcome, result) {
            (Ok(written), Ok(text)) => text@ == written@,
            (Err(_), Err(e)) => e == ConvertError::SerializeError,
            _ => false,
        },
{
    match outcome {
        Ok(written) => Ok(written),
        Err(_) => Err(ConvertError::SerializeError),
    }
}

/// Writes the name in one language as a JSON string.
fn quote(text: &Option<String>) -> (result: Result<Option<String>, ConvertError>)
    ensures
        match result {
            Ok(quoted) => quoted_text(text.deep_view()) == Some(quoted.deep_view()),
            Err(e) => e == ConvertError::SerializeError && quoted_text(text.deep_view()) is None,
        },
{
    match text {
        None => Ok(None),
        Some(s) => {
            let written = quoted_or_error(to_json_string(s.as_str()))?;
            Ok(Some(written))
        },
    }
}

/// Writes the text of `name` in each language as a JSON string.
///
/// Fails with `SerializeError` if and only if one of the texts cannot be
/// written; a name without a text in any language can always be written.
pub fn quote_name(name: &LocalizedName) -> (result: Result<QuotedName, ConvertError>)
    ensures
        match result {
            Ok(quoted) => can_be_quoted(name@) && quoted@ == quoted_name(name@),
            Err(e) => e == ConvertError::SerializeError && !can_be_quoted(name@),
        },
{
    let de = quote(&name.de)?;
    let en = quote(&name.en)?;
    let es = quote(&name.es)?;
    let fr = quote(&name.fr)?;
    let ja = quote(&name.ja)?;
    let ko = quote(&name.ko)?;
    let ru = quote(&name.ru)?;
    let zh = quote(&name.zh)?;
    Ok(QuotedName { de, en, es, fr, ja, ko, ru, zh })
}

/// The JSON object of a published record, where its name can be written.
pub open spec fn record_json(record: OutputRecordView) -> Seq<char> {
    record_frame(record.id, name_frame(quoted_name(record.name)), record.group_id)
}

/// Whether the name of every record can be written.
pub open spec fn can_be_written(records: Seq<OutputRecordView>) -> bool {
    forall|i: int| 0 <= i < records.len() ==> can_be_quoted(#[trigger] records[i].name)
}

/// The JSON objects of the published records, in their order.
pub open spec fn json_elements(records: Seq<OutputRecordView>) -> Seq<Seq<char>> {
    records.map_values(|record: OutputRecordView| record_json(record))
}

/// The JSON text of the published records.
pub open spec fn json_text(records: Seq<OutputRecordView>) -> Seq<char> {
    array_frame(json_elements(records))
}

/// Writes the published records as one JSON array, in their order.
///
/// Fails with `SerializeError` if and only if the name of some record has a
/// text that cannot be written as a JSON string. Records whose names have no
/// text in any language, and no records at all, are always written.
pub fn to_json(records: &Vec<OutputRecord>) -> (result: Result<String, ConvertError>)
    ensures
        match result {
            Ok(text) => can_be_written(records.deep_view()) && text@ == json_text(
                records.deep_view(),
            ),
            Err(e) => e == ConvertError::SerializeError && !can_be_written(records.deep_view()),
        },
{
    let ghost all = records.deep_view();
    let ghost written = json_elements(all);
    let mut elements: Vec<String> = Vec::new();
    let mut i: usize = 0;
    while i < records.len()
        invariant
            i <= records.len(),
            all == records.deep_view(),
            all.len() == records.len(),
            written == json_elements(all),
            can_be_written(all.take(i as int)),
            elements.deep_view() == written.take(i as int),
        decreases records.len() - i,
    {
        let record = &records[i];
        assert(all[i as int] == record@);
        let quoted = match quote_name(&record.name) {
            Ok(quoted) => quoted,
            Err(e) => {
                return Err(e);
            },
        };
        let name = name_object(&quoted);
        let element = record_object(record.id, name.as_str(), record.group_id);
        elements.push(element);
        assert(written.take(i + 1) =~= written.take(i as int).push(record_json(record@)));
        assert(can_be_written(all.take(i + 1))) by {
            assert forall|j: int| 0 <= j < all.take(i + 1).len() implies can_be_quoted(
                #[trigger] all.take(i + 1)[j].name,
            ) by {
                if j < i {
                    assert(all.take(i as int)[j] == all.take(i + 1)[j]);
                }
            }
        }
        i = i + 1;
    }
    assert(all.take(i as int) =~= all);
    assert(written.take(i as int) =~= written);
    Ok(array_text(&elements))
}

/// The number of languages in which `name` has a text.
pub open spec fn languages(name: NameView) -> nat {
    let one = |text: Option<Seq<char>>| if text is Some { 1nat } else { 0nat };
    one(name.de) + one(name.en) + one(name.es) + one(name.fr) + one(name.ja) + one(name.ko) + one(
        name.ru,
    ) + one(name.zh)
}

/// A language in which the item has no name is left out: the object of a name
/// has one member for each language in which it has a text, and nothing, not
/// even `null`, for the others. Writing the texts as JSON strings does not
/// change their number.
pub proof fn lemma_one_member_for_each_language(name: NameView)
    ensures
        name_members(name).len() == languages(name),
        can_be_quoted(name) ==> name_members(quoted_name(name)).len() == languages(name),
{
}

/// The object of a name that the item has in English only holds the one
/// member `en`: it is written if and only if the English name can be, and is
/// then `{"en":` with the English name as a JSON string and `}` behind it.
pub proof fn lemma_english_only(name: NameView, english: Seq<char>)
    requires
        name.en == Some(english),
        name.de is None,
        name.es is None,
        name.fr is None,
        name.ja is None,
        name.ko is None,
        name.ru is None,
        name.zh is None,
    ensures
        can_be_quoted(name) == (json_quoted(english) is Some),
        json_quoted(english) matches Some(quoted) ==> name_members(quoted_name(name)) == seq![
            "\"en\":"@ + quoted,
        ] && name_frame(quoted_name(name)) == "{"@ + ("\"en\":"@ + quoted) + "}"@,
{
}

/// The text asks nothing of the order of the records: rearranged records can
/// be written together or not at all, and their objects are rearranged.
pub proof fn lemma_elements_follow_order(a: Seq<OutputRecordView>, b: Seq<OutputRecordView>)
    requires
        a.to_multiset() == b.to_multiset(),
    ensures
        can_be_written(a) == can_be_written(b),
        json_elements(a).to_multiset() == json_elements(b).to_multiset(),
{
    lemma_rearranged_holds_the_same(a, b);
    lemma_rearranged_under_map(a, b, |record: OutputRecordView| record_json(record));
    if can_be_written(a) {
        assert forall|i: int| 0 <= i < b.len() implies can_be_quoted(#[trigger] b[i].name) by {
            assert(b.contains(b[i]));
        }
    }
    if can_be_written(b) {
        assert forall|i: int| 0 <= i < a.len() implies can_be_quoted(#[trigger] a[i].name) by {
            assert(a.contains(a[i]));
        }
    }
}

} // verus!
