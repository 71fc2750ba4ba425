use std::io::Read;

use sde_types::error::ConvertError;
use sde_types::document::Parsed;
use sde_types::model::{LocalizedName, RawEntry, RawRecord};
use sde_types::pipeline;

fn english(text: &str) -> LocalizedName {
    LocalizedName { en: Some(text.to_string()), ..LocalizedName::default() }
}

fn raw_entry(key: &str, name: &str, group_id: i32, market_group_id: Option<i32>) -> RawEntry {
    RawEntry {
        key: key.to_string(),
        record: RawRecord { name: Some(english(name)), group_id: Some(group_id), market_group_id },
    }
}

fn convert(entries: &Vec<RawEntry>) -> Result<Vec<u8>, ConvertError> {
    pipeline::convert(&Parsed::Document(entries.clone()))
}

fn unpacked(stream: &[u8]) -> String {
    let mut text = String::new();
    flate2::read::GzDecoder::new(stream).read_to_string(&mut text).unwrap();
    text
}

#[test]
fn the_catalogue_of_two_items_gives_the_one_on_the_market() {
    let entries =
        vec![raw_entry("100", "Tritanium", 18, Some(5)), raw_entry("200", "Pod", 6, None)];
    let stream = convert(&entries).unwrap();
    assert_eq!(
        unpacked(&stream),
        "[{\"id\":100,\"name\":{\"en\":\"Tritanium\"},\"groupID\":18}]"
    );
}

#[test]
fn the_empty_catalogue_gives_the_empty_array() {
    assert_eq!(unpacked(&convert(&Vec::new()).unwrap()), "[]");
}

#[test]
fn the_output_holds_as_many_records_as_the_input_has_on_the_market() {
    let mut entries = Vec::new();
    let mut on_the_market = 0;
    for i in 0..200 {
        let market_group_id = if i % 3 == 0 { None } else { Some(i % 7 - 3) };
        if market_group_id.is_some() {
            on_the_market += 1;
        }
        entries.push(raw_entry(&format!("{}", i * 11), &format!("Item {}", i), i, market_group_id));
    }
    let text = unpacked(&convert(&entries).unwrap());
    let parsed: serde_json::Value = serde_json::from_str(&text).unwrap();
    let array = parsed.as_array().unwrap();
    assert_eq!(array.len(), on_the_market);
    let mut next = 0;
    for i in 0..200i64 {
        if i % 3 != 0 {
            assert_eq!(array[next]["id"].as_i64(), Some(i * 11));
            assert_eq!(array[next]["groupID"].as_i64(), Some(i));
            assert_eq!(array[next]["name"]["en"].as_str(), Some(format!("Item {}", i).as_str()));
            next += 1;
        }
    }
}

#[test]
fn a_market_group_of_zero_puts_the_item_on_the_market() {
    let entries = vec![raw_entry("34", "Tritanium", 18, Some(0))];
    assert_eq!(
        unpacked(&convert(&entries).unwrap()),
        "[{\"id\":34,\"name\":{\"en\":\"Tritanium\"},\"groupID\":18}]"
    );
}

#[test]
fn the_same_catalogue_gives_the_same_bytes() {
    let entries = vec![
        raw_entry("100", "Tritanium", 18, Some(5)),
        raw_entry("200", "Pod", 6, None),
        raw_entry("300", "Pyerite", 18, Some(0)),
    ];
    let first = convert(&entries).unwrap();
    let second = convert(&entries).unwrap();
    assert_eq!(first, second);
    assert_eq!(unpacked(&first), unpacked(&second));
}

#[test]
fn another_order_of_the_catalogue_gives_the_same_records() {
    let forward = vec![
        raw_entry("100", "Tritanium", 18, Some(5)),
        raw_entry("200", "Pod", 6, None),
        raw_entry("300", "Pyerite", 18, Some(0)),
    ];
    let backward = vec![
        raw_entry("300", "Pyerite", 18, Some(0)),
        raw_entry("200", "Pod", 6, None),
        raw_entry("100", "Tritanium", 18, Some(5)),
    ];
    let one: serde_json::Value =
        serde_json::from_str(&unpacked(&convert(&forward).unwrap())).unwrap();
    let other: serde_json::Value =
        serde_json::from_str(&unpacked(&convert(&backward).unwrap())).unwrap();
    let mut one = one.as_array().unwrap().clone();
    let mut other = other.as_array().unwrap().clone();
    one.sort_by_key(|r| r["id"].as_i64());
    other.sort_by_key(|r| r["id"].as_i64());
    assert_eq!(one, other);
}

#[test]
fn a_key_that_is_no_number_ends_the_run_only_for_an_item_on_the_market() {
    let bad = vec![raw_entry("100", "Tritanium", 18, Some(5)), raw_entry("abc", "Pod", 6, Some(1))];
    assert_eq!(convert(&bad), Err(ConvertError::KeyFormatError));
    let skipped = vec![raw_entry("100", "Tritanium", 18, Some(5)), raw_entry("abc", "Pod", 6, None)];
    assert_eq!(
        unpacked(&convert(&skipped).unwrap()),
        "[{\"id\":100,\"name\":{\"en\":\"Tritanium\"},\"groupID\":18}]"
    );
}

#[test]
fn a_record_without_a_required_field_ends_the_run() {
    let entries = vec![
        raw_entry("100", "Tritanium", 18, Some(5)),
        RawEntry {
            key: "200".to_string(),
            record: RawRecord { name: None, group_id: Some(6), market_group_id: None },
        },
    ];
    assert_eq!(convert(&entries), Err(ConvertError::SchemaError));
}

#[test]
fn the_schema_is_checked_before_the_keys() {
    let entries = vec![
        raw_entry("abc", "Tritanium", 18, Some(5)),
        RawEntry {
            key: "200".to_string(),
            record: RawRecord { name: Some(english("Pod")), group_id: None, market_group_id: None },
        },
    ];
    assert_eq!(convert(&entries), Err(ConvertError::SchemaError));
}

#[test]
fn a_text_that_is_no_document_ends_the_run() {
    assert_eq!(pipeline::convert(&Parsed::Malformed), Err(ConvertError::ParseError));
}
