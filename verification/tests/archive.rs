use sde_types::archive::{entry_text, EntryLookup, ARCHIVE_FILE, ENTRY_NAME, OUTPUT_FILE};
use sde_types::error::ConvertError;

#[test]
fn the_names_are_those_of_the_convention() {
    assert_eq!(ARCHIVE_FILE, "sde.zip");
    assert_eq!(ENTRY_NAME, "fsd/types.yaml");
    assert_eq!(OUTPUT_FILE, "types.json.gz");
}

#[test]
fn an_archive_without_the_entry_ends_the_run() {
    assert_eq!(entry_text(EntryLookup::Absent), Err(ConvertError::EntryNotFound));
}

#[test]
fn a_directory_under_the_name_ends_the_run() {
    assert_eq!(entry_text(EntryLookup::Directory), Err(ConvertError::EntryNotFound));
}

#[test]
fn a_file_that_cannot_be_read_is_an_io_error() {
    assert_eq!(entry_text(EntryLookup::Unreadable), Err(ConvertError::IoError));
}

#[test]
fn a_file_that_is_no_archive_is_an_archive_error() {
    assert_eq!(entry_text(EntryLookup::NotAnArchive), Err(ConvertError::ArchiveError));
}

#[test]
fn the_bytes_of_a_file_are_read_as_utf8() {
    let bytes = "100:\n  groupID: 18\n".as_bytes().to_vec();
    assert_eq!(entry_text(EntryLookup::File(bytes)), Ok("100:\n  groupID: 18\n".to_string()));
}

#[test]
fn an_empty_file_is_the_empty_text() {
    assert_eq!(entry_text(EntryLookup::File(Vec::new())), Ok(String::new()));
}

#[test]
fn characters_of_more_than_one_byte_are_read() {
    let bytes = vec![0xd0, 0xa2, 0x20, 0xe3, 0x83, 0x88, 0x20, 0xf0, 0x9f, 0x98, 0x80];
    assert_eq!(
        entry_text(EntryLookup::File(bytes)),
        Ok("\u{0422} \u{30c8} \u{1f600}".to_string())
    );
}

#[test]
fn bytes_that_are_not_utf8_are_a_decode_error() {
    assert_eq!(entry_text(EntryLookup::File(vec![0xff])), Err(ConvertError::DecodeError));
    assert_eq!(entry_text(EntryLookup::File(vec![0x61, 0x80])), Err(ConvertError::DecodeError));
    assert_eq!(entry_text(EntryLookup::File(vec![0xc0, 0xaf])), Err(ConvertError::DecodeError));
    assert_eq!(
        entry_text(EntryLookup::File(vec![0xed, 0xa0, 0x80])),
        Err(ConvertError::DecodeError)
    );
    assert_eq!(entry_text(EntryLookup::File(vec![0xe3, 0x83])), Err(ConvertError::DecodeError));
    assert_eq!(
        entry_text(EntryLookup::File(vec![0xf4, 0x90, 0x80, 0x80])),
        Err(ConvertError::DecodeError)
    );
}
