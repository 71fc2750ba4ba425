//! What the archive holds under the name of the catalogue, as text.

use vstd::prelude::*;
use vstd::utf8::{decode_utf8, valid_utf8};
use crate::error::ConvertError;

verus! {

/// The name of the archive, in the directory in which the program runs.
pub const ARCHIVE_FILE: &'static str = "sde.zip";

/// The name under which the archive holds the catalogue.
pub const ENTRY_NAME: &'static str = "fsd/types.yaml";

/// The name of the file that is written, in the same directory.
pub const OUTPUT_FILE: &'static str = "types.json.gz";

/// How the search for `ENTRY_NAME` in the archive ended.
#[derive(Debug, PartialEq, Eq)]
pub enum EntryLookup {
    /// The archive, or the entry in it, could not be opened or read.
    Unreadable,
    /// The file is not a zip container that can be read.
    NotAnArchive,
    /// The archive holds nothing under that name.
    Absent,
    /// The archive holds a directory under that name.
    Directory,
    /// The archive holds a regular file under that name, with these contents.
    File(Vec<u8>),
}

/// The error of `String::from_utf8`, carried through and never looked into.
#[verifier::external_type_specification]
#[verifier::external_body]
pub struct ExFromUtf8Error(std::string::FromUtf8Error);

/// `String::from_utf8`: the bytes as a `String` where they are valid UTF-8,
/// which then holds these bytes and no others, and an error where they are
/// not.
#[verifier::external_body]
fn string_from_utf8(bytes: Vec<u8>) -> (outcome: Result<String, std::string::FromUtf8Error>)
    ensures
        match outcome {
            Ok(text) => valid_utf8(bytes@) && text@ == decode_utf8(bytes@),
            Err(_) => !valid_utf8(bytes@),
        },
{
    String::from_utf8(bytes)
}

/// What `entry_text` gives for each way in which the search can end.
pub open spec fn text_of(lookup: EntryLookup) -> Result<Seq<char>, ConvertError> {
    match lookup {
        EntryLookup::Unreadable => Err(ConvertError::IoError),
        EntryLookup::NotAnArchive => Err(ConvertError::ArchiveError),
        EntryLookup::Absent => Err(ConvertError::EntryNotFound),
        EntryLookup::Directory => Err(ConvertError::EntryNotFound),
        EntryLookup::File(bytes) => if valid_utf8(bytes@) {
            Ok(decode_utf8(bytes@))
        } else {
            Err(ConvertError::DecodeError)
        },
    }
}

/// The text of the catalogue, from what the search in the archive found.
///
/// Fails with `IoError` where the archive or the entry could not be read,
/// with `ArchiveError` where the file is no zip container, with
/// `EntryNotFound` where nothing, or a directory, has the name, and with
/// `DecodeError` where the file under that name is not valid UTF-8; in each
/// case if and only if. Otherwise returns the text that the bytes of the file
/// encode.
pub fn entry_text(lookup: EntryLookup) -> (result: Result<String, ConvertError>)
    ensures
        match result {
            Ok(text) => text_of(lookup) matches Ok(decoded) && decoded == text@,
            Err(e) => text_of(lookup) matches Err(failure) && failure == e,
        },
{
    match lookup {
        EntryLookup::Unreadable => Err(ConvertError::IoError),
        EntryLookup::NotAnArchive => Err(ConvertError::ArchiveError),
        EntryLookup::Absent => Err(ConvertError::EntryNotFound),
        EntryLookup::Directory => Err(ConvertError::EntryNotFound),
        EntryLookup::File(bytes) => match string_from_utf8(bytes) {
            Ok(text) => Ok(text),
            Err(_) => Err(ConvertError::DecodeError),
        },
    }
}

} // verus!
