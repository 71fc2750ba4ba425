//! The ways in which a conversion stops.

use vstd::prelude::*;

verus! {

/// Why a conversion stopped. Every one of these ends the run: nothing is
/// retried, and no record is skipped because it is bad.
#[derive(Clone, Copy, Debug, PartialEq, Eq, Structural)]
pub enum ConvertError {
    /// A file could not be opened, read or written.
    IoError,
    /// The archive is not a valid zip container.
    ArchiveError,
    /// The archive has no regular file under the required name.
    EntryNotFound,
    /// The entry is not valid UTF-8.
    DecodeError,
    /// The document is not well-formed.
    ParseError,
    /// A record lacks a required field.
    SchemaError,
    /// The key of a published record is not a decimal integer.
    KeyFormatError,
    /// The output could not be encoded.
    SerializeError,
}

} // verus!
