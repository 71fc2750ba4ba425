//! The JSON text as a gzip stream.

use vstd::prelude::*;
use vstd::string::*;
use std::io::Write;
use crate::error::ConvertError;

verus! {

/// The error of `std::io`, carried through and never looked into.
#[verifier::external_type_specification]
#[verifier::external_body]
pub struct ExIoError(std::io::Error);

/// The gzip stream that `flate2` makes of `content` at its default level,
/// written in one piece, or `None` where it makes none.
pub uninterp spec fn gzip_stream(content: Seq<u8>) -> Option<Seq<u8>>;

/// A `flate2::write::GzEncoder` over an empty `Vec<u8>`, made by `new` with
/// `Compression::default()`, fed all of `content` by one `write_all`, and
/// ended by `finish`, which hands the vector back. The header that `new`
/// writes holds no time and no file name, so that what comes back depends on
/// `content` alone; `gzip_stream` is the name of it.
#[verifier::external_body]
fn gzip_encode(content: &[u8]) -> (outcome: Result<Vec<u8>, std::io::Error>)
    ensures
        match outcome {
            Ok(stream) => gzip_stream(content@) == Some(stream@),
            Err(_) => gzip_stream(content@) is None,
        },
{
    let mut encoder = flate2::write::GzEncoder::new(Vec::new(), flate2::Compression::default());
    encoder.write_all(content)?;
    encoder.finish()
}

/// What `zip` does with the outcome of the compression: the stream is handed
/// on as it is, and a failure of any kind is an `IoError`.
pub fn stream_or_error(outcome: Result<Vec<u8>, std::io::Error>) -> (result: Result<
    Vec<u8>,
    ConvertError,
>)
    ensures
        match (outcome, result) {
            (Ok(made), Ok(stream)) => stream@ == made@,
            (Err(_), Err(e)) => e == ConvertError::IoError,
            _ => false,
        },
{
    match outcome {
        Ok(made) => Ok(made),
        Err(_) => Err(ConvertError::IoError),
    }
}

/// Compresses the UTF-8 bytes of `content` into one gzip stream, at the
/// default level.
///
/// Fails with `IoError` if and only if the compressor fails.
pub fn zip(content: &str) -> (result: Result<Vec<u8>, ConvertError>)
    ensures
        match result {
            Ok(stream) => gzip_stream(content.spec_bytes()) == Some(stream@),
            Err(e) => e == ConvertError::IoError && gzip_stream(content.spec_bytes()) is None,
        },
{
    stream_or_error(gzip_encode(content.as_bytes()))
}

} // verus!
