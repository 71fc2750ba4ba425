//! Conversion of a catalogue of item types into the list of the items that
//! are on the market.
//!
//! The catalogue is a YAML document in a zip archive: a mapping from keys to
//! records, each with a name in up to eight languages, a group and, for an
//! item on the market, a market group. The list is a gzip stream of JSON
//! text: an array with one object for each item on the market, which holds
//! the number of the item, its name and its group.
//!
//! The conversion has four stages, and each has its module:
//! - `archive`: the text of the catalogue, from what the archive holds;
//! - `document`: the records of the document, held against the schema;
//! - `transform`: the records that are published, each with its number, which
//!   `key` reads from the key of its entry;
//! - `json` and `gzip`: the published records as JSON text, in which
//!   `decimal` writes the numbers, and that text as a gzip stream.
//!
//! `pipeline` runs the stages from the document to the stream, and `run`
//! says, step by step, what a program around this library does: the library
//! itself opens no file and reads no YAML. `model` holds the records, `error`
//! the ways in which a conversion stops, and `order` what holds of sequences
//! that differ in their order only.

pub mod archive;
pub mod decimal;
pub mod document;
pub mod error;
pub mod gzip;
pub mod json;
pub mod key;
pub mod model;
pub mod order;
pub mod pipeline;
pub mod run;
pub mod transform;
