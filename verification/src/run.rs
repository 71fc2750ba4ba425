//! The run of the program, step by step.
//!
//! What touches the file system or reads YAML is done outside this library.
//! The library says what is done next, and is told how it ended: the run
//! starts with the search of the archive, goes on with the reading of the
//! document and the writing of the output, and never goes back. The first
//! failure ends it, so that the output file is written only where everything
//! before has passed.

use vstd::prelude::*;
use crate::archive::{entry_text, text_of, EntryLookup};
use crate::document::Parsed;
use crate::error::ConvertError;
use crate::pipeline::{conversion_of, convert};

verus! {

/// How the last step ended.
#[derive(Debug, PartialEq, Eq)]
pub enum Outcome {
    /// Nothing was done yet.
    Started,
    /// The archive was searched for the catalogue.
    Archive(EntryLookup),
    /// The text of the catalogue was read as a document.
    Document(Parsed),
    /// The output file was written, wholly if `true`; if `false`, writing
    /// failed.
    Written(bool),
}

/// What is done next.
#[derive(Debug, PartialEq, Eq)]
pub enum Step {
    /// Search the archive `ARCHIVE_FILE` for the entry `ENTRY_NAME`.
    ReadArchive,
    /// Read this text as a document.
    ParseDocument(String),
    /// Write these bytes to the file `OUTPUT_FILE`, in place of what it held.
    WriteOutput(Vec<u8>),
    /// Stop: the run has ended, well or with this error.
    Done(Result<(), ConvertError>),
}

/// A `Step` as plain values.
pub enum StepView {
    ReadArchive,
    ParseDocument(Seq<char>),
    WriteOutput(Seq<u8>),
    Done(Result<(), ConvertError>),
}

impl View for Step {
    type V = StepView;

    open spec fn view(&self) -> StepView {
        match self {
            Step::ReadArchive => StepView::ReadArchive,
            Step::ParseDocument(text) => StepView::ParseDocument(text@),
            Step::WriteOutput(bytes) => StepView::WriteOutput(bytes@),
            Step::Done(end) => StepView::Done(*end),
        }
    }
}

/// The step that follows each outcome.
pub open spec fn step_after(outcome: Outcome) -> StepView {
    match outcome {
        Outcome::Started => StepView::ReadArchive,
        Outcome::Archive(lookup) => match text_of(lookup) {
            Ok(text) => StepView::ParseDocument(text),
            Err(e) => StepView::Done(Err(e)),
        },
        Outcome::Document(parsed) => match conversion_of(parsed@) {
            Ok(stream) => StepView::WriteOutput(stream),
            Err(e) => StepView::Done(Err(e)),
        },
        Outcome::Written(wholly) => if wholly {
            StepView::Done(Ok(()))
        } else {
            StepView::Done(Err(ConvertError::IoError))
        },
    }
}

/// Says what is done next, given how the last step ended.
///
/// The archive is searched first. Where the catalogue was found, its text is
/// read as a document next; where the document converts, the output is
/// written next; and when the output is written, the run ends well. Each
/// failure ends the run at once with its error, and a failure to write the
/// output ends it with `IoError`.
pub fn next_step(outcome: Outcome) -> (step: Step)
    ensures
        step@ == step_after(outcome),
{
    match outcome {
        Outcome::Started => Step::ReadArchive,
        Outcome::Archive(lookup) => match entry_text(lookup) {
            Ok(text) => Step::ParseDocument(text),
            Err(e) => Step::Done(Err(e)),
        },
        Outcome::Document(parsed) => match convert(&parsed) {
            Ok(stream) => Step::WriteOutput(stream),
            Err(e) => Step::Done(Err(e)),
        },
        Outcome::Written(wholly) => if wholly {
            Step::Done(Ok(()))
        } else {
            Step::Done(Err(ConvertError::IoError))
        },
    }
}

/// The output is written last, and only where all went well before: the step
/// that writes follows no outcome but a document that converts, and it writes
/// what the conversion of that document gives.
pub proof fn lemma_output_is_written_last(outcome: Outcome)
    requires
        step_after(outcome) is WriteOutput,
    ensures
        outcome matches Outcome::Document(parsed) && conversion_of(parsed@) matches Ok(stream)
            && step_after(outcome) == StepView::WriteOutput(stream),
{
}

/// A run never goes back: the archive is searched only at the start, and the
/// document is read only after the archive was searched.
pub proof fn lemma_run_goes_forward(outcome: Outcome)
    ensures
        step_after(outcome) is ReadArchive <==> outcome is Started,
        step_after(outcome) is ParseDocument ==> outcome is Archive,
        outcome is Written ==> step_after(outcome) is Done,
{
}

} // verus!
