//! What is reported for one file.

use vstd::prelude::*;

verus! {

/// The stage at which a file failed.
#[derive(Clone, Copy, Debug, PartialEq, Eq, Structural)]
pub enum ErrorKind {
    /// The file could not be opened or read.
    Open,
    /// No decoding strategy made an image of the content.
    Decode,
    /// The magnified image would be too large to resample: a side beyond
    /// 2^20 pixels, or more bytes than memory can address.
    Resample,
    /// The output could not be serialized or written.
    Encode,
    /// The path has no file name to write the output under.
    Name,
}

/// Why a file failed: the stage, and the cause in words.
#[derive(Clone, Debug, PartialEq, Eq)]
pub struct PipelineError {
    pub kind: ErrorKind,
    pub detail: String,
}

/// The one result of processing one source path.
#[derive(Clone, Debug, PartialEq, Eq)]
pub enum PipelineOutcome {
    /// The magnified image was written to `output`.
    Success { source: String, output: String },
    /// Nothing was written for `source`.
    Failure { source: String, error: PipelineError },
}

/// The cause given where no strategy of the chain applies to the content.
pub open spec fn no_strategy_reason() -> Seq<char> {
    "no decoding strategy applies to the content"@
}

/// The cause given where the magnified image is beyond what can be resampled.
pub open spec fn oversized_reason() -> Seq<char> {
    "the magnified image is too large to resample"@
}

/// The cause given where the path has no file name.
pub open spec fn unnamed_reason() -> Seq<char> {
    "the path has no file name"@
}

/// The cause given where the file name asks for no known format.
pub open spec fn unknown_format_reason() -> Seq<char> {
    "the file name has no suffix of a known image format"@
}

impl PipelineError {
    /// An error of the given kind with the given cause.
    pub fn new(kind: ErrorKind, detail: String) -> (error: PipelineError)
        ensures
            error.kind == kind,
            error.detail == detail,
    {
        PipelineError { kind, detail }
    }
}

impl PipelineOutcome {
    /// The path that this outcome is about.
    pub open spec fn source(&self) -> Seq<char> {
        match self {
            PipelineOutcome::Success { source, .. } => source@,
            PipelineOutcome::Failure { source, .. } => source@,
        }
    }

    /// The path that this outcome is about.
    pub fn source_path(&self) -> (path: &str)
        ensures
            path@ == self.source(),
    {
        match self {
            PipelineOutcome::Success { source, .. } => source.as_str(),
            PipelineOutcome::Failure { source, .. } => source.as_str(),
        }
    }

    /// Whether an output was written.
    pub fn is_success(&self) -> (success: bool)
        ensures
            success == (self is Success),
    {
        match self {
            PipelineOutcome::Success { .. } => true,
            PipelineOutcome::Failure { .. } => false,
        }
    }

    /// The failure for `source` at the given stage.
    pub fn failed(source: String, kind: ErrorKind, detail: String) -> (outcome: PipelineOutcome)
        ensures
            outcome == (PipelineOutcome::Failure { source, error: PipelineError { kind, detail } }),
    {
        PipelineOutcome::Failure { source, error: PipelineError { kind, detail } }
    }
}

} // verus!
