//! The pipeline's error taxonomy. Every stage failure is one of these; none
//! is silently swallowed and none is retried.

use vstd::prelude::*;

verus! {

/// Why a pipeline run for one file stopped.
#[derive(Clone, Copy, Debug, PartialEq, Eq, Structural)]
pub enum PipelineError {
    /// An unreadable file or a filesystem rename failure.
    IOError,
    /// An unsupported or corrupt image.
    DecodeError,
    /// Missing credential configuration or a credential-tool failure.
    AuthError,
    /// A transport or connectivity failure.
    NetworkError,
    /// A response missing an expected field or shape.
    ParseError,
    /// A search that yielded nothing to disambiguate.
    EmptyCandidatesError,
    /// An invalid operator disambiguation index.
    InputError,
}

/// The text shown to the operator for each error.
pub open spec fn error_text(e: PipelineError) -> Seq<char> {
    match e {
        PipelineError::IOError => "unreadable file or filesystem failure"@,
        PipelineError::DecodeError => "unsupported or corrupt image"@,
        PipelineError::AuthError => "missing or unusable credentials"@,
        PipelineError::NetworkError => "service unreachable"@,
        PipelineError::ParseError => "service answered without the expected field"@,
        PipelineError::EmptyCandidatesError => "search returned no candidates"@,
        PipelineError::InputError => "invalid disambiguation index"@,
    }
}

impl PipelineError {
    /// A short description of the failure for operator-facing reports.
    pub fn describe(&self) -> (r: String)
        ensures
            r@ == error_text(*self),
    {
        match self {
            PipelineError::IOError => "unreadable file or filesystem failure".to_owned(),
            PipelineError::DecodeError => "unsupported or corrupt image".to_owned(),
            PipelineError::AuthError => "missing or unusable credentials".to_owned(),
            PipelineError::NetworkError => "service unreachable".to_owned(),
            PipelineError::ParseError => "service answered without the expected field".to_owned(),
            PipelineError::EmptyCandidatesError => "search returned no candidates".to_owned(),
            PipelineError::InputError => "invalid disambiguation index".to_owned(),
        }
    }
}

} // verus!
