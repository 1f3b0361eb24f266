//! Error taxonomy of the fetch pipeline.
//!
//! A fetch of one resource can fail in transit (the record source could not
//! complete the request) or in decoding (the record parser could not decode
//! the raw text). The pipeline never recovers locally: it tags the failure
//! with the resource kind it struck and propagates it. Writing the finished
//! report can fail too; that failure is surfaced to the caller unchanged.

use vstd::prelude::*;

verus! {

/// One of the four record categories fetched independently. The order of
/// the variants is the pipeline's fixed fetch order, and the tie-break
/// order used when several concurrent fetches fail.
#[derive(Debug, Clone, Copy, PartialEq, Eq, Structural)]
pub enum ResourceKind {
    Account,
    Usage,
    Messages,
    Calls,
}

/// How a single fetch failed, with the collaborator's own description.
#[derive(Debug, Clone, PartialEq)]
pub enum FetchFailure {
    /// The record source could not complete the request.
    Transport(String),
    /// The record parser could not decode the raw text.
    Parse(String),
}

/// A failed report run: the first failure encountered, tagged with the
/// resource kind it struck, or a failure to write the finished report.
#[derive(Debug, Clone, PartialEq)]
pub enum ReportGenerationError {
    RetrieveRecordError(ResourceKind, String),
    ParseRecordError(ResourceKind, String),
    WriteReportError(String),
}

/// The error that a failure of `failure`'s kind on resource `kind`
/// propagates: transport failures become retrieval errors, decode failures
/// become parse errors, each carrying the resource kind and the detail.
pub open spec fn tag_failure(kind: ResourceKind, failure: FetchFailure) -> ReportGenerationError {
    match failure {
        FetchFailure::Transport(detail) => ReportGenerationError::RetrieveRecordError(kind, detail),
        FetchFailure::Parse(detail) => ReportGenerationError::ParseRecordError(kind, detail),
    }
}

impl ReportGenerationError {
    /// Tags a single fetch failure with the resource kind it struck.
    pub fn from_failure(kind: ResourceKind, failure: FetchFailure) -> (r: Self)
        ensures
            r == tag_failure(kind, failure),
    {
        match failure {
            FetchFailure::Transport(detail) => ReportGenerationError::RetrieveRecordError(
                kind,
                detail,
            ),
            FetchFailure::Parse(detail) => ReportGenerationError::ParseRecordError(kind, detail),
        }
    }
}

} // verus!
