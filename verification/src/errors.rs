//! Error taxonomy of the pipeline.
//!
//! Every stage failure aborts the remainder of the pipeline; no error is
//! treated as a warning. Each enum belongs to one component: the service
//! supervisor, the model registry, the generation pipeline itself, the
//! version-control collaborator, and the remote-repository collaborator.

use vstd::prelude::*;

verus! {

/// Failure of the service supervisor: the backend never became reachable
/// within the bounded readiness loop.
#[derive(Clone, Copy, Debug, PartialEq, Eq, Structural)]
pub enum ServiceError {
    ServiceUnavailable,
}

/// Failure of the model registry.
#[derive(Clone, Copy, Debug, PartialEq, Eq, Structural)]
pub enum RegistryError {
    /// The listing of installed models could not be obtained.
    ModelListUnavailable,
    /// Pulling an absent model did not succeed.
    ModelPullFailed,
}

/// Failure of the generation pipeline.
#[derive(Clone, Copy, Debug, PartialEq, Eq, Structural)]
pub enum PipelineError {
    /// The staged change set was empty; no backend call is made in that case.
    EmptyChangeSet,
    /// The backend returned a body without a textual `response` field, or the
    /// generated text was unusable.
    MalformedResponse,
    /// A review was requested but there are no commit subjects to describe.
    NoCommitsForReview,
    /// The backend could not be reached when sending a request.
    ServiceUnavailable,
}

/// Failure of a version-control operation (staging, diffing, committing,
/// branch or log queries).
#[derive(Clone, Copy, Debug, PartialEq, Eq, Structural)]
pub enum VcsError {
    VcsOperationFailed,
}

/// Failure of the remote-repository collaborator.
#[derive(Clone, Copy, Debug, PartialEq, Eq, Structural)]
pub enum RemoteError {
    /// The acting identity could not be resolved.
    RemoteAuthError,
    /// The pull-request creation call was rejected.
    RemoteRequestFailed,
}

impl PipelineError {
    /// A human-readable description of the failure.
    pub fn message(&self) -> (r: &'static str)
        ensures
            *self is EmptyChangeSet ==> r@ == "no staged changes to describe"@,
            *self is MalformedResponse ==> r@ == "backend returned an unusable response"@,
            *self is NoCommitsForReview ==> r@ == "no commits to describe in a review"@,
            *self is ServiceUnavailable ==> r@ == "inference backend is unreachable"@,
    {
        match self {
            PipelineError::EmptyChangeSet => "no staged changes to describe",
            PipelineError::MalformedResponse => "backend returned an unusable response",
            PipelineError::NoCommitsForReview => "no commits to describe in a review",
            PipelineError::ServiceUnavailable => "inference backend is unreachable",
        }
    }
}

} // verus!
