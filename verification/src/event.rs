//! Inbound webhook events and the status values the CI platform reports.

use vstd::prelude::*;

verus! {

/// Status of a pipeline run or of a single job, as the CI platform reports it.
#[derive(Clone, Copy, Debug, PartialEq, Eq, Structural)]
pub enum PipelineStatus {
    Created,
    WaitingForResource,
    Preparing,
    Pending,
    Running,
    Success,
    Failed,
    Canceled,
    Skipped,
    Manual,
    Scheduled,
}

/// A pipeline webhook notification: which pipeline of which project finished
/// in which state, and, when the run belongs to a merge request, that
/// merge request's identifier.
#[derive(Clone, Copy, Debug)]
pub struct PipelineEvent {
    pub pipeline_id: u64,
    pub project_id: u64,
    pub status: PipelineStatus,
    pub merge_request_id: Option<u64>,
}

/// A decoded webhook body. The platform posts many kinds of events to the
/// same endpoint; only pipeline events carry anything the relay acts on.
#[derive(Clone, Copy, Debug)]
pub enum InboundEvent {
    Pipeline(PipelineEvent),
    Other,
}

} // verus!
