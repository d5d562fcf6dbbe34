//! The request-handling state machine.
//!
//! Every decision the webhook handler makes lives here: classifying the
//! decoded body, short-circuiting non-actionable events, what to fetch next,
//! how each outbound call's outcome moves the request forward, and which
//! HTTP status ends it. The caller performs the outbound calls and feeds the
//! outcomes back in; between two calls the whole request is one
//! [`HandlerState`] value.

use vstd::pervasive::unreached;
use vstd::prelude::*;

use crate::event::{InboundEvent, PipelineEvent, PipelineStatus};
use crate::identity::{resolve_mention, resolved_mention};
use crate::jobs::{failed_jobs_of, filter_failed_jobs, job_views, JobRecord, JobView};
use crate::merge_request::{MergeRequestDetail, MergeRequestView};
use crate::message::{compose_message, message_text};

verus! {

/// HTTP status of an acknowledged request.
pub const STATUS_OK: u16 = 200;

/// HTTP status of a request aborted by an upstream failure.
pub const STATUS_INTERNAL_SERVER_ERROR: u16 = 500;

/// Why an outbound call failed: the transport failed, or the reply did not
/// decode. The handler treats both alike.
#[derive(Clone, Copy, Debug, PartialEq, Eq, Structural)]
pub enum UpstreamError {
    Transport,
    Decode,
}

/// Where a request stands between two outbound calls.
#[derive(Debug)]
pub enum HandlerState {
    /// The event is actionable; the pipeline's job list is being fetched.
    AwaitingJobs { project_id: u64, pipeline_id: u64, merge_request_id: u64 },
    /// The jobs are in and filtered; the merge-request detail is being
    /// fetched.
    AwaitingMergeRequest { project_id: u64, merge_request_id: u64, failed_jobs: Vec<JobRecord> },
    /// The detail is in; the author is being looked up in the directory.
    AwaitingAuthor { detail: MergeRequestDetail, failed_jobs: Vec<JobRecord> },
    /// The author is resolved; the merger is being looked up.
    AwaitingMerger {
        detail: MergeRequestDetail,
        failed_jobs: Vec<JobRecord>,
        author_mention: String,
    },
    /// The message is composed and on its way to the channel.
    AwaitingDelivery { message: String },
    /// The request is answered; nothing more happens to it.
    Finished { status: u16 },
}

/// Mathematical model of a [`HandlerState`].
pub enum HandlerStateView {
    AwaitingJobs { project_id: u64, pipeline_id: u64, merge_request_id: u64 },
    AwaitingMergeRequest { project_id: u64, merge_request_id: u64, failed_jobs: Seq<JobView> },
    AwaitingAuthor { detail: MergeRequestView, failed_jobs: Seq<JobView> },
    AwaitingMerger {
        detail: MergeRequestView,
        failed_jobs: Seq<JobView>,
        author_mention: Seq<char>,
    },
    AwaitingDelivery { message: Seq<char> },
    Finished { status: u16 },
}

impl View for HandlerState {
    type V = HandlerStateView;

    open spec fn view(&self) -> HandlerStateView {
        match self {
            HandlerState::AwaitingJobs { project_id, pipeline_id, merge_request_id } => {
                HandlerStateView::AwaitingJobs {
                    project_id: *project_id,
                    pipeline_id: *pipeline_id,
                    merge_request_id: *merge_request_id,
                }
            },
            HandlerState::AwaitingMergeRequest { project_id, merge_request_id, failed_jobs } => {
                HandlerStateView::AwaitingMergeRequest {
                    project_id: *project_id,
                    merge_request_id: *merge_request_id,
                    failed_jobs: job_views(failed_jobs@),
                }
            },
            HandlerState::AwaitingAuthor { detail, failed_jobs } => {
                HandlerStateView::AwaitingAuthor {
                    detail: detail@,
                    failed_jobs: job_views(failed_jobs@),
                }
            },
            HandlerState::AwaitingMerger { detail, failed_jobs, author_mention } => {
                HandlerStateView::AwaitingMerger {
                    detail: detail@,
                    failed_jobs: job_views(failed_jobs@),
                    author_mention: author_mention@,
                }
            },
            HandlerState::AwaitingDelivery { message } => {
                HandlerStateView::AwaitingDelivery { message: message@ }
            },
            HandlerState::Finished { status } => {
                HandlerStateView::Finished { status: *status }
            },
        }
    }
}

/// The one outbound thing the caller must do next.
#[derive(Debug)]
pub enum Action {
    /// Query the CI platform for the pipeline's job list.
    FetchJobs { project_id: u64, pipeline_id: u64 },
    /// Query the CI platform for the merge-request detail.
    FetchMergeRequest { project_id: u64, merge_request_id: u64 },
    /// Query the chat directory for the user with this handle.
    LookupUser { username: String },
    /// Post this text to the configured channel.
    PostMessage { text: String },
    /// Answer the HTTP request with this status; the request is over.
    Respond { status: u16 },
}

/// Mathematical model of an [`Action`].
pub enum ActionView {
    FetchJobs { project_id: u64, pipeline_id: u64 },
    FetchMergeRequest { project_id: u64, merge_request_id: u64 },
    LookupUser { username: Seq<char> },
    PostMessage { text: Seq<char> },
    Respond { status: u16 },
}

impl View for Action {
    type V = ActionView;

    open spec fn view(&self) -> ActionView {
        match self {
            Action::FetchJobs { project_id, pipeline_id } => {
                ActionView::FetchJobs { project_id: *project_id, pipeline_id: *pipeline_id }
            },
            Action::FetchMergeRequest { project_id, merge_request_id } => {
                ActionView::FetchMergeRequest {
                    project_id: *project_id,
                    merge_request_id: *merge_request_id,
                }
            },
            Action::LookupUser { username } => {
                ActionView::LookupUser { username: username@ }
            },
            Action::PostMessage { text } => {
                ActionView::PostMessage { text: text@ }
            },
            Action::Respond { status } => {
                ActionView::Respond { status: *status }
            },
        }
    }
}

/// What came back from the outbound call the last action asked for.
#[derive(Debug)]
pub enum CallOutcome {
    /// The job-list query returned these jobs, in the platform's order, or
    /// failed.
    JobsFetched(Result<Vec<JobRecord>, UpstreamError>),
    /// The merge-request query returned this detail, or failed.
    MergeRequestFetched(Result<MergeRequestDetail, UpstreamError>),
    /// The directory lookup produced a well-formed identifier, or anything
    /// else (error, no such user, malformed reply) collapsed to `None`.
    UserLookedUp(Option<String>),
    /// The message post went through, or failed.
    MessagePosted(Result<(), UpstreamError>),
}

/// Mathematical model of a [`CallOutcome`].
pub enum CallOutcomeView {
    JobsFetched(Result<Seq<JobView>, UpstreamError>),
    MergeRequestFetched(Result<MergeRequestView, UpstreamError>),
    UserLookedUp(Option<Seq<char>>),
    MessagePosted(Result<(), UpstreamError>),
}

impl View for CallOutcome {
    type V = CallOutcomeView;

    open spec fn view(&self) -> CallOutcomeView {
        match self {
            CallOutcome::JobsFetched(result) => CallOutcomeView::JobsFetched(
                match result {
                    Ok(jobs) => Ok(job_views(jobs@)),
                    Err(e) => Err(*e),
                },
            ),
            CallOutcome::MergeRequestFetched(result) => CallOutcomeView::MergeRequestFetched(
                match result {
                    Ok(detail) => Ok(detail@),
                    Err(e) => Err(*e),
                },
            ),
            CallOutcome::UserLookedUp(lookup) => CallOutcomeView::UserLookedUp(lookup.deep_view()),
            CallOutcome::MessagePosted(result) => CallOutcomeView::MessagePosted(
                match result {
                    Ok(u) => Ok(*u),
                    Err(e) => Err(*e),
                },
            ),
        }
    }
}

/// Reply that acknowledges the event and ends the request.
pub open spec fn acknowledged() -> (HandlerStateView, ActionView) {
    (
        HandlerStateView::Finished { status: STATUS_OK },
        ActionView::Respond { status: STATUS_OK },
    )
}

/// Reply after a fatal upstream failure.
pub open spec fn failed_response() -> (HandlerStateView, ActionView) {
    (
        HandlerStateView::Finished { status: STATUS_INTERNAL_SERVER_ERROR },
        ActionView::Respond { status: STATUS_INTERNAL_SERVER_ERROR },
    )
}

/// How a request begins, given the decoded body (`None` for a body that did
/// not decode): acknowledge every non-actionable shape on the spot, and
/// start enrichment with a job fetch for a failed pipeline that references a
/// merge request.
pub open spec fn spec_start(decoded: Option<InboundEvent>) -> (HandlerStateView, ActionView) {
    match decoded {
        Some(InboundEvent::Pipeline(ev)) => {
            if ev.status != PipelineStatus::Failed {
                acknowledged()
            } else {
                match ev.merge_request_id {
                    Some(merge_request_id) => (
                        HandlerStateView::AwaitingJobs {
                            project_id: ev.project_id,
                            pipeline_id: ev.pipeline_id,
                            merge_request_id,
                        },
                        ActionView::FetchJobs {
                            project_id: ev.project_id,
                            pipeline_id: ev.pipeline_id,
                        },
                    ),
                    None => acknowledged(),
                }
            }
        },
        Some(InboundEvent::Other) => acknowledged(),
        None => acknowledged(),
    }
}

/// Which outcome a state is waiting for. A finished request waits for
/// nothing, and a merger lookup only happens for a detail that names a
/// merger.
pub open spec fn spec_expects(state: HandlerStateView, outcome: CallOutcomeView) -> bool {
    match (state, outcome) {
        (HandlerStateView::AwaitingJobs { .. }, CallOutcomeView::JobsFetched(_)) => true,
        (
            HandlerStateView::AwaitingMergeRequest { .. },
            CallOutcomeView::MergeRequestFetched(_),
        ) => true,
        (HandlerStateView::AwaitingAuthor { .. }, CallOutcomeView::UserLookedUp(_)) => true,
        (
            HandlerStateView::AwaitingMerger { detail, .. },
            CallOutcomeView::UserLookedUp(_),
        ) => detail.merger is Some,
        (HandlerStateView::AwaitingDelivery { .. }, CallOutcomeView::MessagePosted(_)) => true,
        _ => false,
    }
}

/// The transition a request makes on the outcome of the call it issued:
/// a failed job fetch, merge-request fetch or delivery is fatal (500); a
/// directory lookup degrades to the raw username and never aborts; delivery
/// success answers 200.
pub open spec fn spec_step(state: HandlerStateView, outcome: CallOutcomeView) -> (
    HandlerStateView,
    ActionView,
) {
    match (state, outcome) {
        (
            HandlerStateView::AwaitingJobs { project_id, pipeline_id: _, merge_request_id },
            CallOutcomeView::JobsFetched(result),
        ) => {
            match result {
                Ok(jobs) => (
                    HandlerStateView::AwaitingMergeRequest {
                        project_id,
                        merge_request_id,
                        failed_jobs: failed_jobs_of(jobs),
                    },
                    ActionView::FetchMergeRequest { project_id, merge_request_id },
                ),
                Err(_) => failed_response(),
            }
        },
        (
            HandlerStateView::AwaitingMergeRequest { failed_jobs, .. },
            CallOutcomeView::MergeRequestFetched(result),
        ) => {
            match result {
                Ok(detail) => (
                    HandlerStateView::AwaitingAuthor { detail, failed_jobs },
                    ActionView::LookupUser { username: detail.author },
                ),
                Err(_) => failed_response(),
            }
        },
        (
            HandlerStateView::AwaitingAuthor { detail, failed_jobs },
            CallOutcomeView::UserLookedUp(lookup),
        ) => {
            let author_mention = resolved_mention(detail.author, lookup);
            match detail.merger {
                Some(merger) => (
                    HandlerStateView::AwaitingMerger { detail, failed_jobs, author_mention },
                    ActionView::LookupUser { username: merger },
                ),
                None => (
                    HandlerStateView::AwaitingDelivery {
                        message: message_text(detail, author_mention, None, failed_jobs),
                    },
                    ActionView::PostMessage {
                        text: message_text(detail, author_mention, None, failed_jobs),
                    },
                ),
            }
        },
        (
            HandlerStateView::AwaitingMerger { detail, failed_jobs, author_mention },
            CallOutcomeView::UserLookedUp(lookup),
        ) => {
            let merger_mention = resolved_mention(detail.merger->0, lookup);
            (
                HandlerStateView::AwaitingDelivery {
                    message: message_text(detail, author_mention, Some(merger_mention), failed_jobs),
                },
                ActionView::PostMessage {
                    text: message_text(detail, author_mention, Some(merger_mention), failed_jobs),
                },
            )
        },
        (HandlerStateView::AwaitingDelivery { .. }, CallOutcomeView::MessagePosted(result)) => {
            match result {
                Ok(_) => acknowledged(),
                Err(_) => failed_response(),
            }
        },
        _ => failed_response(),
    }
}

/// 200 reply with nothing more to do.
fn acknowledge_now() -> (done: (HandlerState, Action))
    ensures
        done.0@ == acknowledged().0,
        done.1@ == acknowledged().1,
{
    (
        HandlerState::Finished { status: STATUS_OK },
        Action::Respond { status: STATUS_OK },
    )
}

/// 500 reply after an upstream failure.
fn fail_now() -> (done: (HandlerState, Action))
    ensures
        done.0@ == failed_response().0,
        done.1@ == failed_response().1,
{
    (
        HandlerState::Finished { status: STATUS_INTERNAL_SERVER_ERROR },
        Action::Respond { status: STATUS_INTERNAL_SERVER_ERROR },
    )
}

/// Begins a request from the decoded body. `None` stands for a body that did
/// not decode as a recognized event; it is acknowledged with 200 -- a
/// malformed payload never becomes well-formed on retry, so acknowledging
/// stops the platform's retries.
pub fn start(decoded: Option<InboundEvent>) -> (begun: (HandlerState, Action))
    ensures
        begun.0@ == spec_start(decoded).0,
        begun.1@ == spec_start(decoded).1,
{
    match decoded {
        Some(InboundEvent::Pipeline(ev)) => {
            if ev.status != PipelineStatus::Failed {
                acknowledge_now()
            } else {
                match ev.merge_request_id {
                    Some(merge_request_id) => (
                        HandlerState::AwaitingJobs {
                            project_id: ev.project_id,
                            pipeline_id: ev.pipeline_id,
                            merge_request_id,
                        },
                        Action::FetchJobs {
                            project_id: ev.project_id,
                            pipeline_id: ev.pipeline_id,
                        },
                    ),
                    None => acknowledge_now(),
                }
            }
        },
        Some(InboundEvent::Other) => acknowledge_now(),
        None => acknowledge_now(),
    }
}

/// Whether `outcome` answers the call `state` is waiting for. The caller
/// checks this before stepping; within one request the calls are strictly
/// sequential, so nothing else can arrive.
pub fn outcome_matches(state: &HandlerState, outcome: &CallOutcome) -> (ok: bool)
    ensures
        ok == spec_expects(state@, outcome@),
{
    match (state, outcome) {
        (HandlerState::AwaitingJobs { .. }, CallOutcome::JobsFetched(_)) => true,
        (HandlerState::AwaitingMergeRequest { .. }, CallOutcome::MergeRequestFetched(_)) => true,
        (HandlerState::AwaitingAuthor { .. }, CallOutcome::UserLookedUp(_)) => true,
        (HandlerState::AwaitingMerger { detail, .. }, CallOutcome::UserLookedUp(_)) => {
            detail.merger_username.is_some()
        },
        (HandlerState::AwaitingDelivery { .. }, CallOutcome::MessagePosted(_)) => true,
        _ => false,
    }
}

/// One step of the request: consumes the outcome of the call the state was
/// waiting for and yields the next state and the next thing to do.
pub fn step(state: HandlerState, outcome: CallOutcome) -> (next: (HandlerState, Action))
    requires
        spec_expects(state@, outcome@),
    ensures
        next.0@ == spec_step(state@, outcome@).0,
        next.1@ == spec_step(state@, outcome@).1,
{
    match (state, outcome) {
        (
            HandlerState::AwaitingJobs { project_id, pipeline_id: _, merge_request_id },
            CallOutcome::JobsFetched(result),
        ) => {
            match result {
                Ok(jobs) => {
                    let failed_jobs = filter_failed_jobs(jobs);
                    (
                        HandlerState::AwaitingMergeRequest {
                            project_id,
                            merge_request_id,
                            failed_jobs,
                        },
                        Action::FetchMergeRequest { project_id, merge_request_id },
                    )
                },
                Err(_) => fail_now(),
            }
        },
        (
            HandlerState::AwaitingMergeRequest { failed_jobs, .. },
            CallOutcome::MergeRequestFetched(result),
        ) => {
            match result {
                Ok(detail) => {
                    let username = detail.author_username.clone();
                    (
                        HandlerState::AwaitingAuthor { detail, failed_jobs },
                        Action::LookupUser { username },
                    )
                },
                Err(_) => fail_now(),
            }
        },
        (
            HandlerState::AwaitingAuthor { detail, failed_jobs },
            CallOutcome::UserLookedUp(lookup),
        ) => {
            let author_mention = resolve_mention(&detail.author_username, lookup);
            match &detail.merger_username {
                Some(merger) => {
                    let username = merger.clone();
                    (
                        HandlerState::AwaitingMerger { detail, failed_jobs, author_mention },
                        Action::LookupUser { username },
                    )
                },
                None => {
                    let text = compose_message(&detail, &author_mention, &None, &failed_jobs);
                    let message = text.clone();
                    (
                        HandlerState::AwaitingDelivery { message },
                        Action::PostMessage { text },
                    )
                },
            }
        },
        (
            HandlerState::AwaitingMerger { detail, failed_jobs, author_mention },
            CallOutcome::UserLookedUp(lookup),
        ) => {
            let merger_mention = match &detail.merger_username {
                Some(merger) => Some(resolve_mention(merger, lookup)),
                None => unreached(),
            };
            let text = compose_message(&detail, &author_mention, &merger_mention, &failed_jobs);
            let message = text.clone();
            (
                HandlerState::AwaitingDelivery { message },
                Action::PostMessage { text },
            )
        },
        (HandlerState::AwaitingDelivery { .. }, CallOutcome::MessagePosted(result)) => {
            match result {
                Ok(_) => acknowledge_now(),
                Err(_) => fail_now(),
            }
        },
        _ => unreached(),
    }
}

/// An event whose pipeline status is anything but failed is acknowledged at
/// once: the reply is 200 and the finished request expects no outcome, so no
/// outbound call is ever made for it.
pub proof fn lemma_non_failed_acknowledged(ev: PipelineEvent)
    requires
        ev.status != PipelineStatus::Failed,
    ensures
        spec_start(Some(InboundEvent::Pipeline(ev))) == acknowledged(),
        forall|outcome: CallOutcomeView|
            !spec_expects(spec_start(Some(InboundEvent::Pipeline(ev))).0, outcome),
{
}

/// A pipeline event without a merge-request reference is acknowledged at
/// once, whatever its status: 200, and no outbound call.
pub proof fn lemma_no_merge_request_acknowledged(ev: PipelineEvent)
    requires
        ev.merge_request_id is None,
    ensures
        spec_start(Some(InboundEvent::Pipeline(ev))) == acknowledged(),
        forall|outcome: CallOutcomeView|
            !spec_expects(spec_start(Some(InboundEvent::Pipeline(ev))).0, outcome),
{
}

/// A body that did not decode as a recognized event is acknowledged with 200
/// -- never a 4xx or 5xx -- and no outbound call is made for it.
pub proof fn lemma_malformed_acknowledged()
    ensures
        spec_start(None) == acknowledged(),
        spec_start(None).1 == (ActionView::Respond { status: 200u16 }),
        forall|outcome: CallOutcomeView| !spec_expects(spec_start(None).0, outcome),
{
}

/// An event of a recognized kind other than pipeline is acknowledged the
/// same way.
pub proof fn lemma_non_pipeline_acknowledged()
    ensures
        spec_start(Some(InboundEvent::Other)) == acknowledged(),
        forall|outcome: CallOutcomeView|
            !spec_expects(spec_start(Some(InboundEvent::Other)).0, outcome),
{
}

/// Which outcomes report an upstream failure.
pub open spec fn is_upstream_failure(outcome: CallOutcomeView) -> bool {
    match outcome {
        CallOutcomeView::JobsFetched(result) => result is Err,
        CallOutcomeView::MergeRequestFetched(result) => result is Err,
        CallOutcomeView::UserLookedUp(_) => false,
        CallOutcomeView::MessagePosted(result) => result is Err,
    }
}

/// Upstream failures are uniformly fatal: whichever awaited call failed --
/// the job list, the merge-request detail, or the delivery -- the request
/// ends with 500, and no further outbound call is expected, so no partial
/// notification is ever sent.
pub proof fn lemma_upstream_failure_fatal(state: HandlerStateView, outcome: CallOutcomeView)
    requires
        spec_expects(state, outcome),
        is_upstream_failure(outcome),
    ensures
        spec_step(state, outcome) == failed_response(),
        forall|later: CallOutcomeView| !spec_expects(spec_step(state, outcome).0, later),
{
}

/// A failed delivery in particular ends the request with 500, never 200,
/// however far enrichment had come.
pub proof fn lemma_delivery_failure_fatal(message: Seq<char>, error: UpstreamError)
    ensures
        spec_step(
            HandlerStateView::AwaitingDelivery { message },
            CallOutcomeView::MessagePosted(Err(error)),
        ) == failed_response(),
{
}

/// A full happy-path run for a merge request that was never merged: an
/// actionable event, a successful job fetch, a successful detail fetch and
/// one author lookup post exactly the composed text -- the failed jobs in
/// their original order, the author resolved from the one lookup -- and a
/// successful delivery answers 200.
pub proof fn lemma_successful_run_posts_composed_message(
    ev: PipelineEvent,
    jobs: Seq<JobView>,
    detail: MergeRequestView,
    lookup: Option<Seq<char>>,
)
    requires
        ev.status == PipelineStatus::Failed,
        ev.merge_request_id is Some,
        detail.merger is None,
    ensures
        ({
            let begun = spec_start(Some(InboundEvent::Pipeline(ev)));
            let after_jobs = spec_step(begun.0, CallOutcomeView::JobsFetched(Ok(jobs)));
            let after_detail = spec_step(
                after_jobs.0,
                CallOutcomeView::MergeRequestFetched(Ok(detail)),
            );
            let after_author = spec_step(after_detail.0, CallOutcomeView::UserLookedUp(lookup));
            let after_delivery = spec_step(
                after_author.0,
                CallOutcomeView::MessagePosted(Ok(())),
            );
            &&& after_author.1 == (ActionView::PostMessage {
                text: message_text(
                    detail,
                    resolved_mention(detail.author, lookup),
                    None,
                    failed_jobs_of(jobs),
                ),
            })
            &&& after_delivery == acknowledged()
        }),
{
}

/// The happy-path run for a merge request that was merged: after the author
/// lookup the handler looks up the merger too -- once per username, whether
/// or not the two are equal -- and the posted text carries both mentions,
/// each resolved from its own lookup.
pub proof fn lemma_successful_run_with_merger_posts_composed_message(
    ev: PipelineEvent,
    jobs: Seq<JobView>,
    detail: MergeRequestView,
    author_lookup: Option<Seq<char>>,
    merger_lookup: Option<Seq<char>>,
)
    requires
        ev.status == PipelineStatus::Failed,
        ev.merge_request_id is Some,
        detail.merger is Some,
    ensures
        ({
            let begun = spec_start(Some(InboundEvent::Pipeline(ev)));
            let after_jobs = spec_step(begun.0, CallOutcomeView::JobsFetched(Ok(jobs)));
            let after_detail = spec_step(
                after_jobs.0,
                CallOutcomeView::MergeRequestFetched(Ok(detail)),
            );
            let after_author = spec_step(
                after_detail.0,
                CallOutcomeView::UserLookedUp(author_lookup),
            );
            let after_merger = spec_step(
                after_author.0,
                CallOutcomeView::UserLookedUp(merger_lookup),
            );
            let after_delivery = spec_step(
                after_merger.0,
                CallOutcomeView::MessagePosted(Ok(())),
            );
            &&& after_author.1 == (ActionView::LookupUser { username: detail.merger->0 })
            &&& after_merger.1 == (ActionView::PostMessage {
                text: message_text(
                    detail,
                    resolved_mention(detail.author, author_lookup),
                    Some(resolved_mention(detail.merger->0, merger_lookup)),
                    failed_jobs_of(jobs),
                ),
            })
            &&& after_delivery == acknowledged()
        }),
{
}

/// A directory lookup never fails the request: whatever it yielded, the
/// handler proceeds to the next lookup or to delivery. This is the one
/// component that degrades instead of aborting.
pub proof fn lemma_lookup_never_fatal(state: HandlerStateView, lookup: Option<Seq<char>>)
    requires
        spec_expects(state, CallOutcomeView::UserLookedUp(lookup)),
    ensures
        spec_step(state, CallOutcomeView::UserLookedUp(lookup)).1 is LookupUser || spec_step(
            state,
            CallOutcomeView::UserLookedUp(lookup),
        ).1 is PostMessage,
{
}

} // verus!
