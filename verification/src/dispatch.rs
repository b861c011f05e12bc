//! What is done with a bulk status request: a small batch is updated at once, a larger one is
//! stored as a job that runs in the background, and the caller is told which.

use vstd::prelude::*;
use vstd::string::*;

use crate::error::AppError;
use crate::ids::Uuid;
use crate::job::JobRun;
use crate::request::{validate_request, BulkStatusRequest};
use crate::text::decimal;

verus! {

use crate::ids::{distinct_ids_have_distinct_texts, hyphenated};
use crate::job::queued;
use crate::request::{rejection, BulkStatusRequestView};
use crate::text::decimal_text;

/// Why one transaction of a batch could not be moved.
#[derive(Debug)]
pub struct BulkUpdateError {
    pub transaction_id: Uuid,
    pub error: String,
}

/// What an update of a batch did.
#[derive(Debug)]
pub struct BulkUpdateResult {
    pub updated: usize,
    pub failed: usize,
    pub errors: Vec<BulkUpdateError>,
}

/// The answer to a batch that was updated at once.
#[derive(Debug)]
pub struct BulkStatusResponse {
    pub updated: usize,
    pub failed: usize,
    pub errors: Vec<BulkUpdateError>,
}

/// The answer to a batch that was stored as a job.
#[derive(Debug)]
pub struct BulkStatusJobQueued {
    pub job_id: Uuid,
    pub status: &'static str,
    pub message: String,
}

/// How many transactions were moved, how many were not, and why not: the model of every
/// report on a batch.
pub struct Tally {
    pub updated: nat,
    pub failed: nat,
    pub errors: Seq<BulkUpdateError>,
}

impl View for BulkUpdateResult {
    type V = Tally;

    open spec fn view(&self) -> Tally {
        Tally { updated: self.updated as nat, failed: self.failed as nat, errors: self.errors@ }
    }
}

impl View for BulkStatusResponse {
    type V = Tally;

    open spec fn view(&self) -> Tally {
        Tally { updated: self.updated as nat, failed: self.failed as nat, errors: self.errors@ }
    }
}

/// One update of transactions: which, to what status, for what reason, and on whose behalf.
#[derive(Debug)]
pub struct UpdateCall<'a> {
    pub transaction_ids: &'a [Uuid],
    pub status: &'a str,
    pub reason: Option<&'a str>,
    pub actor: &'a str,
}

/// The model of an [`UpdateCall`].
pub struct UpdateCallView {
    pub transaction_ids: Seq<Uuid>,
    pub status: Seq<char>,
    pub reason: Option<Seq<char>>,
    pub actor: Seq<char>,
}

/// The text of an optional string slice, where there is one.
pub open spec fn optional_slice_text(text: Option<&str>) -> Option<Seq<char>> {
    match text {
        Some(t) => Some(t@),
        None => None,
    }
}

impl<'a> View for UpdateCall<'a> {
    type V = UpdateCallView;

    open spec fn view(&self) -> UpdateCallView {
        UpdateCallView {
            transaction_ids: self.transaction_ids@,
            status: self.status@,
            reason: optional_slice_text(self.reason),
            actor: self.actor@,
        }
    }
}

/// The columns of a new job: the job is stored with the status `pending`.
#[derive(Debug)]
pub struct NewJob<'a> {
    pub transaction_ids: &'a [Uuid],
    pub target_status: &'a str,
    pub reason: Option<&'a str>,
    pub actor: &'a str,
}

impl<'a> View for NewJob<'a> {
    type V = UpdateCallView;

    open spec fn view(&self) -> UpdateCallView {
        UpdateCallView {
            transaction_ids: self.transaction_ids@,
            status: self.target_status@,
            reason: optional_slice_text(self.reason),
            actor: self.actor@,
        }
    }
}

/// What is to be done with an acceptable request.
#[derive(Debug)]
pub enum DispatchAction<'a> {
    /// Update the transactions now; the answer is [`update_reply`].
    Update(UpdateCall<'a>),
    /// Store a job; the answer is [`enqueue_reply`].
    Enqueue(NewJob<'a>),
}

/// The model of a [`DispatchAction`].
pub enum DispatchActionView {
    Update(UpdateCallView),
    Enqueue(UpdateCallView),
}

impl<'a> View for DispatchAction<'a> {
    type V = DispatchActionView;

    open spec fn view(&self) -> DispatchActionView {
        match self {
            DispatchAction::Update(call) => DispatchActionView::Update(call@),
            DispatchAction::Enqueue(job) => DispatchActionView::Enqueue(job@),
        }
    }
}

/// The body of the answer to an accepted request.
#[derive(Debug)]
pub enum Reply {
    /// The batch was updated at once.
    Updated(BulkStatusResponse),
    /// The batch was stored as a job.
    Queued(BulkStatusJobQueued),
}

/// The update that a request asks for, whether it is made at once or by a job.
pub open spec fn requested_update(request: BulkStatusRequestView) -> UpdateCallView {
    UpdateCallView {
        transaction_ids: request.transaction_ids,
        status: request.status,
        reason: request.reason,
        actor: "admin"@,
    }
}

/// What is done with an acceptable request: batches of at most `threshold` transactions are
/// updated at once.
pub open spec fn dispatched(
    request: BulkStatusRequestView,
    threshold: usize,
) -> DispatchActionView {
    if request.transaction_ids.len() <= threshold {
        DispatchActionView::Update(requested_update(request))
    } else {
        DispatchActionView::Enqueue(requested_update(request))
    }
}

/// Where the state of a job can be read.
pub open spec fn poll_path(job_id: Uuid) -> Seq<char> {
    "/admin/transactions/bulk-status/jobs/"@ + hyphenated(job_id)
}

/// What the caller is told of a batch of `count` transactions that was stored as a job.
pub open spec fn queued_text(count: nat, job_id: Uuid) -> Seq<char> {
    "Batch of "@ + decimal_text(count) + " transactions queued as async job. Poll GET "@
        + poll_path(job_id) + " for results."@
}

/// The slice of an optional string, where there is one.
pub(crate) fn optional_str<'a>(text: &'a Option<String>) -> (slice: Option<&'a str>)
    ensures
        optional_slice_text(slice) == crate::request::optional_text(*text),
{
    match text {
        Some(t) => Some(t.as_str()),
        None => None,
    }
}

/// Checks a request and decides what is to be done with it, given the largest batch that is
/// processed at once.
pub fn dispatch<'a>(payload: &'a BulkStatusRequest, threshold: usize) -> (decided: Result<
    DispatchAction<'a>,
    AppError,
>)
    ensures
        match decided {
            Ok(action) => rejection(payload@) is None && action@ == dispatched(payload@, threshold),
            Err(error) => rejection(payload@) == Some(error@),
        },
        match decided {
            Ok(DispatchAction::Update(call)) => {
                &&& payload.transaction_ids@.len() <= threshold
                &&& call.transaction_ids@ == payload.transaction_ids@
                &&& call.status@ == payload.status@
                &&& payload.reason is Some <==> call.reason is Some
                &&& payload.reason is Some ==> call.reason->0@ == payload.reason->0@
                &&& call.actor@ == "admin"@
            },
            Ok(DispatchAction::Enqueue(job)) => {
                &&& payload.transaction_ids@.len() > threshold
                &&& job.transaction_ids@ == payload.transaction_ids@
                &&& job.target_status@ == payload.status@
                &&& payload.reason is Some <==> job.reason is Some
                &&& payload.reason is Some ==> job.reason->0@ == payload.reason->0@
                &&& job.actor@ == "admin"@
            },
            Err(_) => true,
        },
        decided is Ok <==> 0 < payload.transaction_ids@.len() <= 10_000 && (payload.status@
            == "pending"@ || payload.status@ == "processing"@ || payload.status@ == "completed"@
            || payload.status@ == "failed"@),
{
    match validate_request(payload) {
        Err(error) => Err(error),
        Ok(()) => if payload.transaction_ids.len() <= threshold {
            Ok(
                DispatchAction::Update(
                    UpdateCall {
                        transaction_ids: payload.transaction_ids.as_slice(),
                        status: payload.status.as_str(),
                        reason: optional_str(&payload.reason),
                        actor: "admin",
                    },
                ),
            )
        } else {
            Ok(DispatchAction::Enqueue(enqueue_job(payload)))
        },
    }
}

/// The job that a request is stored as.
pub fn enqueue_job<'a>(payload: &'a BulkStatusRequest) -> (job: NewJob<'a>)
    ensures
        job@ == requested_update(payload@),
        job.transaction_ids@ == payload.transaction_ids@,
        job.target_status@ == payload.status@,
        payload.reason is Some <==> job.reason is Some,
        payload.reason is Some ==> job.reason->0@ == payload.reason->0@,
        job.actor@ == "admin"@,
{
    NewJob {
        transaction_ids: payload.transaction_ids.as_slice(),
        target_status: payload.status.as_str(),
        reason: optional_str(&payload.reason),
        actor: "admin",
    }
}

/// The answer to a batch that was to be updated at once: what the update did, or the error
/// that it ended with.
pub fn update_reply<E>(outcome: Result<BulkUpdateResult, E>) -> (reply: Result<Reply, E>)
    ensures
        match outcome {
            Ok(result) => {
                &&& reply matches Ok(Reply::Updated(response))
                &&& response@ == result@
                &&& response.updated == result.updated
                &&& response.failed == result.failed
                &&& response.errors@ == result.errors@
            },
            Err(error) => reply == Err::<Reply, E>(error),
        },
{
    match outcome {
        Ok(result) => Ok(
            Reply::Updated(
                BulkStatusResponse {
                    updated: result.updated,
                    failed: result.failed,
                    errors: result.errors,
                },
            ),
        ),
        Err(error) => Err(error),
    }
}

/// The answer to a batch that was to be stored as a job, and the run of that job, which is to be
/// driven in the background: the answer gives the identifier that the job was stored under and
/// where its state can be read. Where the job could not be stored, there is only the error.
pub fn enqueue_reply<E>(payload: &BulkStatusRequest, outcome: Result<Uuid, E>) -> (reply: Result<
    (Reply, JobRun),
    E,
>)
    ensures
        match outcome {
            Ok(job_id) => {
                &&& reply matches Ok((Reply::Queued(answer), run))
                &&& answer.job_id == job_id
                &&& answer.status@ == "pending"@
                &&& answer.message@ == queued_text(payload@.transaction_ids.len(), job_id)
                &&& answer.message@ == "Batch of "@ + decimal_text(payload.transaction_ids@.len())
                    + " transactions queued as async job. Poll GET "@
                    + "/admin/transactions/bulk-status/jobs/"@ + hyphenated(job_id)
                    + " for results."@
                &&& run@ == queued(job_id, requested_update(payload@))
            },
            Err(error) => reply == Err::<(Reply, JobRun), E>(error),
        },
{
    match outcome {
        Ok(job_id) => {
            let mut message = "Batch of ".to_owned();
            message.append(decimal(payload.transaction_ids.len()).as_str());
            message.append(" transactions queued as async job. Poll GET ");
            message.append("/admin/transactions/bulk-status/jobs/");
            message.append(job_id.to_text().as_str());
            message.append(" for results.");
            proof {
                assert(message@ =~= queued_text(payload@.transaction_ids.len(), job_id));
                assert(message@ =~= "Batch of "@ + decimal_text(payload.transaction_ids@.len())
                    + " transactions queued as async job. Poll GET "@
                    + "/admin/transactions/bulk-status/jobs/"@ + hyphenated(job_id)
                    + " for results."@);
            }
            let answer = BulkStatusJobQueued { job_id, status: "pending", message };
            Ok((Reply::Queued(answer), JobRun::start(job_id, payload)))
        },
        Err(error) => Err(error),
    }
}

impl Reply {
    /// The HTTP status of the answer: `200 OK` for a batch that was updated, `202 Accepted`
    /// for one that was stored as a job.
    pub fn status_code(&self) -> (code: u16)
        ensures
            code == (if self is Updated { 200u16 } else { 202u16 }),
    {
        match self {
            Reply::Updated(_) => 200,
            Reply::Queued(_) => 202,
        }
    }
}

/// A batch of exactly `threshold` transactions is updated at once; one more, and it is stored as
/// a job.
pub proof fn threshold_boundary(request: BulkStatusRequestView, threshold: usize)
    ensures
        request.transaction_ids.len() == threshold ==> dispatched(request, threshold) is Update,
        request.transaction_ids.len() == threshold + 1 ==> dispatched(request, threshold)
            is Enqueue,
        dispatched(request, threshold) is Update <==> request.transaction_ids.len() <= threshold,
{
}

/// A threshold of 10,000 or more stores nothing:
/// every request that is not refused is updated at once.
pub proof fn largest_threshold(request: BulkStatusRequestView, threshold: usize)
    requires
        threshold >= 10_000,
        rejection(request) is None,
    ensures
        dispatched(request, threshold) is Update,
{
}

/// Two jobs are never polled at the same address.
pub proof fn jobs_have_distinct_addresses(a: Uuid, b: Uuid)
    requires
        a != b,
    ensures
        poll_path(a) != poll_path(b),
{
    distinct_ids_have_distinct_texts(a, b);
    let start = "/admin/transactions/bulk-status/jobs/"@;
    assert(poll_path(a).skip(start.len() as int) =~= hyphenated(a));
    assert(poll_path(b).skip(start.len() as int) =~= hyphenated(b));
}

} // verus!
