//! What holds of every request, of what is done with it, and of the models of requests, updates
//! and reports.

use vstd::prelude::*;

verus! {

use crate::dispatch::{
    dispatched, poll_path, queued_text, requested_update, BulkStatusResponse, BulkUpdateResult,
    DispatchAction, DispatchActionView, NewJob, UpdateCall,
};
use crate::error::{AppError, AppErrorView};
use crate::ids::{hyphenated, Uuid};
use crate::job::{
    ColumnUpdate, JobAction, JobActionView, JobEvent, JobEventView, JobSummary,
};
use crate::poll::job_not_found;
use crate::request::{
    acceptable_requests, invalid_status_is_explained, rejection, threshold_of, BulkStatusRequest,
    BulkStatusRequestView,
};
use crate::text::{decimal_text, parsed_usize};

/// Whether a transaction can be moved to a status.
pub open spec fn is_transaction_status(status: Seq<char>) -> bool {
    status == "pending"@ || status == "processing"@ || status == "completed"@ || status
        == "failed"@
}

/// What a request is refused with: for naming no transaction, for naming more than 10,000, or, if
/// it does neither, for its status. A request that gives none of these reasons is not refused.
pub proof fn refusals(request: BulkStatusRequestView)
    ensures
        request.transaction_ids.len() == 0 ==> rejection(request) == Some(
            AppErrorView::BadRequest("transaction_ids must not be empty"@),
        ),
        request.transaction_ids.len() > 10_000 ==> rejection(request) == Some(
            AppErrorView::BadRequest("transaction_ids must not exceed 10,000 items per request"@),
        ),
        0 < request.transaction_ids.len() <= 10_000 && !is_transaction_status(request.status)
            ==> rejection(request) == Some(
            AppErrorView::Validation(
                "invalid status '"@ + request.status
                    + "', must be one of: pending, processing, completed, failed"@,
            ),
        ),
        0 < request.transaction_ids.len() <= 10_000 && is_transaction_status(request.status)
            ==> rejection(request) is None,
{
    acceptable_requests(request);
    invalid_status_is_explained(request.status);
}

/// Which transactions a request names, and why they are to be moved, plays no part in whether it
/// is refused: only how many they are, and the status.
pub proof fn only_count_and_status_decide(a: BulkStatusRequestView, b: BulkStatusRequestView)
    requires
        a.transaction_ids.len() == b.transaction_ids.len(),
        a.status == b.status,
    ensures
        rejection(a) == rejection(b),
{
}

/// A setting gives its number where it is one, and 50 where it is none or not there.
pub proof fn threshold_of_settings(setting: Seq<char>)
    ensures
        threshold_of(None) == 50,
        threshold_of(Some(setting)) == (match parsed_usize(setting) {
            Some(number) => number,
            None => 50,
        }),
{
}

/// The update that is made for a request carries what the request holds, unchanged: all its
/// transactions, its status and its reason. It is made on behalf of `admin`.
pub proof fn update_carries_the_request(request: BulkStatusRequestView)
    ensures
        requested_update(request).transaction_ids == request.transaction_ids,
        requested_update(request).status == request.status,
        requested_update(request).reason == request.reason,
        requested_update(request).actor == "admin"@,
{
}

/// Whether a batch is updated at once or stored as a job, it is the same update; and two requests
/// that differ in their transactions, their status or their reason never make the same one.
pub proof fn nothing_of_a_request_is_lost(
    a: BulkStatusRequestView,
    b: BulkStatusRequestView,
    s: usize,
    t: usize,
)
    ensures
        match (dispatched(a, s), dispatched(a, t)) {
            (DispatchActionView::Update(x), DispatchActionView::Update(y)) => x == y,
            (DispatchActionView::Update(x), DispatchActionView::Enqueue(y)) => x == y,
            (DispatchActionView::Enqueue(x), DispatchActionView::Update(y)) => x == y,
            (DispatchActionView::Enqueue(x), DispatchActionView::Enqueue(y)) => x == y,
        },
        dispatched(a, s) == dispatched(b, s) ==> a == b,
{
}

/// A batch of at most the threshold is updated at once, with what its request holds; any other is
/// stored as a job, with the same.
pub proof fn batch_size_decides(request: BulkStatusRequestView, threshold: usize)
    ensures
        request.transaction_ids.len() <= threshold ==> {
            &&& dispatched(request, threshold) matches DispatchActionView::Update(call)
            &&& call.transaction_ids == request.transaction_ids
            &&& call.status == request.status
            &&& call.reason == request.reason
            &&& call.actor == "admin"@
        },
        request.transaction_ids.len() > threshold ==> {
            &&& dispatched(request, threshold) matches DispatchActionView::Enqueue(job)
            &&& job.transaction_ids == request.transaction_ids
            &&& job.status == request.status
            &&& job.reason == request.reason
            &&& job.actor == "admin"@
        },
{
}

/// The caller of a stored batch is told how many transactions it has, and to poll the address of
/// exactly its job.
pub proof fn queued_answer(count: nat, job_id: Uuid)
    ensures
        poll_path(job_id) == "/admin/transactions/bulk-status/jobs/"@ + hyphenated(job_id),
        queued_text(count, job_id) == "Batch of "@ + decimal_text(count)
            + " transactions queued as async job. Poll GET "@
            + "/admin/transactions/bulk-status/jobs/"@ + hyphenated(job_id) + " for results."@,
{
    assert(queued_text(count, job_id) =~= "Batch of "@ + decimal_text(count)
        + " transactions queued as async job. Poll GET "@
        + "/admin/transactions/bulk-status/jobs/"@ + hyphenated(job_id) + " for results."@);
}

/// A job that does not exist is reported as not found, by its identifier.
pub proof fn missing_job_is_named(job_id: Uuid)
    ensures
        job_not_found(job_id) == AppErrorView::NotFound(
            "Bulk status job "@ + hyphenated(job_id) + " not found"@,
        ),
{
}

/// The model of a request holds each of its fields.
pub proof fn request_model(request: BulkStatusRequest)
    ensures
        request@.transaction_ids == request.transaction_ids@,
        request@.status == request.status@,
        request@.reason is Some <==> request.reason is Some,
        request.reason matches Some(text) ==> request@.reason == Some(text@),
{
}

/// The model of an update holds each of its fields.
pub proof fn update_model(call: UpdateCall<'_>)
    ensures
        call@.transaction_ids == call.transaction_ids@,
        call@.status == call.status@,
        call@.reason is Some <==> call.reason is Some,
        call.reason matches Some(text) ==> call@.reason == Some(text@),
        call@.actor == call.actor@,
{
}

/// The model of a new job holds each of its fields.
pub proof fn new_job_model(job: NewJob<'_>)
    ensures
        job@.transaction_ids == job.transaction_ids@,
        job@.status == job.target_status@,
        job@.reason is Some <==> job.reason is Some,
        job.reason matches Some(text) ==> job@.reason == Some(text@),
        job@.actor == job.actor@,
{
}

/// The model of what is done with a request is that of the update or of the job.
pub proof fn dispatch_action_model(action: DispatchAction<'_>)
    ensures
        action matches DispatchAction::Update(call) ==> action@ == DispatchActionView::Update(
            call@,
        ),
        action matches DispatchAction::Enqueue(job) ==> action@ == DispatchActionView::Enqueue(
            job@,
        ),
{
}

/// The models of reports hold both counts and all errors.
pub proof fn report_models(
    result: BulkUpdateResult,
    response: BulkStatusResponse,
    summary: JobSummary,
)
    ensures
        result@.updated == result.updated,
        result@.failed == result.failed,
        result@.errors == result.errors@,
        response@.updated == response.updated,
        response@.failed == response.failed,
        response@.errors == response.errors@,
        summary@.updated == summary.updated,
        summary@.failed == summary.failed,
        summary@.errors == summary.errors@,
{
}

/// The model of an error holds its kind and its text.
pub proof fn error_model(error: AppError)
    ensures
        error matches AppError::BadRequest(text) ==> error@ == AppErrorView::BadRequest(text@),
        error matches AppError::Validation(text) ==> error@ == AppErrorView::Validation(text@),
        error matches AppError::NotFound(text) ==> error@ == AppErrorView::NotFound(text@),
{
}

/// The model of what comes of an action holds all that is reported.
pub proof fn event_model(event: JobEvent)
    ensures
        event is Saved ==> event@ == JobEventView::Saved,
        event matches JobEvent::SaveFailed(text) ==> event@ == JobEventView::SaveFailed(text@),
        event matches JobEvent::UpdateFailed(text) ==> event@ == JobEventView::UpdateFailed(text@),
        event matches JobEvent::Updated(result) ==> {
            &&& event@ matches JobEventView::Updated(tally)
            &&& tally.updated == result.updated
            &&& tally.failed == result.failed
            &&& tally.errors == result.errors@
        },
{
}

/// The model of an action holds all that it is to do.
pub proof fn job_action_model(action: JobAction<'_>)
    ensures
        action is MarkRunning ==> action@ == JobActionView::MarkRunning,
        action matches JobAction::Update(call) ==> action@ == JobActionView::Update(call@),
        action matches JobAction::MarkFailed(text) ==> action@ == JobActionView::MarkFailed(text@),
        action matches JobAction::MarkCompleted(summary) ==> {
            &&& action@ matches JobActionView::MarkCompleted(tally)
            &&& tally.updated == summary.updated
            &&& tally.failed == summary.failed
            &&& tally.errors == summary.errors@
        },
        action matches JobAction::Stop(outcome) ==> {
            &&& action@ matches JobActionView::Stop(end)
            &&& end is Ok <==> *outcome is Ok
            &&& *outcome matches Err(text) ==> end == Err::<(), Seq<char>>(text@)
        },
{
}

/// The model of what an action stores holds each of its fields.
pub proof fn columns_model(columns: ColumnUpdate<'_>)
    ensures
        columns@.status == columns.status,
        columns@.started == columns.started,
        columns@.completed == columns.completed,
        columns@.error_message is Some <==> columns.error_message is Some,
        columns.error_message matches Some(text) ==> columns@.error_message == Some(text@),
        columns@.result_summary is Some <==> columns.result_summary is Some,
        columns.result_summary matches Some(summary) ==> {
            &&& columns@.result_summary matches Some(tally)
            &&& tally.updated == summary.updated
            &&& tally.failed == summary.failed
            &&& tally.errors == summary.errors@
        },
{
}

} // verus!
