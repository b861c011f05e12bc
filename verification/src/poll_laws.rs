//! What a caller that polls a job is answered, from the request through the run of its job.
//!
//! A job is stored, its run stores how far it is, and a poll reads the row. These laws speak of
//! every row that holds what was stored; what the database is trusted with is only that the row
//! that it hands out does.

use vstd::prelude::*;

verus! {

use crate::dispatch::{requested_update, Tally, UpdateCallView};
use crate::ids::Uuid;
use crate::job::{
    next_action, observed, status_name, JobActionView, JobEventView, JobStatus, PhaseView,
};
use crate::job_laws::{
    after_events, can_come, completed_jobs_updated_everything, inserted, inserted_job_is_pending,
    lemma_well_formed_after, reports, stored_after, stored_job_tells_the_run, tells, total,
    StoredJob,
};
use crate::poll::{status_of, JobRow, Timestamp};
use crate::request::{optional_text, BulkStatusRequestView};

/// Whether `row` holds the stored job `job`: its columns, the number of its transactions, which is
/// not there for none, and what it did as the JSON that `encode` makes of it.
pub open spec fn holds(
    row: JobRow,
    job: StoredJob,
    encode: spec_fn(Tally) -> serde_json::Value,
) -> bool {
    &&& row.id == job.id
    &&& row.status@ == job.status
    &&& match row.transaction_count {
        Some(count) => 0 < count && count == job.order.transaction_ids.len(),
        None => job.order.transaction_ids.len() == 0,
    }
    &&& row.target_status@ == job.order.status
    &&& row.result_summary == (match job.result_summary {
        Some(tally) => Some(encode(tally)),
        None => None,
    })
    &&& optional_text(row.error_message) == job.error_message
    &&& row.created_at == job.created_at
    &&& row.started_at == job.started_at
    &&& row.completed_at == job.completed_at
}

/// What is stored of a job after these events of its run. The job was stored at the time
/// `created`, and what came of each event was stored at the time that stands in its place.
pub open spec fn stored_after_events(
    job_id: Uuid,
    order: UpdateCallView,
    created: Timestamp,
    events: Seq<JobEventView>,
    times: Seq<Timestamp>,
) -> StoredJob
    decreases events.len(),
{
    if events.len() == 0 {
        inserted(job_id, order, created)
    } else {
        stored_after(
            stored_after_events(job_id, order, created, events.drop_last(), times),
            after_events(job_id, order, events.drop_last()),
            events.last(),
            times[events.len() - 1],
        )
    }
}

/// Whether everything that was to be stored was stored.
pub open spec fn all_saved(events: Seq<JobEventView>) -> bool {
    forall|i: int| 0 <= i < events.len() ==> !(#[trigger] events[i] is SaveFailed)
}

/// After any events, what is stored of a job tells how far its run is.
proof fn lemma_stored_job_tells(
    job_id: Uuid,
    order: UpdateCallView,
    created: Timestamp,
    events: Seq<JobEventView>,
    times: Seq<Timestamp>,
)
    requires
        can_come(job_id, order, events),
    ensures
        tells(
            stored_after_events(job_id, order, created, events, times),
            after_events(job_id, order, events),
        ),
        stored_after_events(job_id, order, created, events, times).id == job_id,
        stored_after_events(job_id, order, created, events, times).order == order,
        stored_after_events(job_id, order, created, events, times).created_at == created,
    decreases events.len(),
{
    if events.len() == 0 {
        inserted_job_is_pending(job_id, order, created);
    } else {
        let rest = events.drop_last();
        lemma_stored_job_tells(job_id, order, created, rest, times);
        lemma_well_formed_after(job_id, order, rest);
        stored_job_tells_the_run(
            stored_after_events(job_id, order, created, rest, times),
            after_events(job_id, order, rest),
            events.last(),
            times[events.len() - 1],
        );
    }
}

/// A poll of a job that was stored and has not begun to run is answered with its identifier, the
/// status `pending`, the number of transactions and the status that were requested, and the time
/// at which it was stored; there is no result, no error, no start and no end.
pub proof fn poll_of_a_queued_job(
    job_id: Uuid,
    request: BulkStatusRequestView,
    now: Timestamp,
    row: JobRow,
    encode: spec_fn(Tally) -> serde_json::Value,
)
    requires
        holds(row, inserted(job_id, requested_update(request), now), encode),
    ensures
        status_of(row).id == job_id,
        status_of(row).status@ == "pending"@,
        status_of(row).transaction_count == request.transaction_ids.len(),
        status_of(row).target_status@ == request.status,
        status_of(row).result_summary is None,
        status_of(row).error_message is None,
        status_of(row).created_at == now,
        status_of(row).started_at is None,
        status_of(row).completed_at is None,
{
}

/// At any point of the run of a job, a poll is answered with the number of transactions and the
/// status that were requested, the time at which the job was stored, and the status that the run
/// has come to; with a start once the job has started, the time of its end once it is completed or
/// failed, a result exactly when it is completed, and an error exactly when it failed.
pub proof fn poll_of_a_running_job(
    job_id: Uuid,
    request: BulkStatusRequestView,
    created: Timestamp,
    events: Seq<JobEventView>,
    times: Seq<Timestamp>,
    row: JobRow,
    encode: spec_fn(Tally) -> serde_json::Value,
)
    requires
        can_come(job_id, requested_update(request), events),
        holds(
            row,
            stored_after_events(job_id, requested_update(request), created, events, times),
            encode,
        ),
    ensures
        ({
            let status = after_events(job_id, requested_update(request), events).status;
            let over = status == JobStatus::Completed || status == JobStatus::Failed;
            &&& status_of(row).id == job_id
            &&& status_of(row).status@ == status_name(status)
            &&& status_of(row).transaction_count == request.transaction_ids.len()
            &&& status_of(row).target_status@ == request.status
            &&& status_of(row).created_at == created
            &&& status_of(row).started_at is Some <==> status != JobStatus::Pending
            &&& status_of(row).completed_at is Some <==> over
            &&& over ==> status_of(row).completed_at == Some(times[events.len() - 1])
            &&& status_of(row).result_summary is Some <==> status == JobStatus::Completed
            &&& status_of(row).error_message is Some <==> status == JobStatus::Failed
        }),
{
    let order = requested_update(request);
    lemma_stored_job_tells(job_id, order, created, events, times);
    if events.len() > 0 {
        lemma_well_formed_after(job_id, order, events.drop_last());
    }
}

/// What comes first is that the start was stored, or that it could not be.
proof fn lemma_first_event(job_id: Uuid, order: UpdateCallView, events: Seq<JobEventView>)
    requires
        can_come(job_id, order, events),
        events.len() > 0,
    ensures
        events[0] == JobEventView::Saved || events[0] is SaveFailed,
    decreases events.len(),
{
    if events.len() > 1 {
        lemma_first_event(job_id, order, events.drop_last());
        assert(events[0] == events.drop_last()[0]);
    } else {
        assert(events[0] == events.last());
    }
}

/// The stored start of a job is the time at which it was stored as running.
proof fn lemma_stored_start(
    job_id: Uuid,
    order: UpdateCallView,
    created: Timestamp,
    events: Seq<JobEventView>,
    times: Seq<Timestamp>,
)
    requires
        can_come(job_id, order, events),
        events.len() > 0,
        events[0] == JobEventView::Saved,
    ensures
        stored_after_events(job_id, order, created, events, times).started_at == Some(times[0]),
    decreases events.len(),
{
    let rest = events.drop_last();
    if rest.len() > 0 {
        assert(rest[0] == events[0]);
        lemma_stored_start(job_id, order, created, rest, times);
        lemma_stored_job_tells(job_id, order, created, rest, times);
        lemma_well_formed_after(job_id, order, rest);
        stored_job_tells_the_run(
            stored_after_events(job_id, order, created, rest, times),
            after_events(job_id, order, rest),
            events.last(),
            times[events.len() - 1],
        );
    } else {
        assert(events.last() == events[0]);
    }
}

/// The start that a poll is answered with is the time at which the job was stored as running, from
/// then on and also once the job is completed or failed.
pub proof fn poll_gives_the_start(
    job_id: Uuid,
    request: BulkStatusRequestView,
    created: Timestamp,
    events: Seq<JobEventView>,
    times: Seq<Timestamp>,
    row: JobRow,
    encode: spec_fn(Tally) -> serde_json::Value,
)
    requires
        can_come(job_id, requested_update(request), events),
        events.len() > 0,
        events[0] == JobEventView::Saved,
        holds(
            row,
            stored_after_events(job_id, requested_update(request), created, events, times),
            encode,
        ),
    ensures
        status_of(row).started_at == Some(times[0]),
{
    lemma_stored_start(job_id, requested_update(request), created, events, times);
}

/// The answer to a poll is the row, column by column. A count that is not there is 0.
pub proof fn answer_is_the_row(row: JobRow)
    ensures
        status_of(row).id == row.id,
        status_of(row).status == row.status,
        row.transaction_count is None ==> status_of(row).transaction_count == 0,
        row.transaction_count is Some && row.transaction_count->0 >= 0 ==> status_of(
            row,
        ).transaction_count == row.transaction_count->0,
        row.transaction_count is Some ==> status_of(row).transaction_count
            == row.transaction_count->0 as usize,
        status_of(row).target_status == row.target_status,
        status_of(row).result_summary == row.result_summary,
        status_of(row).error_message == row.error_message,
        status_of(row).created_at == row.created_at,
        status_of(row).started_at == row.started_at,
        status_of(row).completed_at == row.completed_at,
{
}

/// Once the run of a job is over, and everything that was to be stored was stored, a poll is
/// answered as the run ended. If it ended well, the job is completed, its result is the totals of
/// all its chunks, and there is no error; if it ended with an error, the job is failed with that
/// error, which is that of the update that could not be made, and there is no result. Either way
/// the answer gives the start and the end, and the number of transactions and the status that were
/// requested.
pub proof fn poll_of_a_finished_job(
    job_id: Uuid,
    request: BulkStatusRequestView,
    created: Timestamp,
    events: Seq<JobEventView>,
    times: Seq<Timestamp>,
    outcome: Result<(), Seq<char>>,
    row: JobRow,
    encode: spec_fn(Tally) -> serde_json::Value,
)
    requires
        can_come(job_id, requested_update(request), events),
        all_saved(events),
        next_action(after_events(job_id, requested_update(request), events))
            == JobActionView::Stop(outcome),
        holds(
            row,
            stored_after_events(job_id, requested_update(request), created, events, times),
            encode,
        ),
    ensures
        outcome is Ok ==> {
            &&& status_of(row).status@ == "completed"@
            &&& status_of(row).result_summary == Some(encode(total(reports(events.drop_last()))))
            &&& status_of(row).error_message is None
        },
        outcome matches Err(message) ==> {
            &&& status_of(row).status@ == "failed"@
            &&& status_of(row).error_message matches Some(text)
            &&& text@ == message
            &&& status_of(row).result_summary is None
            &&& events.len() >= 2
            &&& events[events.len() - 2] == JobEventView::UpdateFailed(message)
        },
        status_of(row).id == job_id,
        status_of(row).transaction_count == request.transaction_ids.len(),
        status_of(row).target_status@ == request.status,
        status_of(row).created_at == created,
        status_of(row).started_at == Some(times[0]),
        status_of(row).completed_at == Some(times[events.len() - 1]),
{
    let order = requested_update(request);
    let rest = events.drop_last();
    let before = after_events(job_id, order, rest);
    poll_of_a_running_job(job_id, request, created, events, times, row, encode);
    lemma_stored_job_tells(job_id, order, created, events, times);
    lemma_well_formed_after(job_id, order, events);
    assert(events.len() > 0);
    assert(!(events[events.len() - 1] is SaveFailed));
    assert(events.last() == JobEventView::Saved);
    assert(before.phase is Completing || before.phase is Failing);
    assert(rest.len() > 0);
    if before.phase is Failing {
        assert(can_come(job_id, order, rest));
        assert(before == observed(after_events(job_id, order, rest.drop_last()), rest.last()));
        assert(rest.last() == JobEventView::UpdateFailed(outcome->Err_0));
        assert(rest.last() == events[events.len() - 2]);
    }
    lemma_first_event(job_id, order, events);
    assert(!(events[0] is SaveFailed));
    poll_gives_the_start(job_id, request, created, events, times, row, encode);
    match before.phase {
        PhaseView::Completing { .. } => {
            completed_jobs_updated_everything(job_id, order, events);
        },
        _ => {},
    }
}

} // verus!
