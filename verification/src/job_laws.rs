//! What holds of every run of a job, whatever comes of its actions.

use vstd::prelude::*;

verus! {

use crate::dispatch::{dispatched, requested_update, DispatchActionView, Tally, UpdateCallView};
use crate::ids::Uuid;
use crate::job::{
    accepts, added, chunk_call, chunk_end, empty_tally, next_action, observed, queued,
    status_name, stored_columns, well_formed, ColumnUpdateView, JobActionView, JobEventView,
    JobRunView, JobStatus, PhaseView, CHUNK,
};
use crate::poll::Timestamp;
use crate::request::BulkStatusRequestView;

/// How many chunks `len` transactions make.
pub open spec fn chunk_count(len: nat) -> nat {
    ((len + CHUNK - 1) / CHUNK as int) as nat
}

/// How many transactions the first `k` chunks of `len` hold.
pub open spec fn chunk_start(k: nat, len: nat) -> nat {
    if k * CHUNK < len {
        (k * CHUNK) as nat
    } else {
        len
    }
}

/// The transactions of the first `k` chunks of an update, chunk after chunk.
pub open spec fn chunks_sent(order: UpdateCallView, k: nat) -> Seq<Uuid>
    decreases k,
{
    if k == 0 {
        Seq::empty()
    } else {
        chunks_sent(order, (k - 1) as nat) + chunk_call(
            order,
            ((k - 1) * CHUNK) as nat,
        ).transaction_ids
    }
}

/// Reports taken together, one after the other.
pub open spec fn total(tallies: Seq<Tally>) -> Tally
    decreases tallies.len(),
{
    if tallies.len() == 0 {
        empty_tally()
    } else {
        added(total(tallies.drop_last()), tallies.last())
    }
}

/// The run of a job that is stored as running and whose first chunks were updated, with these
/// reports.
pub open spec fn after_updates(
    job_id: Uuid,
    order: UpdateCallView,
    tallies: Seq<Tally>,
) -> JobRunView
    decreases tallies.len(),
{
    if tallies.len() == 0 {
        observed(queued(job_id, order), JobEventView::Saved)
    } else {
        observed(
            after_updates(job_id, order, tallies.drop_last()),
            JobEventView::Updated(tallies.last()),
        )
    }
}

/// Whether a job that is stored as `before` may next be stored as `after`.
pub open spec fn may_follow(before: JobStatus, after: JobStatus) -> bool {
    match before {
        JobStatus::Pending => after == JobStatus::Running,
        JobStatus::Running => after == JobStatus::Completed || after == JobStatus::Failed,
        JobStatus::Completed => false,
        JobStatus::Failed => false,
    }
}

/// The most events that a run still takes.
pub open spec fn events_left(run: JobRunView) -> nat {
    let len = run.order.transaction_ids.len();
    match run.phase {
        PhaseView::Queued => chunk_count(len) + 2,
        PhaseView::Updating { done, .. } => chunk_count((len - done) as nat) + 1,
        PhaseView::Completing { .. } => 1,
        PhaseView::Failing { .. } => 1,
        PhaseView::Finished { .. } => 0,
    }
}

/// A run first stores that the job is running, and makes no update before that is stored.
pub proof fn running_is_stored_first(job_id: Uuid, order: UpdateCallView)
    ensures
        next_action(queued(job_id, order)) == JobActionView::MarkRunning,
        observed(queued(job_id, order), JobEventView::Saved).status == JobStatus::Running,
        forall|event: JobEventView|
            accepts(queued(job_id, order), event) && event != JobEventView::Saved
                ==> next_action(#[trigger] observed(queued(job_id, order), event)) is Stop,
{
}

/// Where a run stands after the first updates: at the next chunk, or, when there is none, at
/// storing the totals of all reports, in the order of the chunks.
pub proof fn updates_in_order(job_id: Uuid, order: UpdateCallView, tallies: Seq<Tally>)
    requires
        tallies.len() <= chunk_count(order.transaction_ids.len()),
    ensures
        after_updates(job_id, order, tallies) == (JobRunView {
            job_id,
            order,
            status: JobStatus::Running,
            phase: if tallies.len() < chunk_count(order.transaction_ids.len()) {
                PhaseView::Updating {
                    done: (tallies.len() * CHUNK) as nat,
                    totals: total(tallies),
                }
            } else {
                PhaseView::Completing { totals: total(tallies) }
            },
        }),
        next_action(after_updates(job_id, order, tallies)) == (if tallies.len() < chunk_count(
            order.transaction_ids.len(),
        ) {
            JobActionView::Update(chunk_call(order, (tallies.len() * CHUNK) as nat))
        } else {
            JobActionView::MarkCompleted(total(tallies))
        }),
    decreases tallies.len(),
{
    if tallies.len() > 0 {
        updates_in_order(job_id, order, tallies.drop_last());
    }
}

/// A chunk is never empty, never holds more than [`CHUNK`] transactions, and only the last one
/// holds fewer.
pub proof fn chunk_sizes(order: UpdateCallView, k: nat)
    requires
        k < chunk_count(order.transaction_ids.len()),
    ensures
        0 < chunk_call(order, (k * CHUNK) as nat).transaction_ids.len() <= CHUNK,
        k + 1 < chunk_count(order.transaction_ids.len()) ==> chunk_call(
            order,
            (k * CHUNK) as nat,
        ).transaction_ids.len() == CHUNK,
{
}

/// The first `k` chunks hold the first transactions of the update, in order.
proof fn lemma_chunks_sent(order: UpdateCallView, k: nat)
    requires
        k <= chunk_count(order.transaction_ids.len()),
    ensures
        chunks_sent(order, k) == order.transaction_ids.take(
            chunk_start(k, order.transaction_ids.len()) as int,
        ),
    decreases k,
{
    let ids = order.transaction_ids;
    if k > 0 {
        lemma_chunks_sent(order, (k - 1) as nat);
        assert(chunk_start((k - 1) as nat, ids.len()) == (k - 1) * CHUNK);
        assert(chunk_end(((k - 1) * CHUNK) as nat, ids.len()) == chunk_start(k, ids.len()));
        assert(chunks_sent(order, k) =~= ids.take(chunk_start(k, ids.len()) as int));
    } else {
        assert(chunks_sent(order, k) =~= ids.take(0));
    }
}

/// The chunks of an update, one after the other, are exactly its transactions: each is updated
/// once, in order.
pub proof fn chunks_cover_the_batch(order: UpdateCallView)
    ensures
        chunks_sent(order, chunk_count(order.transaction_ids.len())) == order.transaction_ids,
{
    let ids = order.transaction_ids;
    lemma_chunks_sent(order, chunk_count(ids.len()));
    assert(ids.take(ids.len() as int) =~= ids);
}

/// A job makes the update that its request asks for, as a request that is small enough makes
/// it at once: the same transactions, each once and in order, to the same status, for the same
/// reason and on the same behalf.
pub proof fn job_updates_as_requested(
    job_id: Uuid,
    request: BulkStatusRequestView,
    small: usize,
    large: usize,
    tallies: Seq<Tally>,
)
    requires
        small < request.transaction_ids.len() <= large,
        tallies.len() < chunk_count(request.transaction_ids.len()),
    ensures
        ({
            let order = requested_update(request);
            &&& dispatched(request, large) == DispatchActionView::Update(order)
            &&& dispatched(request, small) == DispatchActionView::Enqueue(order)
            &&& next_action(after_updates(job_id, order, tallies)) matches JobActionView::Update(
                call,
            )
            &&& call.transaction_ids == chunk_call(
                order,
                (tallies.len() * CHUNK) as nat,
            ).transaction_ids
            &&& call.status == order.status
            &&& call.reason == order.reason
            &&& call.actor == order.actor
            &&& chunks_sent(order, chunk_count(order.transaction_ids.len()))
                == order.transaction_ids
        }),
{
    updates_in_order(job_id, requested_update(request), tallies);
    chunks_cover_the_batch(requested_update(request));
}

/// After the last update the totals are stored; once they are, the job is completed and its
/// run is over.
pub proof fn completion(job_id: Uuid, order: UpdateCallView, tallies: Seq<Tally>)
    requires
        tallies.len() == chunk_count(order.transaction_ids.len()),
    ensures
        ({
            let run = after_updates(job_id, order, tallies);
            let end = observed(run, JobEventView::Saved);
            &&& next_action(run) == JobActionView::MarkCompleted(total(tallies))
            &&& accepts(run, JobEventView::Saved)
            &&& end.status == JobStatus::Completed
            &&& next_action(end) == JobActionView::Stop(Ok(()))
        }),
{
    updates_in_order(job_id, order, tallies);
}

/// The first update that cannot be made is the last one that is tried: its error is stored,
/// and once it is, the job is failed and its run ends with that error.
pub proof fn failed_update_ends_the_run(
    job_id: Uuid,
    order: UpdateCallView,
    tallies: Seq<Tally>,
    message: Seq<char>,
)
    requires
        tallies.len() < chunk_count(order.transaction_ids.len()),
    ensures
        ({
            let run = observed(
                after_updates(job_id, order, tallies),
                JobEventView::UpdateFailed(message),
            );
            let end = observed(run, JobEventView::Saved);
            &&& accepts(
                after_updates(job_id, order, tallies),
                JobEventView::UpdateFailed(message),
            )
            &&& next_action(run) == JobActionView::MarkFailed(message)
            &&& accepts(run, JobEventView::Saved)
            &&& end.status == JobStatus::Failed
            &&& next_action(end) == JobActionView::Stop(Err(message))
        }),
{
    updates_in_order(job_id, order, tallies);
}

/// What cannot be stored ends the run at once with the error of storing it, and leaves the
/// stored status as it was.
pub proof fn failed_save_ends_the_run(run: JobRunView, message: Seq<char>)
    requires
        accepts(run, JobEventView::SaveFailed(message)),
    ensures
        ({
            let end = observed(run, JobEventView::SaveFailed(message));
            &&& end.status == run.status
            &&& next_action(end) == JobActionView::Stop(Err(message))
        }),
{
}

/// A run that is over takes no event.
pub proof fn nothing_follows_the_end(run: JobRunView, event: JobEventView)
    requires
        next_action(run) is Stop,
    ensures
        !accepts(run, event),
{
}

/// The stored status only ever goes from pending to running, and from running to completed or
/// failed; it changes exactly when an action that stores one is reported as stored, to the
/// status that the action stores.
pub proof fn status_order(run: JobRunView, event: JobEventView)
    requires
        well_formed(run),
        accepts(run, event),
    ensures
        well_formed(observed(run, event)),
        observed(run, event).job_id == run.job_id,
        observed(run, event).order == run.order,
        if event == JobEventView::Saved {
            &&& stored_columns(next_action(run)) matches Some(columns)
            &&& columns.status == observed(run, event).status
            &&& may_follow(run.status, observed(run, event).status)
        } else {
            observed(run, event).status == run.status
        },
{
}

/// Every event brings a run nearer to its end.
pub proof fn progress(run: JobRunView, event: JobEventView)
    requires
        well_formed(run),
        accepts(run, event),
    ensures
        events_left(observed(run, event)) < events_left(run),
{
}

/// Where every report counts each transaction of its chunk once, as moved or as not moved, the
/// totals count each transaction of the job once.
pub proof fn totals_count_the_batch(order: UpdateCallView, tallies: Seq<Tally>)
    requires
        tallies.len() <= chunk_count(order.transaction_ids.len()),
        forall|k: int|
            0 <= k < tallies.len() ==> (#[trigger] tallies[k]).updated + tallies[k].failed
                == chunk_call(order, (k * CHUNK) as nat).transaction_ids.len(),
    ensures
        total(tallies).updated + total(tallies).failed == chunk_start(
            tallies.len(),
            order.transaction_ids.len(),
        ),
        tallies.len() == chunk_count(order.transaction_ids.len()) ==> total(tallies).updated
            + total(tallies).failed == order.transaction_ids.len(),
    decreases tallies.len(),
{
    if tallies.len() > 0 {
        let k = tallies.len() - 1;
        assert forall|j: int| 0 <= j < k implies (
        #[trigger] tallies.drop_last()[j]).updated + tallies.drop_last()[j].failed == chunk_call(
            order,
            (j * CHUNK) as nat,
        ).transaction_ids.len() by {
            assert(tallies.drop_last()[j] == tallies[j]);
        }
        totals_count_the_batch(order, tallies.drop_last());
        assert(tallies[k] == tallies.last());
    }
}

/// Where every report counts each transaction of its chunk once, the totals can always be counted:
/// the report on the next chunk is accepted.
pub proof fn counted_reports_are_accepted(
    job_id: Uuid,
    order: UpdateCallView,
    tallies: Seq<Tally>,
    next: Tally,
)
    requires
        order.transaction_ids.len() <= usize::MAX,
        tallies.len() < chunk_count(order.transaction_ids.len()),
        forall|k: int|
            0 <= k < tallies.len() ==> (#[trigger] tallies[k]).updated + tallies[k].failed
                == chunk_call(order, (k * CHUNK) as nat).transaction_ids.len(),
        next.updated + next.failed == chunk_call(
            order,
            (tallies.len() * CHUNK) as nat,
        ).transaction_ids.len(),
    ensures
        accepts(after_updates(job_id, order, tallies), JobEventView::Updated(next)),
{
    updates_in_order(job_id, order, tallies);
    totals_count_the_batch(order, tallies);
}

/// What is stored of a job: its identifier, the update it is to make, when it was stored, and
/// how far it is.
pub struct StoredJob {
    pub id: Uuid,
    pub order: UpdateCallView,
    pub created_at: Timestamp,
    pub status: Seq<char>,
    pub started_at: Option<Timestamp>,
    pub completed_at: Option<Timestamp>,
    pub error_message: Option<Seq<char>>,
    pub result_summary: Option<Tally>,
}

/// A job as it is first stored, at the time `now`.
pub open spec fn inserted(job_id: Uuid, order: UpdateCallView, now: Timestamp) -> StoredJob {
    StoredJob {
        id: job_id,
        order,
        created_at: now,
        status: status_name(JobStatus::Pending),
        started_at: None,
        completed_at: None,
        error_message: None,
        result_summary: None,
    }
}

/// What is stored of a job once `columns` are stored at the time `now`.
pub open spec fn written(row: StoredJob, columns: ColumnUpdateView, now: Timestamp) -> StoredJob {
    StoredJob {
        status: status_name(columns.status),
        started_at: if columns.started {
            Some(now)
        } else {
            row.started_at
        },
        completed_at: if columns.completed {
            Some(now)
        } else {
            row.completed_at
        },
        error_message: if columns.error_message is Some {
            columns.error_message
        } else {
            row.error_message
        },
        result_summary: if columns.result_summary is Some {
            columns.result_summary
        } else {
            row.result_summary
        },
        ..row
    }
}

/// What is stored of a job after `event` came of the next action of its run at the time `now`.
pub open spec fn stored_after(
    row: StoredJob,
    run: JobRunView,
    event: JobEventView,
    now: Timestamp,
) -> StoredJob {
    match (event, stored_columns(next_action(run))) {
        (JobEventView::Saved, Some(columns)) => written(row, columns, now),
        _ => row,
    }
}

/// Whether what is stored of a job tells a caller that polls it how far it is: its status, a
/// start once it has started, an end once it is completed or failed, what it did if it is
/// completed, and why it failed if it failed.
pub open spec fn tells(row: StoredJob, run: JobRunView) -> bool {
    &&& row.id == run.job_id
    &&& row.order == run.order
    &&& row.status == status_name(run.status)
    &&& row.started_at is Some <==> run.status != JobStatus::Pending
    &&& row.completed_at is Some <==> run.status == JobStatus::Completed || run.status
        == JobStatus::Failed
    &&& row.result_summary is Some <==> run.status == JobStatus::Completed
    &&& row.error_message is Some <==> run.status == JobStatus::Failed
}

/// At every point of a run, what is stored of its job tells how far it is, and the times at which
/// it was stored and started stay as they were first stored.
pub proof fn stored_job_tells_the_run(
    row: StoredJob,
    run: JobRunView,
    event: JobEventView,
    now: Timestamp,
)
    requires
        well_formed(run),
        accepts(run, event),
        tells(row, run),
    ensures
        tells(stored_after(row, run, event, now), observed(run, event)),
        stored_after(row, run, event, now).created_at == row.created_at,
        row.started_at is Some ==> stored_after(row, run, event, now).started_at == row.started_at,
{
}

/// A job that was just stored tells that it is pending.
pub proof fn inserted_job_is_pending(job_id: Uuid, order: UpdateCallView, now: Timestamp)
    ensures
        tells(inserted(job_id, order, now), queued(job_id, order)),
        well_formed(queued(job_id, order)),
        inserted(job_id, order, now).status == "pending"@,
{
}

/// What is read of a completed job is the totals of all its chunks; what is read of a failed one
/// is the error of the chunk that could not be updated.
pub proof fn stored_result(
    row: StoredJob,
    job_id: Uuid,
    order: UpdateCallView,
    tallies: Seq<Tally>,
    message: Seq<char>,
    now: Timestamp,
)
    requires
        tallies.len() <= chunk_count(order.transaction_ids.len()),
    ensures
        ({
            let run = after_updates(job_id, order, tallies);
            if tallies.len() == chunk_count(order.transaction_ids.len()) {
                let end = stored_after(row, run, JobEventView::Saved, now);
                &&& end.status == "completed"@
                &&& end.result_summary == Some(total(tallies))
                &&& end.completed_at == Some(now)
            } else {
                let failed = observed(run, JobEventView::UpdateFailed(message));
                let end = stored_after(row, failed, JobEventView::Saved, now);
                &&& end.status == "failed"@
                &&& end.error_message == Some(message)
                &&& end.completed_at == Some(now)
            }
        }),
{
    updates_in_order(job_id, order, tallies);
}

/// The run of a job after these events.
pub open spec fn after_events(
    job_id: Uuid,
    order: UpdateCallView,
    events: Seq<JobEventView>,
) -> JobRunView
    decreases events.len(),
{
    if events.len() == 0 {
        queued(job_id, order)
    } else {
        observed(after_events(job_id, order, events.drop_last()), events.last())
    }
}

/// Whether each of these events can come of the action before it, from the beginning of a run.
pub open spec fn can_come(job_id: Uuid, order: UpdateCallView, events: Seq<JobEventView>) -> bool
    decreases events.len(),
{
    events.len() == 0 || {
        &&& can_come(job_id, order, events.drop_last())
        &&& accepts(after_events(job_id, order, events.drop_last()), events.last())
    }
}

/// The reports of the updates that come after the first event.
pub open spec fn reports(events: Seq<JobEventView>) -> Seq<Tally> {
    Seq::new((events.len() - 1) as nat, |i: int| events[i + 1]->Updated_0)
}

/// While a run updates, and when it has updated everything, all that came is that its start was
/// stored and that one chunk after the other was updated.
proof fn lemma_only_updates(job_id: Uuid, order: UpdateCallView, events: Seq<JobEventView>)
    requires
        can_come(job_id, order, events),
    ensures
        ({
            let run = after_events(job_id, order, events);
            &&& run.phase is Queued ==> events.len() == 0
            &&& run.phase is Updating || run.phase is Completing ==> {
                &&& events.len() > 0
                &&& events[0] == JobEventView::Saved
                &&& forall|i: int| 0 < i < events.len() ==> #[trigger] events[i] is Updated
                &&& reports(events).len() <= chunk_count(order.transaction_ids.len())
                &&& run == after_updates(job_id, order, reports(events))
            }
        }),
    decreases events.len(),
{
    if events.len() > 0 {
        let rest = events.drop_last();
        lemma_only_updates(job_id, order, rest);
        let before = after_events(job_id, order, rest);
        let run = after_events(job_id, order, events);
        if run.phase is Updating || run.phase is Completing {
            if rest.len() == 0 {
                assert(reports(events) =~= Seq::<Tally>::empty());
                assert(events[0] == events.last());
            } else {
                assert(before.phase is Updating);
                updates_in_order(job_id, order, reports(rest));
                assert(reports(events).drop_last() =~= reports(rest));
                assert(reports(events).last() == events.last()->Updated_0);
                assert(events[0] == rest[0]);
                assert forall|i: int| 0 < i < events.len() implies #[trigger] events[i]
                    is Updated by {
                    if i < rest.len() {
                        assert(events[i] == rest[i]);
                    }
                }
            }
        }
    }
}

/// A job is only ever completed after its start was stored, every one of its chunks was updated,
/// and the totals of all of them were stored; nothing else has come of its actions.
pub proof fn completed_jobs_updated_everything(
    job_id: Uuid,
    order: UpdateCallView,
    events: Seq<JobEventView>,
)
    requires
        can_come(job_id, order, events),
        after_events(job_id, order, events).status == JobStatus::Completed,
    ensures
        events.len() == chunk_count(order.transaction_ids.len()) + 2,
        events[0] == JobEventView::Saved,
        forall|i: int| 0 < i < events.len() - 1 ==> #[trigger] events[i] is Updated,
        events.last() == JobEventView::Saved,
        next_action(after_events(job_id, order, events.drop_last()))
            == JobActionView::MarkCompleted(total(reports(events.drop_last()))),
{
    lemma_well_formed_after(job_id, order, events);
    let rest = events.drop_last();
    lemma_well_formed_after(job_id, order, rest);
    lemma_only_updates(job_id, order, rest);
    let before = after_events(job_id, order, rest);
    assert(before.phase is Completing);
    updates_in_order(job_id, order, reports(rest));
    assert(events[0] == rest[0]);
    assert forall|i: int| 0 < i < events.len() - 1 implies #[trigger] events[i] is Updated by {
        assert(events[i] == rest[i]);
    }
}

/// What holds of every run holds after any events.
pub(crate) proof fn lemma_well_formed_after(job_id: Uuid, order: UpdateCallView, events: Seq<JobEventView>)
    requires
        can_come(job_id, order, events),
    ensures
        well_formed(after_events(job_id, order, events)),
    decreases events.len(),
{
    if events.len() > 0 {
        lemma_well_formed_after(job_id, order, events.drop_last());
    }
}

/// The totals of reports are what all of them say together: the number of moved transactions is
/// the sum of the numbers that the reports give, so is the number of those that were not moved,
/// and the errors are those of all reports, one report after the other.
pub proof fn totals_are_what_the_reports_say(tallies: Seq<Tally>)
    ensures
        total(tallies).updated as int == tallies.map_values(|t: Tally| t.updated as int).fold_left(
            0int,
            |sum: int, n: int| sum + n,
        ),
        total(tallies).failed as int == tallies.map_values(|t: Tally| t.failed as int).fold_left(
            0int,
            |sum: int, n: int| sum + n,
        ),
        total(tallies).errors == tallies.map_values(|t: Tally| t.errors).flatten(),
    decreases tallies.len(),
{
    let updated = tallies.map_values(|t: Tally| t.updated as int);
    let failed = tallies.map_values(|t: Tally| t.failed as int);
    let errors = tallies.map_values(|t: Tally| t.errors);
    errors.lemma_flatten_and_flatten_alt_are_equivalent();
    if tallies.len() > 0 {
        let rest = tallies.drop_last();
        totals_are_what_the_reports_say(rest);
        assert(updated.drop_last() =~= rest.map_values(|t: Tally| t.updated as int));
        assert(failed.drop_last() =~= rest.map_values(|t: Tally| t.failed as int));
        assert(errors.drop_last() =~= rest.map_values(|t: Tally| t.errors));
        errors.drop_last().lemma_flatten_and_flatten_alt_are_equivalent();
        assert(total(tallies).errors =~= errors.flatten());
    } else {
        assert(total(tallies).errors =~= errors.flatten());
    }
}

/// No error is lost: each error of each report stands in the totals, after all errors of the
/// reports before it.
pub proof fn every_error_is_kept(tallies: Seq<Tally>, k: int, i: int)
    requires
        0 <= k < tallies.len(),
        0 <= i < tallies[k].errors.len(),
    ensures
        total(tallies.take(k)).errors.len() + i < total(tallies).errors.len(),
        total(tallies).errors[total(tallies.take(k)).errors.len() + i] == tallies[k].errors[i],
    decreases tallies.len(),
{
    let rest = tallies.drop_last();
    if k < rest.len() {
        every_error_is_kept(rest, k, i);
        assert(rest.take(k) =~= tallies.take(k));
    } else {
        assert(rest =~= tallies.take(k));
    }
}

/// The report on a chunk is added to what was counted before: to each count the report's own, and
/// its errors behind those that there were. The run goes on where the chunk ends.
pub proof fn report_is_added(run: JobRunView, tally: Tally)
    requires
        well_formed(run),
        run.phase is Updating,
    ensures
        ({
            let next = observed(run, JobEventView::Updated(tally));
            let before = run.phase->Updating_totals;
            let end = run.phase->Updating_done + next_action(run)->Update_0.transaction_ids.len();
            let after = if next.phase is Updating {
                next.phase->Updating_totals
            } else {
                next.phase->Completing_totals
            };
            &&& next.phase is Updating || next.phase is Completing
            &&& next.phase is Completing <==> end == run.order.transaction_ids.len()
            &&& next.phase is Updating ==> next.phase->Updating_done == end
            &&& after.updated == before.updated + tally.updated
            &&& after.failed == before.failed + tally.failed
            &&& after.errors.len() == before.errors.len() + tally.errors.len()
            &&& after.errors.take(before.errors.len() as int) == before.errors
            &&& after.errors.skip(before.errors.len() as int) == tally.errors
        }),
{
    let before = run.phase->Updating_totals;
    let both = before.errors + tally.errors;
    assert(both.take(before.errors.len() as int) =~= before.errors);
    assert(both.skip(before.errors.len() as int) =~= tally.errors);
}

/// Chunks hold 200 transactions: the chunk after `k` others holds those from `200 * k` on, as many
/// as there are up to 200, in order, with the status, the reason and the actor of the whole update.
pub proof fn chunks_of_two_hundred(
    job_id: Uuid,
    order: UpdateCallView,
    tallies: Seq<Tally>,
    i: int,
)
    requires
        200 * tallies.len() < order.transaction_ids.len(),
    ensures
        ({
            let first = 200 * tallies.len();
            let left = order.transaction_ids.len() - first;
            &&& next_action(after_updates(job_id, order, tallies)) matches JobActionView::Update(
                call,
            )
            &&& call.transaction_ids.len() == if left < 200 {
                left
            } else {
                200
            }
            &&& 0 <= i < call.transaction_ids.len() ==> call.transaction_ids[i]
                == order.transaction_ids[first + i]
            &&& call.status == order.status
            &&& call.reason == order.reason
            &&& call.actor == order.actor
        }),
{
    updates_in_order(job_id, order, tallies);
}

/// A run is at its totals once its chunks of 200 have covered all transactions, and not before.
pub proof fn chunks_until_covered(job_id: Uuid, order: UpdateCallView, tallies: Seq<Tally>)
    requires
        200 * tallies.len() < order.transaction_ids.len() + 200,
    ensures
        200 * tallies.len() >= order.transaction_ids.len() <==> next_action(
            after_updates(job_id, order, tallies),
        ) is MarkCompleted,
        200 * tallies.len() >= order.transaction_ids.len() ==> next_action(
            after_updates(job_id, order, tallies),
        ) == JobActionView::MarkCompleted(total(tallies)),
        200 * (chunk_count(order.transaction_ids.len()) - 1) < order.transaction_ids.len() <= 200
            * chunk_count(order.transaction_ids.len()),
{
    updates_in_order(job_id, order, tallies);
}

/// What can come of an action: that it was stored or could not be, where it stores something; that
/// an update was made or could not be, where it makes one, as far as the totals can be counted.
pub proof fn what_can_come(run: JobRunView, message: Seq<char>, tally: Tally)
    ensures
        accepts(run, JobEventView::Saved) <==> stored_columns(next_action(run)) is Some,
        accepts(run, JobEventView::SaveFailed(message)) <==> stored_columns(next_action(run))
            is Some,
        accepts(run, JobEventView::UpdateFailed(message)) <==> next_action(run) is Update,
        accepts(run, JobEventView::Updated(tally)) <==> {
            &&& next_action(run) is Update
            &&& run.phase->Updating_totals.updated + tally.updated <= usize::MAX
            &&& run.phase->Updating_totals.failed + tally.failed <= usize::MAX
        },
{
}

/// What each action stores. The start of a job is stored when it is stored as running, its end when
/// it is stored as completed or as failed; its result only as completed, and its error only as
/// failed.
pub proof fn what_actions_store(action: JobActionView)
    ensures
        action is MarkRunning ==> {
            &&& stored_columns(action) matches Some(columns)
            &&& columns.status == JobStatus::Running
            &&& columns.started && !columns.completed
            &&& columns.error_message is None && columns.result_summary is None
        },
        action matches JobActionView::MarkFailed(message) ==> {
            &&& stored_columns(action) matches Some(columns)
            &&& columns.status == JobStatus::Failed
            &&& !columns.started && columns.completed
            &&& columns.error_message == Some(message) && columns.result_summary is None
        },
        action matches JobActionView::MarkCompleted(totals) ==> {
            &&& stored_columns(action) matches Some(columns)
            &&& columns.status == JobStatus::Completed
            &&& !columns.started && columns.completed
            &&& columns.error_message is None && columns.result_summary == Some(totals)
        },
        action is Update || action is Stop ==> stored_columns(action) is None,
{
}

/// The names that the states of a job are stored under, which are all different.
pub proof fn status_names(a: JobStatus, b: JobStatus)
    ensures
        status_name(JobStatus::Pending) == "pending"@,
        status_name(JobStatus::Running) == "running"@,
        status_name(JobStatus::Completed) == "completed"@,
        status_name(JobStatus::Failed) == "failed"@,
        status_name(a) == status_name(b) ==> a == b,
{
    reveal_strlit("pending");
    reveal_strlit("running");
    reveal_strlit("completed");
    reveal_strlit("failed");
    if status_name(a) == status_name(b) {
        assert(status_name(a)[0] == status_name(b)[0]);
    }
}

/// A job that is stored and has not begun to run is pending, is the job that was stored, and has
/// the update to make that was asked for.
pub proof fn queued_job(job_id: Uuid, order: UpdateCallView)
    ensures
        queued(job_id, order).job_id == job_id,
        queued(job_id, order).order == order,
        queued(job_id, order).status == JobStatus::Pending,
        next_action(queued(job_id, order)) == JobActionView::MarkRunning,
{
}

} // verus!
