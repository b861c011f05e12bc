//! The run of a stored job.
//!
//! A run works through the transactions of its job in chunks. It says at each point what is
//! to be done next ([`JobRun::action`]); whoever drives it does that and reports what came of
//! it ([`JobRun::observe`]).

use vstd::prelude::*;
use vstd::slice::slice_subrange;
use vstd::string::*;

use crate::dispatch::{optional_str, BulkUpdateError, BulkUpdateResult, UpdateCall};
use crate::ids::Uuid;
use crate::request::BulkStatusRequest;

verus! {

use crate::dispatch::{optional_slice_text, requested_update, Tally, UpdateCallView};
use crate::request::optional_text;

/// The most transactions that are updated in one go.
pub const CHUNK: usize = 200;

/// The state that a stored job is in.
#[derive(Clone, Copy, Debug, PartialEq, Eq, Structural)]
pub enum JobStatus {
    Pending,
    Running,
    Completed,
    Failed,
}

/// The name that a job status is stored under.
pub open spec fn status_name(status: JobStatus) -> Seq<char> {
    match status {
        JobStatus::Pending => "pending"@,
        JobStatus::Running => "running"@,
        JobStatus::Completed => "completed"@,
        JobStatus::Failed => "failed"@,
    }
}

impl JobStatus {
    /// The name that the status is stored under.
    pub fn as_str(self) -> (name: &'static str)
        ensures
            name@ == status_name(self),
    {
        match self {
            JobStatus::Pending => "pending",
            JobStatus::Running => "running",
            JobStatus::Completed => "completed",
            JobStatus::Failed => "failed",
        }
    }
}

/// What a completed job did, over all its chunks.
#[derive(Debug)]
pub struct JobSummary {
    pub updated: usize,
    pub failed: usize,
    pub errors: Vec<BulkUpdateError>,
}

impl View for JobSummary {
    type V = Tally;

    open spec fn view(&self) -> Tally {
        Tally { updated: self.updated as nat, failed: self.failed as nat, errors: self.errors@ }
    }
}

/// What is to be done next for a job.
#[derive(Debug)]
pub enum JobAction<'a> {
    /// Store that the job is running, and since when.
    MarkRunning,
    /// Update these transactions.
    Update(UpdateCall<'a>),
    /// Store that the job failed, when, and why.
    MarkFailed(&'a str),
    /// Store that the job is completed, when, and what it did.
    MarkCompleted(&'a JobSummary),
    /// Nothing: the run is over, with this outcome.
    Stop(&'a Result<(), String>),
}

/// The model of a [`JobAction`].
pub enum JobActionView {
    MarkRunning,
    Update(UpdateCallView),
    MarkFailed(Seq<char>),
    MarkCompleted(Tally),
    Stop(Result<(), Seq<char>>),
}

/// The outcome of a run, with the text of its error.
pub open spec fn outcome_view(outcome: Result<(), String>) -> Result<(), Seq<char>> {
    match outcome {
        Ok(()) => Ok(()),
        Err(message) => Err(message@),
    }
}

impl<'a> View for JobAction<'a> {
    type V = JobActionView;

    open spec fn view(&self) -> JobActionView {
        match self {
            JobAction::MarkRunning => JobActionView::MarkRunning,
            JobAction::Update(call) => JobActionView::Update(call@),
            JobAction::MarkFailed(message) => JobActionView::MarkFailed(message@),
            JobAction::MarkCompleted(summary) => JobActionView::MarkCompleted(summary@),
            JobAction::Stop(outcome) => JobActionView::Stop(outcome_view(**outcome)),
        }
    }
}

/// What an action stores with a job: its status, whether the current time is stored as that of
/// its start or of its end, and, where there is one, why it failed or what it did. Whatever is
/// not given stays as it is stored.
#[derive(Debug)]
pub struct ColumnUpdate<'a> {
    pub status: JobStatus,
    pub started: bool,
    pub completed: bool,
    pub error_message: Option<&'a str>,
    pub result_summary: Option<&'a JobSummary>,
}

/// The model of a [`ColumnUpdate`].
pub struct ColumnUpdateView {
    pub status: JobStatus,
    pub started: bool,
    pub completed: bool,
    pub error_message: Option<Seq<char>>,
    pub result_summary: Option<Tally>,
}

impl<'a> View for ColumnUpdate<'a> {
    type V = ColumnUpdateView;

    open spec fn view(&self) -> ColumnUpdateView {
        ColumnUpdateView {
            status: self.status,
            started: self.started,
            completed: self.completed,
            error_message: optional_slice_text(self.error_message),
            result_summary: match self.result_summary {
                Some(summary) => Some(summary@),
                None => None,
            },
        }
    }
}

/// What an action stores with the job, if it stores anything.
pub open spec fn stored_columns(action: JobActionView) -> Option<ColumnUpdateView> {
    match action {
        JobActionView::MarkRunning => Some(
            ColumnUpdateView {
                status: JobStatus::Running,
                started: true,
                completed: false,
                error_message: None,
                result_summary: None,
            },
        ),
        JobActionView::MarkFailed(message) => Some(
            ColumnUpdateView {
                status: JobStatus::Failed,
                started: false,
                completed: true,
                error_message: Some(message),
                result_summary: None,
            },
        ),
        JobActionView::MarkCompleted(totals) => Some(
            ColumnUpdateView {
                status: JobStatus::Completed,
                started: false,
                completed: true,
                error_message: None,
                result_summary: Some(totals),
            },
        ),
        JobActionView::Update(_) | JobActionView::Stop(_) => None,
    }
}

impl<'a> JobAction<'a> {
    /// What the action stores with the job, if it stores anything.
    pub fn columns(&self) -> (columns: Option<ColumnUpdate<'a>>)
        ensures
            match columns {
                Some(update) => stored_columns(self@) == Some(update@),
                None => stored_columns(self@) is None,
            },
            match self {
                JobAction::MarkRunning => {
                    &&& columns matches Some(update)
                    &&& update.status == JobStatus::Running
                    &&& update.started && !update.completed
                    &&& update.error_message is None && update.result_summary is None
                },
                JobAction::MarkFailed(message) => {
                    &&& columns matches Some(update)
                    &&& update.status == JobStatus::Failed
                    &&& !update.started && update.completed
                    &&& update.error_message == Some(*message) && update.result_summary is None
                },
                JobAction::MarkCompleted(summary) => {
                    &&& columns matches Some(update)
                    &&& update.status == JobStatus::Completed
                    &&& !update.started && update.completed
                    &&& update.error_message is None && update.result_summary == Some(*summary)
                },
                JobAction::Update(_) | JobAction::Stop(_) => columns is None,
            },
    {
        match self {
            JobAction::MarkRunning => Some(
                ColumnUpdate {
                    status: JobStatus::Running,
                    started: true,
                    completed: false,
                    error_message: None,
                    result_summary: None,
                },
            ),
            JobAction::MarkFailed(message) => Some(
                ColumnUpdate {
                    status: JobStatus::Failed,
                    started: false,
                    completed: true,
                    error_message: Some(*message),
                    result_summary: None,
                },
            ),
            JobAction::MarkCompleted(summary) => Some(
                ColumnUpdate {
                    status: JobStatus::Completed,
                    started: false,
                    completed: true,
                    error_message: None,
                    result_summary: Some(*summary),
                },
            ),
            JobAction::Update(_) | JobAction::Stop(_) => None,
        }
    }
}

/// What came of an action.
#[derive(Debug)]
pub enum JobEvent {
    /// What was to be stored is stored.
    Saved,
    /// What was to be stored could not be stored, with the text of the error.
    SaveFailed(String),
    /// The update was made.
    Updated(BulkUpdateResult),
    /// The update could not be made, with the text of the error.
    UpdateFailed(String),
}

/// The model of a [`JobEvent`].
pub enum JobEventView {
    Saved,
    SaveFailed(Seq<char>),
    Updated(Tally),
    UpdateFailed(Seq<char>),
}

impl View for JobEvent {
    type V = JobEventView;

    open spec fn view(&self) -> JobEventView {
        match self {
            JobEvent::Saved => JobEventView::Saved,
            JobEvent::SaveFailed(message) => JobEventView::SaveFailed(message@),
            JobEvent::Updated(result) => JobEventView::Updated(result@),
            JobEvent::UpdateFailed(message) => JobEventView::UpdateFailed(message@),
        }
    }
}

/// How far a run has come.
#[derive(Debug)]
enum Phase {
    Queued,
    Updating { done: usize, summary: JobSummary },
    Completing { summary: JobSummary },
    Failing { message: String },
    Finished { outcome: Result<(), String> },
}

/// How far a run has come: nothing was done yet; the first `done` transactions were worked
/// through; all were; an update failed; it is over.
pub enum PhaseView {
    Queued,
    Updating { done: nat, totals: Tally },
    Completing { totals: Tally },
    Failing { message: Seq<char> },
    Finished { outcome: Result<(), Seq<char>> },
}

/// The run of one job.
#[derive(Debug)]
pub struct JobRun {
    job_id: Uuid,
    transaction_ids: Vec<Uuid>,
    target_status: String,
    reason: Option<String>,
    status: JobStatus,
    phase: Phase,
}

/// The model of a [`JobRun`]: the job, the update it is to make, the status that is stored for
/// it, and how far it has come.
pub struct JobRunView {
    pub job_id: Uuid,
    pub order: UpdateCallView,
    pub status: JobStatus,
    pub phase: PhaseView,
}

impl Phase {
    spec fn as_view(self) -> PhaseView {
        match self {
            Phase::Queued => PhaseView::Queued,
            Phase::Updating { done, summary } => PhaseView::Updating {
                done: done as nat,
                totals: summary@,
            },
            Phase::Completing { summary } => PhaseView::Completing { totals: summary@ },
            Phase::Failing { message } => PhaseView::Failing { message: message@ },
            Phase::Finished { outcome } => PhaseView::Finished { outcome: outcome_view(outcome) },
        }
    }
}

impl View for JobRun {
    type V = JobRunView;

    closed spec fn view(&self) -> JobRunView {
        JobRunView {
            job_id: self.job_id,
            order: UpdateCallView {
                transaction_ids: self.transaction_ids@,
                status: self.target_status@,
                reason: optional_text(self.reason),
                actor: "admin"@,
            },
            status: self.status,
            phase: self.phase.as_view(),
        }
    }
}

/// The report on nothing.
pub open spec fn empty_tally() -> Tally {
    Tally { updated: 0, failed: 0, errors: Seq::empty() }
}

/// Two reports taken together.
pub open spec fn added(a: Tally, b: Tally) -> Tally {
    Tally {
        updated: a.updated + b.updated,
        failed: a.failed + b.failed,
        errors: a.errors + b.errors,
    }
}

/// Where the chunk that begins at `done` ends, among `len` transactions.
pub open spec fn chunk_end(done: nat, len: nat) -> nat {
    if done + CHUNK < len {
        done + CHUNK as nat
    } else {
        len
    }
}

/// The part of an update that begins at transaction `done`.
pub open spec fn chunk_call(order: UpdateCallView, done: nat) -> UpdateCallView {
    UpdateCallView {
        transaction_ids: order.transaction_ids.subrange(
            done as int,
            chunk_end(done, order.transaction_ids.len()) as int,
        ),
        status: order.status,
        reason: order.reason,
        actor: order.actor,
    }
}

/// A job that is stored and has not begun to run.
pub open spec fn queued(job_id: Uuid, order: UpdateCallView) -> JobRunView {
    JobRunView { job_id, order, status: JobStatus::Pending, phase: PhaseView::Queued }
}

/// What is to be done next.
pub open spec fn next_action(run: JobRunView) -> JobActionView {
    match run.phase {
        PhaseView::Queued => JobActionView::MarkRunning,
        PhaseView::Updating { done, .. } => JobActionView::Update(chunk_call(run.order, done)),
        PhaseView::Completing { totals } => JobActionView::MarkCompleted(totals),
        PhaseView::Failing { message } => JobActionView::MarkFailed(message),
        PhaseView::Finished { outcome } => JobActionView::Stop(outcome),
    }
}

/// Whether `event` can come of the next action of `run`, with totals that can be counted.
pub open spec fn accepts(run: JobRunView, event: JobEventView) -> bool {
    match (run.phase, event) {
        (PhaseView::Updating { totals, .. }, JobEventView::Updated(tally)) => {
            &&& totals.updated + tally.updated <= usize::MAX
            &&& totals.failed + tally.failed <= usize::MAX
        },
        (PhaseView::Updating { .. }, JobEventView::UpdateFailed(_)) => true,
        (PhaseView::Queued, JobEventView::Saved) => true,
        (PhaseView::Completing { .. }, JobEventView::Saved) => true,
        (PhaseView::Failing { .. }, JobEventView::Saved) => true,
        (PhaseView::Queued, JobEventView::SaveFailed(_)) => true,
        (PhaseView::Completing { .. }, JobEventView::SaveFailed(_)) => true,
        (PhaseView::Failing { .. }, JobEventView::SaveFailed(_)) => true,
        _ => false,
    }
}

/// A run that has worked through `done` transactions.
pub open spec fn updated_up_to(run: JobRunView, done: nat, totals: Tally) -> JobRunView {
    JobRunView {
        phase: if done < run.order.transaction_ids.len() {
            PhaseView::Updating { done, totals }
        } else {
            PhaseView::Completing { totals }
        },
        ..run
    }
}

/// The run after `event`.
pub open spec fn observed(run: JobRunView, event: JobEventView) -> JobRunView {
    match (run.phase, event) {
        (PhaseView::Queued, JobEventView::Saved) => updated_up_to(
            JobRunView { status: JobStatus::Running, ..run },
            0,
            empty_tally(),
        ),
        (PhaseView::Updating { done, totals }, JobEventView::Updated(tally)) => updated_up_to(
            run,
            chunk_end(done, run.order.transaction_ids.len()),
            added(totals, tally),
        ),
        (PhaseView::Updating { .. }, JobEventView::UpdateFailed(message)) => JobRunView {
            phase: PhaseView::Failing { message },
            ..run
        },
        (PhaseView::Completing { .. }, JobEventView::Saved) => JobRunView {
            status: JobStatus::Completed,
            phase: PhaseView::Finished { outcome: Ok(()) },
            ..run
        },
        (PhaseView::Failing { message }, JobEventView::Saved) => JobRunView {
            status: JobStatus::Failed,
            phase: PhaseView::Finished { outcome: Err(message) },
            ..run
        },
        (_, JobEventView::SaveFailed(message)) => JobRunView {
            phase: PhaseView::Finished { outcome: Err(message) },
            ..run
        },
        _ => run,
    }
}

/// What holds of every run: the stored status fits how far it has come, and there is
/// something left to update while it updates.
pub open spec fn well_formed(run: JobRunView) -> bool {
    match run.phase {
        PhaseView::Queued => run.status == JobStatus::Pending,
        PhaseView::Updating { done, .. } => {
            &&& run.status == JobStatus::Running
            &&& done < run.order.transaction_ids.len()
        },
        PhaseView::Completing { .. } => run.status == JobStatus::Running,
        PhaseView::Failing { .. } => run.status == JobStatus::Running,
        PhaseView::Finished { outcome } => outcome is Ok <==> run.status == JobStatus::Completed,
    }
}

impl JobRun {
    #[verifier::type_invariant]
    spec fn consistent(self) -> bool {
        well_formed(self@)
    }

    /// The run of the job `job_id` that `payload` was stored as.
    pub fn start(job_id: Uuid, payload: &BulkStatusRequest) -> (run: JobRun)
        ensures
            run@ == queued(job_id, requested_update(payload@)),
            well_formed(run@),
            run@.job_id == job_id,
            run@.status == JobStatus::Pending,
            run@.order.transaction_ids == payload.transaction_ids@,
            run@.order.status == payload.status@,
            payload.reason is Some <==> run@.order.reason is Some,
            payload.reason is Some ==> run@.order.reason->0 == payload.reason->0@,
            run@.order.actor == "admin"@,
    {
        let transaction_ids = payload.transaction_ids.clone();
        let target_status = payload.status.clone();
        let reason = match &payload.reason {
            Some(text) => Some(text.clone()),
            None => None,
        };
        proof {
            assert(transaction_ids@ =~= payload.transaction_ids@);
        }
        JobRun {
            job_id,
            transaction_ids,
            target_status,
            reason,
            status: JobStatus::Pending,
            phase: Phase::Queued,
        }
    }

    /// The job that this is the run of.
    pub fn job_id(&self) -> (job_id: Uuid)
        ensures
            job_id == self@.job_id,
    {
        self.job_id
    }

    /// The status that is stored for the job, as far as this run has stored one.
    pub fn status(&self) -> (status: JobStatus)
        ensures
            status == self@.status,
    {
        self.status
    }

    /// What is to be done next.
    pub fn action<'a>(&'a self) -> (action: JobAction<'a>)
        ensures
            action@ == next_action(self@),
            well_formed(self@),
            action matches JobAction::Update(call) ==> {
                &&& 0 < call.transaction_ids@.len() <= 200
                &&& call.status@ == self@.order.status
                &&& call.reason is Some <==> self@.order.reason is Some
                &&& call.reason is Some ==> call.reason->0@ == self@.order.reason->0
                &&& call.actor@ == self@.order.actor
            },
    {
        proof {
            use_type_invariant(self);
        }
        match &self.phase {
            Phase::Queued => JobAction::MarkRunning,
            Phase::Updating { done, .. } => {
                let len = self.transaction_ids.len();
                let end = if len - *done > CHUNK {
                    *done + CHUNK
                } else {
                    len
                };
                JobAction::Update(
                    UpdateCall {
                        transaction_ids: slice_subrange(
                            self.transaction_ids.as_slice(),
                            *done,
                            end,
                        ),
                        status: self.target_status.as_str(),
                        reason: optional_str(&self.reason),
                        actor: "admin",
                    },
                )
            },
            Phase::Completing { summary } => JobAction::MarkCompleted(summary),
            Phase::Failing { message } => JobAction::MarkFailed(message.as_str()),
            Phase::Finished { outcome } => JobAction::Stop(outcome),
        }
    }

    /// Whether `event` can come of the next action, with totals that can be counted.
    pub fn accepts(&self, event: &JobEvent) -> (accepted: bool)
        ensures
            accepted == accepts(self@, event@),
    {
        match (&self.phase, event) {
            (Phase::Updating { summary, .. }, JobEvent::Updated(result)) => {
                summary.updated <= usize::MAX - result.updated && summary.failed <= usize::MAX
                    - result.failed
            },
            (Phase::Updating { .. }, JobEvent::UpdateFailed(_)) => true,
            (Phase::Queued, JobEvent::Saved) => true,
            (Phase::Completing { .. }, JobEvent::Saved) => true,
            (Phase::Failing { .. }, JobEvent::Saved) => true,
            (Phase::Queued, JobEvent::SaveFailed(_)) => true,
            (Phase::Completing { .. }, JobEvent::SaveFailed(_)) => true,
            (Phase::Failing { .. }, JobEvent::SaveFailed(_)) => true,
            _ => false,
        }
    }

    /// The run after what came of its action.
    pub fn observe(self, event: JobEvent) -> (run: JobRun)
        requires
            accepts(self@, event@),
        ensures
            run@ == observed(self@, event@),
            well_formed(run@),
    {
        proof {
            use_type_invariant(&self);
        }
        let JobRun { job_id, transaction_ids, target_status, reason, status, phase } = self;
        let len = transaction_ids.len();
        let (status, phase) = match (phase, event) {
            (Phase::Queued, JobEvent::Saved) => {
                let summary = JobSummary { updated: 0, failed: 0, errors: Vec::new() };
                (JobStatus::Running, progress(0, len, summary))
            },
            (Phase::Updating { done, summary }, JobEvent::Updated(result)) => {
                let end = if len - done > CHUNK {
                    done + CHUNK
                } else {
                    len
                };
                let mut errors = summary.errors;
                let mut more = result.errors;
                errors.append(&mut more);
                let summary = JobSummary {
                    updated: summary.updated + result.updated,
                    failed: summary.failed + result.failed,
                    errors,
                };
                (status, progress(end, len, summary))
            },
            (Phase::Updating { .. }, JobEvent::UpdateFailed(message)) => {
                (status, Phase::Failing { message })
            },
            (Phase::Completing { .. }, JobEvent::Saved) => {
                (JobStatus::Completed, Phase::Finished { outcome: Ok(()) })
            },
            (Phase::Failing { message }, JobEvent::Saved) => {
                (JobStatus::Failed, Phase::Finished { outcome: Err(message) })
            },
            (_, JobEvent::SaveFailed(message)) => {
                (status, Phase::Finished { outcome: Err(message) })
            },
            (phase, _) => (status, phase),
        };
        JobRun { job_id, transaction_ids, target_status, reason, status, phase }
    }
}

/// The phase of a run that has worked through `done` of `len` transactions.
fn progress(done: usize, len: usize, summary: JobSummary) -> (phase: Phase)
    ensures
        phase.as_view() == (if done < len {
            PhaseView::Updating { done: done as nat, totals: summary@ }
        } else {
            PhaseView::Completing { totals: summary@ }
        }),
{
    if done < len {
        Phase::Updating { done, summary }
    } else {
        Phase::Completing { summary }
    }
}

} // verus!
