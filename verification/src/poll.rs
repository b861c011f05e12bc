//! The state of a job, as a caller that polls it is told.

use vstd::prelude::*;
use vstd::string::*;

use crate::error::AppError;
use crate::ids::Uuid;

verus! {

use crate::error::AppErrorView;
use crate::ids::hyphenated;

/// A JSON value, which is carried and never looked into: `serde_json::Value`.
#[verifier::external_type_specification]
#[verifier::external_body]
pub struct ExJsonValue(serde_json::Value);

/// A point in time: whole seconds since 1970-01-01T00:00:00Z, and the nanoseconds after them.
#[derive(Clone, Copy, Debug, PartialEq, Eq, Structural)]
pub struct Timestamp {
    pub seconds: i64,
    pub nanoseconds: u32,
}

/// A stored job, column by column.
#[derive(Debug)]
pub struct JobRow {
    pub id: Uuid,
    pub status: String,
    /// How many transactions the job has; nothing where the stored list is empty.
    pub transaction_count: Option<i32>,
    pub target_status: String,
    pub result_summary: Option<serde_json::Value>,
    pub error_message: Option<String>,
    pub created_at: Timestamp,
    pub started_at: Option<Timestamp>,
    pub completed_at: Option<Timestamp>,
}

/// The answer to a caller that polls a job.
#[derive(Debug)]
pub struct BulkStatusJobStatus {
    pub id: Uuid,
    pub status: String,
    pub transaction_count: usize,
    pub target_status: String,
    pub result_summary: Option<serde_json::Value>,
    pub error_message: Option<String>,
    pub created_at: Timestamp,
    pub started_at: Option<Timestamp>,
    pub completed_at: Option<Timestamp>,
}

impl BulkStatusJobStatus {
    /// The HTTP status of the answer: `200 OK`, whatever the status of the job is.
    pub fn status_code(&self) -> (code: u16)
        ensures
            code == 200,
    {
        200
    }
}

/// What a caller is told of a job that does not exist.
pub open spec fn job_not_found(job_id: Uuid) -> AppErrorView {
    AppErrorView::NotFound("Bulk status job "@ + hyphenated(job_id) + " not found"@)
}

/// The answer that a stored job gives: its columns as they are, with 0 for a count that is not
/// there.
pub open spec fn status_of(row: JobRow) -> BulkStatusJobStatus {
    BulkStatusJobStatus {
        id: row.id,
        status: row.status,
        transaction_count: match row.transaction_count {
            Some(count) => count as usize,
            None => 0,
        },
        target_status: row.target_status,
        result_summary: row.result_summary,
        error_message: row.error_message,
        created_at: row.created_at,
        started_at: row.started_at,
        completed_at: row.completed_at,
    }
}

/// The answer to a caller that polls the job `job_id`, given what is stored under it.
pub fn fetch_job_status(job_id: Uuid, row: Option<JobRow>) -> (answer: Result<
    BulkStatusJobStatus,
    AppError,
>)
    ensures
        match row {
            Some(stored) => answer == Ok::<BulkStatusJobStatus, AppError>(status_of(stored)),
            None => answer matches Err(error) && error@ == job_not_found(job_id),
        },
        match row {
            Some(stored) => {
                &&& answer matches Ok(status)
                &&& status.id == stored.id
                &&& status.status@ == stored.status@
                &&& stored.transaction_count is None ==> status.transaction_count == 0
                &&& stored.transaction_count is Some && stored.transaction_count->0 >= 0
                    ==> status.transaction_count == stored.transaction_count->0
                &&& stored.transaction_count is Some ==> status.transaction_count
                    == stored.transaction_count->0 as usize
                &&& status.target_status@ == stored.target_status@
                &&& status.result_summary == stored.result_summary
                &&& status.error_message == stored.error_message
                &&& status.created_at == stored.created_at
                &&& status.started_at == stored.started_at
                &&& status.completed_at == stored.completed_at
            },
            None => {
                &&& answer matches Err(AppError::NotFound(text))
                &&& text@ == "Bulk status job "@ + hyphenated(job_id) + " not found"@
            },
        },
{
    match row {
        Some(stored) => Ok(
            BulkStatusJobStatus {
                id: stored.id,
                status: stored.status,
                transaction_count: match stored.transaction_count {
                    Some(count) => #[verifier::truncate] (count as usize),
                    None => 0,
                },
                target_status: stored.target_status,
                result_summary: stored.result_summary,
                error_message: stored.error_message,
                created_at: stored.created_at,
                started_at: stored.started_at,
                completed_at: stored.completed_at,
            },
        ),
        None => {
            let mut text = "Bulk status job ".to_owned();
            text.append(job_id.to_text().as_str());
            text.append(" not found");
            Err(AppError::NotFound(text))
        },
    }
}

} // verus!
