use bulk_status::dispatch::{BulkUpdateError, BulkUpdateResult};
use bulk_status::error::AppError;
use bulk_status::ids::Uuid;
use bulk_status::job::{JobAction, JobEvent, JobRun, JobStatus, CHUNK};
use bulk_status::poll::{fetch_job_status, JobRow, Timestamp};
use bulk_status::request::BulkStatusRequest;

fn request(count: usize) -> BulkStatusRequest {
    BulkStatusRequest {
        transaction_ids: (0..count).map(|i| Uuid(i as u128)).collect(),
        status: "failed".to_string(),
        reason: Some("cleanup".to_string()),
    }
}

fn step(run: JobRun, event: JobEvent) -> JobRun {
    assert!(run.accepts(&event));
    run.observe(event)
}

fn result(updated: usize, failed: usize, errors: &[u128]) -> BulkUpdateResult {
    BulkUpdateResult {
        updated,
        failed,
        errors: errors
            .iter()
            .map(|id| BulkUpdateError {
                transaction_id: Uuid(*id),
                error: "invalid status transition".to_string(),
            })
            .collect(),
    }
}

fn chunk_of(run: &JobRun) -> Vec<Uuid> {
    match run.action() {
        JobAction::Update(call) => {
            assert_eq!(call.status, "failed");
            assert_eq!(call.reason, Some("cleanup"));
            assert_eq!(call.actor, "admin");
            call.transaction_ids.to_vec()
        }
        other => panic!("{:?}", other),
    }
}

#[test]
fn a_run_works_through_all_chunks() {
    let req = request(450);
    let mut run = JobRun::start(Uuid(9), &req);
    assert_eq!(run.job_id(), Uuid(9));
    assert_eq!(run.status(), JobStatus::Pending);
    assert!(matches!(run.action(), JobAction::MarkRunning));
    run = step(run, JobEvent::Saved);
    assert_eq!(run.status(), JobStatus::Running);

    let mut sent = Vec::new();
    let mut sizes = Vec::new();
    for (updated, failed, errors) in [(199, 1, vec![5]), (200, 0, vec![]), (48, 2, vec![401, 402])]
    {
        let chunk = chunk_of(&run);
        sizes.push(chunk.len());
        sent.extend(chunk);
        run = step(run, JobEvent::Updated(result(updated, failed, &errors)));
    }
    assert_eq!(sizes, vec![CHUNK, CHUNK, 50]);
    assert_eq!(sent, req.transaction_ids);

    match run.action() {
        JobAction::MarkCompleted(summary) => {
            assert_eq!(summary.updated, 447);
            assert_eq!(summary.failed, 3);
            let ids: Vec<Uuid> = summary.errors.iter().map(|e| e.transaction_id).collect();
            assert_eq!(ids, vec![Uuid(5), Uuid(401), Uuid(402)]);
        }
        other => panic!("{:?}", other),
    }
    run = step(run, JobEvent::Saved);
    assert_eq!(run.status(), JobStatus::Completed);
    assert!(matches!(run.action(), JobAction::Stop(Ok(()))));
    assert!(!run.accepts(&JobEvent::Saved));
    assert!(!run.accepts(&JobEvent::SaveFailed("late".to_string())));
}

#[test]
fn counted_reports_are_always_accepted() {
    let mut run = step(JobRun::start(Uuid(9), &request(10_000)), JobEvent::Saved);
    let mut chunks = 0;
    while matches!(run.action(), JobAction::Update(_)) {
        let size = chunk_of(&run).len();
        run = step(run, JobEvent::Updated(result(size - 1, 1, &[])));
        chunks += 1;
    }
    assert_eq!(chunks, 50);
    match run.action() {
        JobAction::MarkCompleted(summary) => {
            assert_eq!((summary.updated, summary.failed), (9_950, 50))
        }
        other => panic!("{:?}", other),
    }
}

#[test]
fn whole_chunks_leave_no_rest() {
    let mut run = step(JobRun::start(Uuid(9), &request(400)), JobEvent::Saved);
    assert_eq!(chunk_of(&run).len(), 200);
    run = step(run, JobEvent::Updated(result(200, 0, &[])));
    assert_eq!(chunk_of(&run).first(), Some(&Uuid(200)));
    assert_eq!(chunk_of(&run).len(), 200);
    run = step(run, JobEvent::Updated(result(200, 0, &[])));
    assert!(matches!(run.action(), JobAction::MarkCompleted(_)));
}

#[test]
fn a_job_without_transactions_completes() {
    let mut run = step(JobRun::start(Uuid(9), &request(0)), JobEvent::Saved);
    match run.action() {
        JobAction::MarkCompleted(summary) => {
            assert_eq!((summary.updated, summary.failed, summary.errors.len()), (0, 0, 0))
        }
        other => panic!("{:?}", other),
    }
    run = step(run, JobEvent::Saved);
    assert_eq!(run.status(), JobStatus::Completed);
}

#[test]
fn a_failed_chunk_ends_the_run() {
    let mut run = step(JobRun::start(Uuid(9), &request(450)), JobEvent::Saved);
    run = step(run, JobEvent::Updated(result(200, 0, &[])));
    run = step(run, JobEvent::UpdateFailed("connection lost".to_string()));
    assert_eq!(run.status(), JobStatus::Running);
    match run.action() {
        JobAction::MarkFailed(message) => assert_eq!(message, "connection lost"),
        other => panic!("{:?}", other),
    }
    run = step(run, JobEvent::Saved);
    assert_eq!(run.status(), JobStatus::Failed);
    match run.action() {
        JobAction::Stop(outcome) => assert_eq!(*outcome, Err("connection lost".to_string())),
        other => panic!("{:?}", other),
    }
}

#[test]
fn a_failed_save_ends_the_run() {
    let run = step(
        JobRun::start(Uuid(9), &request(1)),
        JobEvent::SaveFailed("no table".to_string()),
    );
    assert_eq!(run.status(), JobStatus::Pending);
    assert!(matches!(run.action(), JobAction::Stop(Err(text)) if text == "no table"));

    let run = step(JobRun::start(Uuid(9), &request(1)), JobEvent::Saved);
    let run = step(run, JobEvent::UpdateFailed("first".to_string()));
    let run = step(run, JobEvent::SaveFailed("second".to_string()));
    assert_eq!(run.status(), JobStatus::Running);
    assert!(matches!(run.action(), JobAction::Stop(Err(text)) if text == "second"));

    let run = step(JobRun::start(Uuid(9), &request(0)), JobEvent::Saved);
    let run = step(run, JobEvent::SaveFailed("third".to_string()));
    assert_eq!(run.status(), JobStatus::Running);
    assert!(matches!(run.action(), JobAction::Stop(Err(text)) if text == "third"));
}

#[test]
fn events_that_cannot_come_are_not_accepted() {
    let run = JobRun::start(Uuid(9), &request(450));
    assert!(!run.accepts(&JobEvent::Updated(result(1, 0, &[]))));
    assert!(!run.accepts(&JobEvent::UpdateFailed("early".to_string())));
    let run = step(run, JobEvent::Saved);
    assert!(!run.accepts(&JobEvent::Saved));
    let run = step(run, JobEvent::Updated(result(usize::MAX, 0, &[])));
    assert!(!run.accepts(&JobEvent::Updated(result(1, 0, &[]))));
    assert!(run.accepts(&JobEvent::Updated(result(0, usize::MAX, &[]))));
}

#[test]
fn actions_name_what_they_store() {
    let run = JobRun::start(Uuid(9), &request(1));
    let columns = run.action().columns().unwrap();
    assert_eq!(columns.status.as_str(), "running");
    assert!(columns.started && !columns.completed);
    assert!(columns.error_message.is_none() && columns.result_summary.is_none());

    let run = step(run, JobEvent::Saved);
    assert!(run.action().columns().is_none());
    let failed = step(run, JobEvent::UpdateFailed("broken".to_string()));
    let columns = failed.action().columns().unwrap();
    assert_eq!(columns.status.as_str(), "failed");
    assert!(!columns.started && columns.completed);
    assert_eq!(columns.error_message, Some("broken"));
    assert!(columns.result_summary.is_none());

    let run = step(JobRun::start(Uuid(9), &request(1)), JobEvent::Saved);
    let done = step(run, JobEvent::Updated(result(0, 1, &[0])));
    let columns = done.action().columns().unwrap();
    assert_eq!(columns.status.as_str(), "completed");
    assert!(!columns.started && columns.completed);
    assert!(columns.error_message.is_none());
    let summary = columns.result_summary.unwrap();
    assert_eq!((summary.updated, summary.failed, summary.errors.len()), (0, 1, 1));
    assert_eq!(JobStatus::Pending.as_str(), "pending");
}

fn row(transaction_count: Option<i32>) -> JobRow {
    JobRow {
        id: Uuid(3),
        status: "completed".to_string(),
        transaction_count,
        target_status: "failed".to_string(),
        result_summary: Some(serde_json::Value::from(1498)),
        error_message: None,
        created_at: Timestamp { seconds: 1_787_859_000, nanoseconds: 0 },
        started_at: Some(Timestamp { seconds: 1_787_859_001, nanoseconds: 5 }),
        completed_at: None,
    }
}

#[test]
fn a_stored_job_is_reported() {
    let status = fetch_job_status(Uuid(3), Some(row(Some(1500)))).unwrap();
    assert_eq!(status.id, Uuid(3));
    assert_eq!(status.status, "completed");
    assert_eq!(status.transaction_count, 1500);
    assert_eq!(status.target_status, "failed");
    assert_eq!(status.result_summary, Some(serde_json::Value::from(1498)));
    assert_eq!(status.error_message, None);
    assert_eq!(status.created_at.seconds, 1_787_859_000);
    assert_eq!(status.started_at.unwrap().nanoseconds, 5);
    assert_eq!(status.completed_at, None);
}

#[test]
fn a_found_job_is_answered_with_ok() {
    for status in ["pending", "running", "completed", "failed"] {
        let mut stored = row(Some(1));
        stored.status = status.to_string();
        let answer = fetch_job_status(Uuid(3), Some(stored)).unwrap();
        assert_eq!(answer.status, status);
        assert_eq!(answer.status_code(), 200);
    }
}

/// A request is stored, its run stores how far it is, and each poll reads that.
#[test]
fn a_poll_follows_the_run() {
    let req = request(450);
    let at = |seconds: i64| Timestamp { seconds, nanoseconds: 0 };
    let poll = |run: &JobRun, started: Option<i64>, ended: Option<i64>, error: Option<&str>| {
        let stored = JobRow {
            id: run.job_id(),
            status: run.status().as_str().to_string(),
            transaction_count: Some(req.transaction_ids.len() as i32),
            target_status: req.status.clone(),
            result_summary: None,
            error_message: error.map(|text| text.to_string()),
            created_at: at(1),
            started_at: started.map(at),
            completed_at: ended.map(at),
        };
        fetch_job_status(run.job_id(), Some(stored)).unwrap()
    };

    let run = JobRun::start(Uuid(9), &req);
    let answer = poll(&run, None, None, None);
    assert_eq!((answer.id, answer.status.as_str()), (Uuid(9), "pending"));
    assert_eq!(answer.transaction_count, 450);
    assert_eq!(answer.target_status, "failed");
    assert_eq!((answer.started_at, answer.completed_at), (None, None));

    let run = step(run, JobEvent::Saved);
    assert_eq!(poll(&run, Some(2), None, None).status, "running");

    let run = step(run, JobEvent::UpdateFailed("connection lost".to_string()));
    let reason = match run.action() {
        JobAction::MarkFailed(message) => message.to_string(),
        other => panic!("{:?}", other),
    };
    let run = step(run, JobEvent::Saved);
    let answer = poll(&run, Some(2), Some(3), Some(reason.as_str()));
    assert_eq!(answer.status, "failed");
    assert_eq!(answer.error_message.as_deref(), Some("connection lost"));
    assert_eq!(answer.transaction_count, 450);
    assert_eq!(answer.completed_at, Some(at(3)));
}

#[test]
fn a_missing_count_is_zero() {
    assert_eq!(fetch_job_status(Uuid(3), Some(row(None))).unwrap().transaction_count, 0);
    let negative = fetch_job_status(Uuid(3), Some(row(Some(-1)))).unwrap();
    assert_eq!(negative.transaction_count, -1i32 as usize);
}

#[test]
fn a_job_that_is_not_stored_is_not_found() {
    match fetch_job_status(Uuid(1), None) {
        Err(AppError::NotFound(text)) => assert_eq!(
            text,
            "Bulk status job 00000000-0000-0000-0000-000000000001 not found"
        ),
        other => panic!("{:?}", other),
    }
}
