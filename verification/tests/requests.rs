use bulk_status::dispatch::{
    dispatch, enqueue_job, enqueue_reply, update_reply, BulkUpdateError, BulkUpdateResult,
    DispatchAction, Reply,
};
use bulk_status::error::AppError;
use bulk_status::ids::Uuid;
use bulk_status::job::JobAction;
use bulk_status::request::{
    async_threshold, validate_request, BulkStatusRequest, DEFAULT_ASYNC_THRESHOLD,
    MAX_TRANSACTIONS,
};
use bulk_status::text::{decimal, join, parse_usize};

fn new_id() -> Uuid {
    Uuid(uuid::Uuid::new_v4().as_u128())
}

fn request(count: usize, status: &str) -> BulkStatusRequest {
    BulkStatusRequest {
        transaction_ids: (0..count).map(|_| new_id()).collect(),
        status: status.to_string(),
        reason: None,
    }
}

#[test]
fn test_bulk_status_request_deserializes() {
    let json = r#"{
            "transaction_ids": ["00000000-0000-0000-0000-000000000001"],
            "status": "failed",
            "reason": "manual override"
        }"#;
    let body: serde_json::Value = serde_json::from_str(json).unwrap();
    let req = BulkStatusRequest {
        transaction_ids: body["transaction_ids"]
            .as_array()
            .unwrap()
            .iter()
            .map(|id| Uuid(uuid::Uuid::parse_str(id.as_str().unwrap()).unwrap().as_u128()))
            .collect(),
        status: body["status"].as_str().unwrap().to_string(),
        reason: body["reason"].as_str().map(|reason| reason.to_string()),
    };
    assert_eq!(req.status, "failed");
    assert_eq!(req.reason.as_deref(), Some("manual override"));
    assert_eq!(req.transaction_ids.len(), 1);
    assert_eq!(req.transaction_ids[0], Uuid(1));
    assert!(validate_request(&req).is_ok());
}

#[test]
fn test_validate_request_empty_ids() {
    let req = BulkStatusRequest {
        transaction_ids: vec![],
        status: "failed".to_string(),
        reason: None,
    };
    assert!(validate_request(&req).is_err());
}

#[test]
fn test_validate_request_invalid_status() {
    let req = BulkStatusRequest {
        transaction_ids: vec![new_id()],
        status: "bogus".to_string(),
        reason: None,
    };
    assert!(validate_request(&req).is_err());
}

#[test]
fn test_validate_request_exceeds_max() {
    let req = BulkStatusRequest {
        transaction_ids: (0..10_001).map(|_| new_id()).collect(),
        status: "failed".to_string(),
        reason: None,
    };
    assert!(validate_request(&req).is_err());
}

#[test]
fn test_validate_request_valid() {
    let req = BulkStatusRequest {
        transaction_ids: vec![new_id()],
        status: "completed".to_string(),
        reason: Some("done".to_string()),
    };
    assert!(validate_request(&req).is_ok());
}

#[test]
fn test_async_threshold_default() {
    assert_eq!(async_threshold(None), 50);
    assert_eq!(DEFAULT_ASYNC_THRESHOLD, 50);
}

/// Exactly-threshold batch: updated at once.
#[test]
fn test_threshold_boundary_sync() {
    let threshold = async_threshold(None);
    let ids: Vec<Uuid> = (0..threshold).map(|_| new_id()).collect();
    let req = BulkStatusRequest {
        transaction_ids: ids,
        status: "failed".to_string(),
        reason: None,
    };
    assert!(validate_request(&req).is_ok());
    assert!(req.transaction_ids.len() <= async_threshold(None));
    assert!(matches!(
        dispatch(&req, async_threshold(None)),
        Ok(DispatchAction::Update(_))
    ));
}

/// One-over-threshold batch: stored as a job.
#[test]
fn test_threshold_boundary_async() {
    let threshold = async_threshold(None);
    let ids: Vec<Uuid> = (0..=threshold).map(|_| new_id()).collect();
    let req = BulkStatusRequest {
        transaction_ids: ids,
        status: "failed".to_string(),
        reason: None,
    };
    assert!(validate_request(&req).is_ok());
    assert!(req.transaction_ids.len() > async_threshold(None));
    assert!(matches!(
        dispatch(&req, async_threshold(None)),
        Ok(DispatchAction::Enqueue(_))
    ));
}

#[test]
fn refusals_say_why() {
    match validate_request(&request(0, "bogus")) {
        Err(AppError::BadRequest(text)) => assert_eq!(text, "transaction_ids must not be empty"),
        other => panic!("{:?}", other),
    }
    match validate_request(&request(MAX_TRANSACTIONS + 1, "bogus")) {
        Err(AppError::BadRequest(text)) => {
            assert_eq!(text, "transaction_ids must not exceed 10,000 items per request")
        }
        other => panic!("{:?}", other),
    }
    match validate_request(&request(1, "bogus")) {
        Err(AppError::Validation(text)) => assert_eq!(
            text,
            "invalid status 'bogus', must be one of: pending, processing, completed, failed"
        ),
        other => panic!("{:?}", other),
    }
}

#[test]
fn every_known_status_is_accepted() {
    for status in ["pending", "processing", "completed", "failed"] {
        assert!(validate_request(&request(1, status)).is_ok());
    }
    for status in ["", "Pending", "pending ", "running", "f\u{e4}iled"] {
        assert!(validate_request(&request(1, status)).is_err());
    }
    assert!(validate_request(&request(MAX_TRANSACTIONS, "failed")).is_ok());
}

#[test]
fn threshold_setting() {
    assert_eq!(async_threshold(Some("0")), 0);
    assert_eq!(async_threshold(Some("7")), 7);
    assert_eq!(async_threshold(Some("+7")), 7);
    assert_eq!(async_threshold(Some("0010")), 10);
    assert_eq!(async_threshold(Some("10000")), 10_000);
    for setting in ["", "+", "-1", "++1", " 7", "7 ", "1_000", "0x10", "seven", "\u{663}"] {
        assert_eq!(async_threshold(Some(setting)), 50);
    }
    assert_eq!(async_threshold(Some(&usize::MAX.to_string())), usize::MAX);
    assert_eq!(async_threshold(Some("99999999999999999999999")), 50);
}

#[test]
fn numerals_agree_with_the_standard_library() {
    for n in [0, 1, 9, 10, 11, 99, 100, 1500, 10_000, usize::MAX - 1, usize::MAX] {
        assert_eq!(decimal(n), n.to_string());
        assert_eq!(parse_usize(&decimal(n)), Some(n));
    }
    for text in ["", "+", "-", "-0", "+0", "00", "1a", "a1", "18446744073709551616", "1.0"] {
        assert_eq!(parse_usize(text), text.parse::<usize>().ok());
    }
}

#[test]
fn lists_are_joined() {
    assert_eq!(join(&vec![], ", "), "");
    assert_eq!(join(&vec!["a"], ", "), "a");
    assert_eq!(join(&vec!["a", "b", ""], "--"), "a--b--");
}

#[test]
fn an_update_carries_the_request() {
    let mut req = request(3, "completed");
    req.reason = Some("late settlement".to_string());
    match dispatch(&req, 3) {
        Ok(DispatchAction::Update(call)) => {
            assert_eq!(call.transaction_ids, req.transaction_ids.as_slice());
            assert_eq!(call.status, "completed");
            assert_eq!(call.reason, Some("late settlement"));
            assert_eq!(call.actor, "admin");
        }
        other => panic!("{:?}", other),
    }
    match dispatch(&req, 2) {
        Ok(DispatchAction::Enqueue(job)) => {
            assert_eq!(job.transaction_ids, req.transaction_ids.as_slice());
            assert_eq!(job.target_status, "completed");
            assert_eq!(job.reason, Some("late settlement"));
            assert_eq!(job.actor, "admin");
        }
        other => panic!("{:?}", other),
    }
    assert_eq!(enqueue_job(&request(1, "failed")).reason, None);
    assert!(matches!(
        dispatch(&request(1, "bogus"), 5),
        Err(AppError::Validation(_))
    ));
}

#[test]
fn an_updated_batch_is_reported() {
    let result = BulkUpdateResult {
        updated: 12,
        failed: 1,
        errors: vec![BulkUpdateError {
            transaction_id: Uuid(7),
            error: "invalid status transition".to_string(),
        }],
    };
    let reply = update_reply::<String>(Ok(result)).unwrap();
    assert_eq!(reply.status_code(), 200);
    match reply {
        Reply::Updated(response) => {
            assert_eq!(response.updated, 12);
            assert_eq!(response.failed, 1);
            assert_eq!(response.errors.len(), 1);
            assert_eq!(response.errors[0].transaction_id, Uuid(7));
            assert_eq!(response.errors[0].error, "invalid status transition");
        }
        other => panic!("{:?}", other),
    }
    assert_eq!(update_reply(Err("down")).unwrap_err(), "down");
}

#[test]
fn a_queued_batch_is_reported() {
    let id = uuid::Uuid::parse_str("550e8400-e29b-41d4-a716-446655440000").unwrap();
    let req = request(1500, "failed");
    let (reply, run) = enqueue_reply::<String>(&req, Ok(Uuid(id.as_u128()))).unwrap();
    assert_eq!(run.job_id(), Uuid(id.as_u128()));
    assert!(matches!(run.action(), JobAction::MarkRunning));
    assert_eq!(reply.status_code(), 202);
    match reply {
        Reply::Queued(queued) => {
            assert_eq!(queued.job_id, Uuid(id.as_u128()));
            assert_eq!(queued.status, "pending");
            assert_eq!(
                queued.message,
                "Batch of 1500 transactions queued as async job. Poll GET \
                 /admin/transactions/bulk-status/jobs/550e8400-e29b-41d4-a716-446655440000 \
                 for results."
            );
        }
        other => panic!("{:?}", other),
    }
    assert_eq!(enqueue_reply(&req, Err("down")).unwrap_err(), "down");
}

#[test]
fn identifiers_are_hyphenated() {
    assert_eq!(
        Uuid(0xa1a2a3a4b1b2c1c2d1d2d3d4d5d6d7d8).to_text(),
        "a1a2a3a4-b1b2-c1c2-d1d2-d3d4d5d6d7d8"
    );
    assert_eq!(Uuid(1).to_text(), "00000000-0000-0000-0000-000000000001");
    assert_ne!(Uuid(1).to_text(), Uuid(2).to_text());
}
