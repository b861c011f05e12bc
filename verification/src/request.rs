//! The bulk status request: what it holds, when it is acceptable, and the batch size up to
//! which it is processed at once.

use vstd::prelude::*;
use vstd::string::*;

use crate::error::AppError;
use crate::ids::Uuid;
use crate::text::{join, parse_usize};

verus! {

use crate::error::AppErrorView;
use crate::text::{decimal_round_trip, decimal_text, joined, parsed_usize, texts};

/// The most transactions that one request may name.
pub const MAX_TRANSACTIONS: usize = 10_000;

/// The threshold where none is configured.
pub const DEFAULT_ASYNC_THRESHOLD: usize = 50;

/// A request to move transactions to a status.
#[derive(Debug)]
pub struct BulkStatusRequest {
    pub transaction_ids: Vec<Uuid>,
    pub status: String,
    pub reason: Option<String>,
}

/// The model of a [`BulkStatusRequest`].
pub struct BulkStatusRequestView {
    pub transaction_ids: Seq<Uuid>,
    pub status: Seq<char>,
    pub reason: Option<Seq<char>>,
}

/// The text of an optional string, where there is one.
pub open spec fn optional_text(text: Option<String>) -> Option<Seq<char>> {
    match text {
        Some(t) => Some(t@),
        None => None,
    }
}

impl View for BulkStatusRequest {
    type V = BulkStatusRequestView;

    open spec fn view(&self) -> BulkStatusRequestView {
        BulkStatusRequestView {
            transaction_ids: self.transaction_ids@,
            status: self.status@,
            reason: optional_text(self.reason),
        }
    }
}

/// The statuses that a transaction can be moved to.
pub open spec fn valid_statuses() -> Seq<Seq<char>> {
    seq!["pending"@, "processing"@, "completed"@, "failed"@]
}

/// What a caller is told of a status that is none of [`valid_statuses`].
pub open spec fn invalid_status_text(status: Seq<char>) -> Seq<char> {
    "invalid status '"@ + status + "', must be one of: "@ + joined(valid_statuses(), ", "@)
}

/// The error that a request is refused with; `None` for an acceptable one.
pub open spec fn rejection(request: BulkStatusRequestView) -> Option<AppErrorView> {
    if request.transaction_ids.len() == 0 {
        Some(AppErrorView::BadRequest("transaction_ids must not be empty"@))
    } else if request.transaction_ids.len() > MAX_TRANSACTIONS {
        Some(
            AppErrorView::BadRequest("transaction_ids must not exceed 10,000 items per request"@),
        )
    } else if !valid_statuses().contains(request.status) {
        Some(AppErrorView::Validation(invalid_status_text(request.status)))
    } else {
        None
    }
}

/// The threshold that a setting gives: its number, or the default where there is no setting
/// or it is no number.
pub open spec fn threshold_of(setting: Option<Seq<char>>) -> usize {
    match setting {
        Some(numeral) => match parsed_usize(numeral) {
            Some(threshold) => threshold,
            None => DEFAULT_ASYNC_THRESHOLD,
        },
        None => DEFAULT_ASYNC_THRESHOLD,
    }
}

/// The statuses that a transaction can be moved to.
fn status_names() -> (names: Vec<&'static str>)
    ensures
        texts(names@) == valid_statuses(),
{
    let names: Vec<&'static str> = vec!["pending", "processing", "completed", "failed"];
    proof {
        assert(texts(names@) =~= valid_statuses());
    }
    names
}

/// Whether `status` is one of `names`.
fn is_listed(names: &Vec<&'static str>, status: &String) -> (listed: bool)
    ensures
        listed == texts(names@).contains(status@),
{
    let mut i: usize = 0;
    while i < names.len()
        invariant
            i <= names.len(),
            forall|j: int| 0 <= j < i ==> texts(names@)[j] != status@,
        decreases names.len() - i,
    {
        if *status == names[i].to_owned() {
            proof {
                assert(texts(names@)[i as int] == status@);
            }
            return true;
        }
        i = i + 1;
    }
    false
}

/// Checks a request before anything is done with it.
///
/// The checks are made in this order: that it names a transaction, that it names no more than
/// [`MAX_TRANSACTIONS`], and that the status is one that a transaction can have.
pub fn validate_request(payload: &BulkStatusRequest) -> (checked: Result<(), AppError>)
    ensures
        match checked {
            Ok(()) => rejection(payload@) is None,
            Err(error) => rejection(payload@) == Some(error@),
        },
        checked is Ok <==> 0 < payload.transaction_ids@.len() <= 10_000 && (payload.status@
            == "pending"@ || payload.status@ == "processing"@ || payload.status@ == "completed"@
            || payload.status@ == "failed"@),
        payload.transaction_ids@.len() == 0 ==> {
            &&& checked matches Err(AppError::BadRequest(text))
            &&& text@ == "transaction_ids must not be empty"@
        },
        payload.transaction_ids@.len() > 10_000 ==> {
            &&& checked matches Err(AppError::BadRequest(text))
            &&& text@ == "transaction_ids must not exceed 10,000 items per request"@
        },
        checked is Err && 0 < payload.transaction_ids@.len() <= 10_000 ==> {
            &&& checked matches Err(AppError::Validation(text))
            &&& text@ == "invalid status '"@ + payload.status@
                + "', must be one of: pending, processing, completed, failed"@
        },
{
    proof {
        acceptable_requests(payload@);
        invalid_status_is_explained(payload.status@);
    }
    if payload.transaction_ids.len() == 0 {
        return Err(AppError::BadRequest("transaction_ids must not be empty".to_owned()));
    }
    if payload.transaction_ids.len() > MAX_TRANSACTIONS {
        return Err(
            AppError::BadRequest(
                "transaction_ids must not exceed 10,000 items per request".to_owned(),
            ),
        );
    }
    let names = status_names();
    if !is_listed(&names, &payload.status) {
        let mut text = "invalid status '".to_owned();
        text.append(payload.status.as_str());
        text.append("', must be one of: ");
        text.append(join(&names, ", ").as_str());
        return Err(AppError::Validation(text));
    }
    Ok(())
}

/// The largest batch that is processed at once, given the value of the setting
/// `BULK_STATUS_ASYNC_THRESHOLD`, if it has one.
pub fn async_threshold(setting: Option<&str>) -> (threshold: usize)
    ensures
        threshold == threshold_of(
            match setting {
                Some(numeral) => Some(numeral@),
                None => None,
            },
        ),
        setting is None ==> threshold == 50,
        setting matches Some(numeral) ==> threshold == (match parsed_usize(numeral@) {
            Some(number) => number,
            None => 50,
        }),
{
    match setting {
        Some(numeral) => match parse_usize(numeral) {
            Some(threshold) => threshold,
            None => DEFAULT_ASYNC_THRESHOLD,
        },
        None => DEFAULT_ASYNC_THRESHOLD,
    }
}

/// A request is acceptable exactly when it names at least one transaction and at most 10,000, and
/// a status that a transaction can have.
pub proof fn acceptable_requests(request: BulkStatusRequestView)
    ensures
        rejection(request) is None <==> {
            &&& 0 < request.transaction_ids.len() <= 10_000
            &&& request.status == "pending"@ || request.status == "processing"@ || request.status
                == "completed"@ || request.status == "failed"@
        },
{
    let names = valid_statuses();
    assert(names[0] == "pending"@ && names[1] == "processing"@);
    assert(names[2] == "completed"@ && names[3] == "failed"@);
}

/// The text on a status that is not allowed names the status and all that are.
pub proof fn invalid_status_is_explained(status: Seq<char>)
    ensures
        invalid_status_text(status) == "invalid status '"@ + status
            + "', must be one of: pending, processing, completed, failed"@,
{
    reveal_strlit("pending");
    reveal_strlit("processing");
    reveal_strlit("completed");
    reveal_strlit("failed");
    reveal_strlit(", ");
    reveal_strlit("', must be one of: ");
    reveal_strlit("', must be one of: pending, processing, completed, failed");
    let names = valid_statuses();
    let two = names.take(2);
    let three = names.take(3);
    assert(names.drop_last() =~= three);
    assert(three.drop_last() =~= two);
    assert(two.drop_last() =~= seq!["pending"@]);
    assert(joined(two.drop_last(), ", "@) == "pending"@);
    assert(joined(two, ", "@) == "pending"@ + ", "@ + "processing"@);
    assert(joined(three, ", "@) == "pending"@ + ", "@ + "processing"@ + ", "@ + "completed"@);
    let listed = "pending"@ + ", "@ + "processing"@ + ", "@ + "completed"@ + ", "@ + "failed"@;
    assert(joined(names, ", "@) == listed);
    assert("', must be one of: "@ + listed
        =~= "', must be one of: pending, processing, completed, failed"@);
    assert(invalid_status_text(status) =~= "invalid status '"@ + status + ("', must be one of: "@
        + listed));
}

/// A setting that is the numeral of a number gives that number.
pub proof fn threshold_is_configurable(threshold: usize)
    ensures
        threshold_of(Some(decimal_text(threshold as nat))) == threshold,
{
    decimal_round_trip(threshold);
}

/// Without a setting, or with one that is no number, the threshold is 50.
pub proof fn threshold_has_a_default(setting: Seq<char>)
    ensures
        threshold_of(None) == 50,
        parsed_usize(setting) is None ==> threshold_of(Some(setting)) == 50,
{
}

} // verus!
