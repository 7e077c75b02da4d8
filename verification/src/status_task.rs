//! The task that looks after a payment method whose status is to change.

use vstd::prelude::*;

use crate::date_time::{PrimitiveDateTime, MAX_UNIX_NANOS};
use crate::enums::PaymentMethodStatus;
use crate::errors::{ApiErrorResponse, OperationFailed};
use crate::payment_method_types::StoredPaymentMethod;
use crate::payout_types::MerchantId;

verus! {

/// The name of the task.
pub const PAYMENT_METHOD_STATUS_UPDATE_TASK: &'static str = "PAYMENT_METHOD_STATUS_UPDATE";

/// The mark that the task carries.
pub const PAYMENT_METHOD_STATUS_TAG: &'static str = "PAYMENT_METHOD_STATUS";

/// For how many seconds a session lasts.
pub const DEFAULT_SESSION_EXPIRY: i64 = 900;

/// The workflows that carry out tasks.
#[derive(Clone, Copy, Debug, PartialEq, Eq, Structural)]
pub enum ProcessTrackerRunner {
    PaymentMethodStatusUpdateWorkflow,
}

impl ProcessTrackerRunner {
    /// The workflow in capitals, as it stands in identifiers.
    pub open spec fn text(self) -> Seq<char> {
        match self {
            ProcessTrackerRunner::PaymentMethodStatusUpdateWorkflow =>
                "PAYMENT_METHOD_STATUS_UPDATE_WORKFLOW"@,
        }
    }

    /// Computes [`ProcessTrackerRunner::text`].
    pub fn as_str(&self) -> (r: &'static str)
        ensures
            r@ == self.text(),
    {
        match self {
            ProcessTrackerRunner::PaymentMethodStatusUpdateWorkflow => {
                "PAYMENT_METHOD_STATUS_UPDATE_WORKFLOW"
            },
        }
    }
}

/// What the task needs to know.
#[derive(Debug, PartialEq, Eq)]
pub struct PaymentMethodStatusTrackingData {
    pub payment_method_id: String,
    pub prev_status: PaymentMethodStatus,
    pub curr_status: PaymentMethodStatus,
    pub merchant_id: MerchantId,
}

/// A task to enter.
#[derive(Debug, PartialEq, Eq)]
pub struct ProcessTrackerEntry {
    pub process_tracker_id: String,
    pub task: &'static str,
    pub runner: ProcessTrackerRunner,
    pub tag: &'static str,
    pub tracking_data: PaymentMethodStatusTrackingData,
    pub schedule_time: PrimitiveDateTime,
}

/// Why a task could not be entered.
#[derive(Debug, PartialEq, Eq)]
pub enum ProcessTrackerError {
    EApiErrorResponse(ApiErrorResponse),
}

/// The identifier of a task, made of who carries it out, what it is and what it
/// is about.
pub open spec fn task_id(
    key_id: Seq<char>,
    runner: ProcessTrackerRunner,
    task: Seq<char>,
) -> Seq<char> {
    runner.text() + "_"@ + task + "_"@ + key_id
}

/// Computes [`task_id`].
pub fn generate_task_id_for_payment_method_status_update_workflow(
    key_id: &str,
    runner: &ProcessTrackerRunner,
    task: &str,
) -> (r: String)
    ensures
        r@ == task_id(key_id@, *runner, task@),
{
    let mut id = runner.as_str().to_owned();
    id.append("_");
    id.append(task);
    id.append("_");
    id.append(key_id);
    id
}

/// Forms the task for a payment method: it is due once the session in which the
/// method was created is over.
pub fn add_payment_method_status_update_task(
    payment_method: &StoredPaymentMethod,
    prev_status: PaymentMethodStatus,
    curr_status: PaymentMethodStatus,
    merchant_id: &MerchantId,
) -> (r: ProcessTrackerEntry)
    requires
        payment_method.created_at.wf(),
    ensures
        r.process_tracker_id@ == task_id(
            payment_method.payment_method_id@,
            ProcessTrackerRunner::PaymentMethodStatusUpdateWorkflow,
            PAYMENT_METHOD_STATUS_UPDATE_TASK@,
        ),
        r.task == PAYMENT_METHOD_STATUS_UPDATE_TASK,
        r.runner == ProcessTrackerRunner::PaymentMethodStatusUpdateWorkflow,
        r.tag == PAYMENT_METHOD_STATUS_TAG,
        r.tracking_data == (PaymentMethodStatusTrackingData {
            payment_method_id: payment_method.payment_method_id,
            prev_status,
            curr_status,
            merchant_id: *merchant_id,
        }),
        r.schedule_time.wf(),
        r.schedule_time.unix_nanos == payment_method.created_at.saturated_sum(
            DEFAULT_SESSION_EXPIRY as int,
        ),
{
    let schedule_time = payment_method.created_at.saturating_plus_seconds(DEFAULT_SESSION_EXPIRY);
    let tracking_data = PaymentMethodStatusTrackingData {
        payment_method_id: payment_method.payment_method_id.clone(),
        prev_status,
        curr_status,
        merchant_id: merchant_id.clone(),
    };
    let runner = ProcessTrackerRunner::PaymentMethodStatusUpdateWorkflow;
    let task = PAYMENT_METHOD_STATUS_UPDATE_TASK;
    let process_tracker_id = generate_task_id_for_payment_method_status_update_workflow(
        payment_method.payment_method_id.as_str(),
        &runner,
        task,
    );
    ProcessTrackerEntry {
        process_tracker_id,
        task,
        runner,
        tag: PAYMENT_METHOD_STATUS_TAG,
        tracking_data,
        schedule_time,
    }
}

/// Goes on once the task was entered, or could not be.
pub fn resume_add_payment_method_status_update_task(
    inserted: Result<(), OperationFailed>,
) -> (r: Result<(), ProcessTrackerError>)
    ensures
        r is Ok <==> inserted is Ok,
        r matches Err(error) ==> error == ProcessTrackerError::EApiErrorResponse(
            ApiErrorResponse::InternalServerError,
        ),
{
    match inserted {
        Ok(_) => Ok(()),
        Err(_) => Err(
            ProcessTrackerError::EApiErrorResponse(ApiErrorResponse::InternalServerError),
        ),
    }
}

/// Different payment methods have different tasks: for one workflow and one
/// task, the identifier tells what it is about.
pub proof fn task_ids_tell_methods_apart(
    runner: ProcessTrackerRunner,
    task: Seq<char>,
    key_id: Seq<char>,
    other_id: Seq<char>,
)
    requires
        task_id(key_id, runner, task) == task_id(other_id, runner, task),
    ensures
        key_id == other_id,
{
    let prefix = runner.text() + "_"@ + task + "_"@;
    let id = task_id(key_id, runner, task);
    assert(id.skip(prefix.len() as int) =~= key_id);
    assert(id.skip(prefix.len() as int) =~= other_id);
}

/// A task is never due before its payment method exists.
pub proof fn tasks_follow_their_method(created_at: PrimitiveDateTime)
    requires
        created_at.wf(),
    ensures
        created_at.unix_nanos <= created_at.saturated_sum(DEFAULT_SESSION_EXPIRY as int),
{
}

/// A task is about the payment method and its merchant, from the one status to
/// the other, and it is due a quarter of an hour after the method was created, or
/// at the last moment that can be expressed.
pub proof fn tasks_are_about_their_method(
    payment_method: &StoredPaymentMethod,
    prev_status: PaymentMethodStatus,
    curr_status: PaymentMethodStatus,
    merchant_id: &MerchantId,
    entry: ProcessTrackerEntry,
)
    requires
        payment_method.created_at.wf(),
        call_ensures(
            add_payment_method_status_update_task,
            (payment_method, prev_status, curr_status, merchant_id),
            entry,
        ),
    ensures
        entry.tracking_data.payment_method_id == payment_method.payment_method_id,
        entry.tracking_data.prev_status == prev_status,
        entry.tracking_data.curr_status == curr_status,
        entry.tracking_data.merchant_id == *merchant_id,
        entry.task@ == "PAYMENT_METHOD_STATUS_UPDATE"@,
        entry.tag@ == "PAYMENT_METHOD_STATUS"@,
        entry.runner is PaymentMethodStatusUpdateWorkflow,
        entry.schedule_time.unix_nanos >= payment_method.created_at.unix_nanos,
        payment_method.created_at.can_add(900) ==> entry.schedule_time.unix_nanos
            - payment_method.created_at.unix_nanos == 15 * 60 * 1_000_000_000,
        !payment_method.created_at.can_add(900) ==> entry.schedule_time.unix_nanos
            == MAX_UNIX_NANOS,
        entry.process_tracker_id@
            == "PAYMENT_METHOD_STATUS_UPDATE_WORKFLOW_PAYMENT_METHOD_STATUS_UPDATE_"@
            + payment_method.payment_method_id@,
{
    let runner = "PAYMENT_METHOD_STATUS_UPDATE_WORKFLOW"@;
    let whole = "PAYMENT_METHOD_STATUS_UPDATE_WORKFLOW_PAYMENT_METHOD_STATUS_UPDATE_"@;
    reveal_strlit("PAYMENT_METHOD_STATUS_UPDATE_WORKFLOW");
    reveal_strlit("PAYMENT_METHOD_STATUS_UPDATE");
    reveal_strlit("_");
    reveal_strlit("PAYMENT_METHOD_STATUS_UPDATE_WORKFLOW_PAYMENT_METHOD_STATUS_UPDATE_");
    assert(runner + "_"@ + "PAYMENT_METHOD_STATUS_UPDATE"@ + "_"@ =~= whole);
}

/// The identifier of a task shows in turn who carries it out, what it is and what
/// it is about.
pub proof fn identifiers_show_their_task(
    key_id: &str,
    runner: &ProcessTrackerRunner,
    task: &str,
    name: &'static str,
    id: String,
)
    requires
        call_ensures(ProcessTrackerRunner::as_str, (runner,), name),
        call_ensures(
            generate_task_id_for_payment_method_status_update_workflow,
            (key_id, runner, task),
            id,
        ),
    ensures
        name@ == "PAYMENT_METHOD_STATUS_UPDATE_WORKFLOW"@,
        id@.len() == name@.len() + 1 + task@.len() + 1 + key_id@.len(),
        name@.is_prefix_of(id@),
        id@[name@.len() as int] == '_',
        id@.subrange(name@.len() as int + 1, name@.len() as int + 1 + task@.len()) == task@,
        id@[name@.len() as int + 1 + task@.len()] == '_',
        key_id@.is_suffix_of(id@),
{
    reveal_strlit("_");
    let n = name@.len() as int;
    assert(id@.subrange(0, n) =~= name@);
    assert(id@.subrange(n + 1, n + 1 + task@.len()) =~= task@);
    assert(id@.subrange(id@.len() - key_id@.len(), id@.len() as int) =~= key_id@);
}

/// A task that could not be entered is an internal error, and nothing else is.
pub proof fn tasks_are_entered_or_told(
    inserted: Result<(), OperationFailed>,
    r: Result<(), ProcessTrackerError>,
)
    requires
        call_ensures(resume_add_payment_method_status_update_task, (inserted,), r),
    ensures
        inserted is Ok ==> r is Ok,
        inserted is Err ==> r is Err && r->Err_0->EApiErrorResponse_0 is InternalServerError,
{
}

} // verus!
