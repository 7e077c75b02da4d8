//! Changing a payout that was not handed to its connector yet.
//!
//! The flow asks for one outside operation at a time and is resumed with the
//! reply, until it is done.

use vstd::prelude::*;
use vstd::pervasive::unreached;

use crate::enums::{PayoutEntityType, PayoutStatus, PayoutType};
use crate::errors::{ApiErrorResponse, StorageError};
use crate::payout_status::{is_payout_initiated, is_payout_terminal_state, updatable};
use crate::payout_types::{
    CountryAlpha2, Currency, MinorUnit, PayoutAttempt, PayoutData, Payouts, ProfileId,
};
use crate::text::{first_present, or_else, present_or, same_text, value_or};

verus! {

/// The changes that a merchant asks for. What is absent stays as it is.
#[derive(Debug, PartialEq, Eq)]
pub struct PayoutCreateRequest {
    pub amount: Option<MinorUnit>,
    pub currency: Option<Currency>,
    pub description: Option<String>,
    pub recurring: Option<bool>,
    pub auto_fulfill: Option<bool>,
    pub return_url: Option<String>,
    pub entity_type: Option<PayoutEntityType>,
    pub metadata: Option<serde_json::Value>,
    pub confirm: Option<bool>,
    pub payout_type: Option<PayoutType>,
    pub business_country: Option<CountryAlpha2>,
    pub business_label: Option<String>,
}

/// The new values of a payout.
#[derive(Debug, PartialEq, Eq)]
pub struct PayoutsUpdate {
    pub amount: MinorUnit,
    pub destination_currency: Currency,
    pub source_currency: Currency,
    pub description: Option<String>,
    pub recurring: bool,
    pub auto_fulfill: bool,
    pub return_url: Option<String>,
    pub entity_type: PayoutEntityType,
    pub metadata: Option<serde_json::Value>,
    pub status: Option<PayoutStatus>,
    pub profile_id: Option<ProfileId>,
    pub confirm: Option<bool>,
    pub payout_type: Option<PayoutType>,
}

/// Where the flow waits for a reply.
#[derive(Debug, PartialEq, Eq)]
pub enum UpdateState {
    UpdatingPayout {
        payout_data: PayoutData,
        business_country: Option<CountryAlpha2>,
        business_label: Option<String>,
    },
    UpdatingAttempt { payout_data: PayoutData },
}

/// An outside operation that the flow asks for.
#[derive(Debug, PartialEq, Eq)]
pub enum UpdateRequest {
    UpdatePayout { payouts: Payouts, update: PayoutsUpdate, payout_attempt: PayoutAttempt },
    UpdateBusiness {
        payout_attempt: PayoutAttempt,
        business_country: Option<CountryAlpha2>,
        business_label: Option<String>,
        payouts: Payouts,
    },
}

/// The outcome of an outside operation.
#[derive(Debug, PartialEq, Eq)]
pub enum UpdateReply {
    PayoutUpdated(Result<Payouts, StorageError>),
    BusinessUpdated(Result<PayoutAttempt, StorageError>),
}

/// How the flow ended, and the payout as it is then.
#[derive(Debug, PartialEq, Eq)]
pub struct UpdateOutcome {
    pub payout_data: PayoutData,
    pub result: Result<(), ApiErrorResponse>,
}

/// What the flow does next.
#[derive(Debug, PartialEq, Eq)]
pub enum UpdateStep {
    Ask(UpdateState, UpdateRequest),
    Done(UpdateOutcome),
}

impl UpdateState {
    /// Whether the reply is one to what the flow asked for in this state.
    pub open spec fn awaits(self, reply: UpdateReply) -> bool {
        match self {
            UpdateState::UpdatingPayout { .. } => reply is PayoutUpdated,
            UpdateState::UpdatingAttempt { .. } => reply is BusinessUpdated,
        }
    }
}

/// The values of a payout with the changes made. One currency is asked for, and
/// it becomes that of the source and of the destination.
pub open spec fn updated_payouts(payout_data: PayoutData, req: PayoutCreateRequest) -> PayoutsUpdate {
    let payouts = payout_data.payouts;
    PayoutsUpdate {
        amount: present_or(req.amount, payouts.amount),
        destination_currency: present_or(req.currency, payouts.destination_currency),
        source_currency: present_or(req.currency, payouts.source_currency),
        description: first_present(req.description, payouts.description),
        recurring: present_or(req.recurring, payouts.recurring),
        auto_fulfill: present_or(req.auto_fulfill, payouts.auto_fulfill),
        return_url: first_present(req.return_url, payouts.return_url),
        entity_type: present_or(req.entity_type, payouts.entity_type),
        metadata: first_present(req.metadata, payouts.metadata),
        status: Some(payout_data.payout_attempt.status),
        profile_id: Some(payout_data.payout_attempt.profile_id),
        confirm: req.confirm,
        payout_type: first_present(req.payout_type, payouts.payout_type),
    }
}

/// The text to change to, where one is asked for that is not there already.
pub open spec fn changed(current: Option<String>, requested: Option<String>) -> Option<String> {
    match (current, requested) {
        (Some(old_text), Some(new_text)) => if new_text@ != old_text@ {
            Some(new_text)
        } else {
            None
        },
        (Some(_), None) => None,
        (None, requested) => requested,
    }
}

fn find_change(current: &Option<String>, requested: Option<String>) -> (r: Option<String>)
    ensures
        r == changed(*current, requested),
{
    match (current, requested) {
        (Some(old_text), Some(new_text)) => {
            if !same_text(new_text.as_str(), old_text.as_str()) {
                Some(new_text)
            } else {
                None
            }
        },
        (Some(_), None) => None,
        (None, requested) => requested,
    }
}

/// What a merchant is told whose payout cannot be updated any more.
pub open spec fn update_refused_message(payout_id: Seq<char>, status: PayoutStatus) -> Seq<char> {
    "Payout "@ + payout_id + " cannot be updated for status "@ + status.text()
}

/// Whether the step is the first one: a payout whose status rules it out is not
/// updated.
pub open spec fn is_update_started(
    r: UpdateStep,
    payout_data: PayoutData,
    req: PayoutCreateRequest,
) -> bool {
    let attempt = payout_data.payout_attempt;
    if updatable(attempt.status) {
        r == UpdateStep::Ask(
            UpdateState::UpdatingPayout {
                payout_data,
                business_country: changed(attempt.business_country, req.business_country),
                business_label: changed(attempt.business_label, req.business_label),
            },
            UpdateRequest::UpdatePayout {
                payouts: payout_data.payouts,
                update: updated_payouts(payout_data, req),
                payout_attempt: attempt,
            },
        )
    } else {
        &&& r matches UpdateStep::Done(outcome)
        &&& outcome.payout_data == payout_data
        &&& outcome.result matches Err(ApiErrorResponse::InvalidRequestData { message })
        &&& message@ == update_refused_message(attempt.payout_id@, attempt.status)
    }
}

/// Starts to change a payout.
pub fn update_payouts_and_payout_attempt(
    payout_data: PayoutData,
    req: PayoutCreateRequest,
) -> (r: UpdateStep)
    ensures
        is_update_started(r, payout_data, req),
{
    let status = payout_data.payout_attempt.status;
    if is_payout_terminal_state(status) || is_payout_initiated(status) {
        let mut message = "Payout ".to_owned();
        message.append(payout_data.payout_attempt.payout_id.as_str());
        message.append(" cannot be updated for status ");
        message.append(status.as_str());
        return UpdateStep::Done(
            UpdateOutcome {
                payout_data,
                result: Err(ApiErrorResponse::InvalidRequestData { message }),
            },
        );
    }
    let payouts = payout_data.payouts.clone();
    let update = PayoutsUpdate {
        amount: value_or(req.amount, payouts.amount),
        destination_currency: value_or(
            req.currency.clone(),
            payouts.destination_currency.clone(),
        ),
        source_currency: value_or(req.currency, payouts.source_currency.clone()),
        description: or_else(req.description, payouts.description.clone()),
        recurring: value_or(req.recurring, payouts.recurring),
        auto_fulfill: value_or(req.auto_fulfill, payouts.auto_fulfill),
        return_url: or_else(req.return_url, payouts.return_url.clone()),
        entity_type: value_or(req.entity_type, payouts.entity_type),
        metadata: or_else(req.metadata, payouts.metadata.clone()),
        status: Some(status),
        profile_id: Some(payout_data.payout_attempt.profile_id.clone()),
        confirm: req.confirm,
        payout_type: or_else(req.payout_type, payouts.payout_type),
    };
    let business_country = find_change(
        &payout_data.payout_attempt.business_country,
        req.business_country,
    );
    let business_label = find_change(
        &payout_data.payout_attempt.business_label,
        req.business_label,
    );
    let payout_attempt = payout_data.payout_attempt.clone();
    UpdateStep::Ask(
        UpdateState::UpdatingPayout { payout_data, business_country, business_label },
        UpdateRequest::UpdatePayout { payouts, update, payout_attempt },
    )
}

/// Whether the step ends the flow with success.
pub open spec fn is_updated(r: UpdateStep, payout_data: PayoutData) -> bool {
    r matches UpdateStep::Done(outcome) && outcome.payout_data == payout_data
        && outcome.result is Ok
}

/// The flow gives up, with the payout as far as it was changed.
pub open spec fn failed_update(payout_data: PayoutData) -> UpdateStep {
    UpdateStep::Done(
        UpdateOutcome { payout_data, result: Err(ApiErrorResponse::InternalServerError) },
    )
}

/// What the flow does in `state` on `reply`.
pub open spec fn update_resumed(state: UpdateState, reply: UpdateReply, r: UpdateStep) -> bool {
    match (state, reply) {
        (
            UpdateState::UpdatingPayout { payout_data, business_country, business_label },
            UpdateReply::PayoutUpdated(updated),
        ) => match updated {
            Err(_) => r == failed_update(payout_data),
            Ok(payouts) => {
                let payout_data = PayoutData { payouts, payout_attempt: payout_data.payout_attempt };
                if business_country is None && business_label is None {
                    is_updated(r, payout_data)
                } else {
                    r == UpdateStep::Ask(
                        UpdateState::UpdatingAttempt { payout_data },
                        UpdateRequest::UpdateBusiness {
                            payout_attempt: payout_data.payout_attempt,
                            business_country,
                            business_label,
                            payouts,
                        },
                    )
                }
            },
        },
        (
            UpdateState::UpdatingAttempt { payout_data },
            UpdateReply::BusinessUpdated(updated),
        ) => match updated {
            Err(_) => r == failed_update(payout_data),
            Ok(payout_attempt) => is_updated(
                r,
                PayoutData { payouts: payout_data.payouts, payout_attempt },
            ),
        },
        _ => false,
    }
}

/// Goes on with the flow once the reply to what it asked for is there.
pub fn resume_update_payouts_and_payout_attempt(state: UpdateState, reply: UpdateReply) -> (r:
    UpdateStep)
    requires
        state.awaits(reply),
    ensures
        update_resumed(state, reply, r),
{
    match (state, reply) {
        (
            UpdateState::UpdatingPayout { payout_data, business_country, business_label },
            UpdateReply::PayoutUpdated(updated),
        ) => match updated {
            Err(_) => UpdateStep::Done(
                UpdateOutcome { payout_data, result: Err(ApiErrorResponse::InternalServerError) },
            ),
            Ok(payouts) => {
                let payout_data = PayoutData { payouts, payout_attempt: payout_data.payout_attempt };
                match (business_country, business_label) {
                    (None, None) => UpdateStep::Done(
                        UpdateOutcome { payout_data, result: Ok(()) },
                    ),
                    (business_country, business_label) => {
                        let request = UpdateRequest::UpdateBusiness {
                            payout_attempt: payout_data.payout_attempt.clone(),
                            business_country,
                            business_label,
                            payouts: payout_data.payouts.clone(),
                        };
                        UpdateStep::Ask(UpdateState::UpdatingAttempt { payout_data }, request)
                    },
                }
            },
        },
        (
            UpdateState::UpdatingAttempt { payout_data },
            UpdateReply::BusinessUpdated(updated),
        ) => match updated {
            Err(_) => UpdateStep::Done(
                UpdateOutcome { payout_data, result: Err(ApiErrorResponse::InternalServerError) },
            ),
            Ok(payout_attempt) => UpdateStep::Done(
                UpdateOutcome {
                    payout_data: PayoutData { payouts: payout_data.payouts, payout_attempt },
                    result: Ok(()),
                },
            ),
        },
        _ => unreached(),
    }
}

/// Whether a request asks for no change.
pub open spec fn asks_for_nothing(req: PayoutCreateRequest) -> bool {
    &&& req.amount is None
    &&& req.currency is None
    &&& req.description is None
    &&& req.recurring is None
    &&& req.auto_fulfill is None
    &&& req.return_url is None
    &&& req.entity_type is None
    &&& req.metadata is None
    &&& req.payout_type is None
    &&& req.business_country is None
    &&& req.business_label is None
}

/// A request that asks for no change writes back the values that are there, and
/// leaves the attempt alone.
pub proof fn no_change_keeps_the_values(payout_data: PayoutData, req: PayoutCreateRequest)
    requires
        asks_for_nothing(req),
    ensures
        ({
            let update = updated_payouts(payout_data, req);
            let payouts = payout_data.payouts;
            &&& update.amount == payouts.amount
            &&& update.destination_currency == payouts.destination_currency
            &&& update.source_currency == payouts.source_currency
            &&& update.description == payouts.description
            &&& update.recurring == payouts.recurring
            &&& update.auto_fulfill == payouts.auto_fulfill
            &&& update.return_url == payouts.return_url
            &&& update.entity_type == payouts.entity_type
            &&& update.metadata == payouts.metadata
            &&& update.payout_type == payouts.payout_type
        }),
        changed(payout_data.payout_attempt.business_country, req.business_country) is None,
        changed(payout_data.payout_attempt.business_label, req.business_label) is None,
{
}

/// Whether these are the first steps of the flow, with the reply to each of
/// them but the last.
pub open spec fn is_run(
    payout_data: PayoutData,
    req: PayoutCreateRequest,
    replies: Seq<UpdateReply>,
    steps: Seq<UpdateStep>,
) -> bool {
    &&& steps.len() == replies.len() + 1
    &&& is_update_started(steps[0], payout_data, req)
    &&& forall|i: int|
        #![trigger replies[i]]
        0 <= i < replies.len() ==> {
            &&& steps[i] is Ask
            &&& steps[i]->Ask_0.awaits(replies[i])
            &&& update_resumed(steps[i]->Ask_0, replies[i], steps[i + 1])
        }
}

/// What a run is, step by step.
proof fn run_unfolds(
    payout_data: PayoutData,
    req: PayoutCreateRequest,
    replies: Seq<UpdateReply>,
    steps: Seq<UpdateStep>,
)
    requires
        is_run(payout_data, req, replies, steps),
    ensures
        replies.len() <= 2,
        replies.len() > 0 ==> update_resumed(steps[0]->Ask_0, replies[0], steps[1]),
        replies.len() > 1 ==> update_resumed(steps[1]->Ask_0, replies[1], steps[2]),
        replies.len() > 1 ==> steps[2] is Done,
{
    if replies.len() > 0 {
        assert(update_resumed(steps[0]->Ask_0, replies[0], steps[0int + 1]));
    }
    if replies.len() > 1 {
        assert(update_resumed(steps[1]->Ask_0, replies[1], steps[1int + 1]));
    }
    if replies.len() > 2 {
        assert(update_resumed(steps[2]->Ask_0, replies[2], steps[2int + 1]));
    }
}

/// The flow ends: whatever the replies, it makes two requests at most.
pub proof fn every_run_ends(
    payout_data: PayoutData,
    req: PayoutCreateRequest,
    replies: Seq<UpdateReply>,
    steps: Seq<UpdateStep>,
)
    requires
        is_run(payout_data, req, replies, steps),
    ensures
        replies.len() <= 2,
        replies.len() == 2 ==> steps.last() is Done,
{
    run_unfolds(payout_data, req, replies, steps);
}

/// A payout that was handed to its connector is never changed: the flow makes
/// no request.
pub proof fn initiated_payouts_are_not_changed(
    payout_data: PayoutData,
    req: PayoutCreateRequest,
    replies: Seq<UpdateReply>,
    steps: Seq<UpdateStep>,
)
    requires
        is_run(payout_data, req, replies, steps),
        !updatable(payout_data.payout_attempt.status),
    ensures
        replies.len() == 0,
        steps[0] is Done,
        steps[0]->Done_0.result is Err,
        steps[0]->Done_0.payout_data == payout_data,
{
    run_unfolds(payout_data, req, replies, steps);
}

/// A run that succeeds ends with the payout as it was stored, and with an
/// attempt that was stored anew exactly where the country or the label of the
/// business is to change.
pub proof fn success_stores_every_change(
    payout_data: PayoutData,
    req: PayoutCreateRequest,
    replies: Seq<UpdateReply>,
    steps: Seq<UpdateStep>,
)
    requires
        is_run(payout_data, req, replies, steps),
        steps.last() is Done,
        steps.last()->Done_0.result is Ok,
    ensures
        replies.len() > 0,
        replies[0] == UpdateReply::PayoutUpdated(Ok(steps.last()->Done_0.payout_data.payouts)),
        ({
            let attempt = payout_data.payout_attempt;
            let stored = steps.last()->Done_0.payout_data.payout_attempt;
            if changed(attempt.business_country, req.business_country) is None && changed(
                attempt.business_label,
                req.business_label,
            ) is None {
                stored == attempt
            } else {
                replies.len() == 2 && replies[1] == UpdateReply::BusinessUpdated(Ok(stored))
            }
        }),
{
    run_unfolds(payout_data, req, replies, steps);
}

/// A run that fails before the payout was stored leaves it as it was, and no
/// failure changes the attempt.
pub proof fn failure_keeps_the_attempt(
    payout_data: PayoutData,
    req: PayoutCreateRequest,
    replies: Seq<UpdateReply>,
    steps: Seq<UpdateStep>,
)
    requires
        is_run(payout_data, req, replies, steps),
        steps.last() is Done,
        steps.last()->Done_0.result is Err,
    ensures
        steps.last()->Done_0.payout_data.payout_attempt == payout_data.payout_attempt,
        replies.len() < 2 ==> steps.last()->Done_0.payout_data == payout_data,
{
    run_unfolds(payout_data, req, replies, steps);
}

/// Where the attempt is updated, it is told the texts that the request asked for
/// and no others: each that differs from the one there, or that has none there,
/// and each of these is told.
pub proof fn the_attempt_is_told_what_was_asked_for(
    payout_data: PayoutData,
    req: PayoutCreateRequest,
    replies: Seq<UpdateReply>,
    steps: Seq<UpdateStep>,
    i: int,
)
    requires
        is_run(payout_data, req, replies, steps),
        0 <= i < steps.len(),
        steps[i] is Ask,
        steps[i]->Ask_1 is UpdateBusiness,
    ensures
        i == 1,
        steps[i]->Ask_1 matches UpdateRequest::UpdateBusiness {
            payout_attempt,
            business_country,
            business_label,
            payouts,
        } && {
            let attempt = payout_data.payout_attempt;
            &&& payout_attempt == attempt
            &&& replies[0] == UpdateReply::PayoutUpdated(Ok(payouts))
            &&& business_country is Some || business_label is Some
            &&& business_country is Some ==> business_country == req.business_country
            &&& business_label is Some ==> business_label == req.business_label
            &&& business_country is Some <==> req.business_country is Some && (
            attempt.business_country is None || attempt.business_country->0@
                != req.business_country->0@)
            &&& business_label is Some <==> req.business_label is Some && (
            attempt.business_label is None || attempt.business_label->0@ != req.business_label->0@)
        },
{
    run_unfolds(payout_data, req, replies, steps);
}

/// Once the payout is stored, the attempt is updated exactly where the request
/// asks for a country or a label that is not there already.
pub proof fn the_attempt_is_updated_where_it_differs(
    payout_data: PayoutData,
    req: PayoutCreateRequest,
    replies: Seq<UpdateReply>,
    steps: Seq<UpdateStep>,
)
    requires
        is_run(payout_data, req, replies, steps),
        replies.len() > 0,
        replies[0]->PayoutUpdated_0 is Ok,
    ensures
        ({
            let attempt = payout_data.payout_attempt;
            let country_differs = req.business_country is Some && (attempt.business_country is None
                || attempt.business_country->0@ != req.business_country->0@);
            let label_differs = req.business_label is Some && (attempt.business_label is None
                || attempt.business_label->0@ != req.business_label->0@);
            &&& steps[1] is Ask <==> country_differs || label_differs
            &&& steps[1] is Ask ==> steps[1]->Ask_1 is UpdateBusiness
            &&& steps[1] is Done ==> steps[1]->Done_0.result is Ok
        }),
{
    run_unfolds(payout_data, req, replies, steps);
}

/// A payout is stored with each value that the request asks for, and with the
/// present one where it asks for none. The status and the profile are those of
/// the attempt, and the confirmation is that of the request.
pub proof fn the_payout_is_told_what_was_asked_for(
    payout_data: PayoutData,
    req: PayoutCreateRequest,
    first: UpdateStep,
)
    requires
        call_ensures(update_payouts_and_payout_attempt, (payout_data, req), first),
        first is Ask,
    ensures
        first->Ask_1 matches UpdateRequest::UpdatePayout { payouts, update, payout_attempt } && {
            &&& payouts == payout_data.payouts
            &&& payout_attempt == payout_data.payout_attempt
            &&& req.amount matches Some(asked) ==> update.amount == asked
            &&& req.amount is None ==> update.amount == payouts.amount
            &&& req.currency matches Some(asked) ==> update.destination_currency == asked
                && update.source_currency == asked
            &&& req.currency is None ==> update.destination_currency
                == payouts.destination_currency && update.source_currency
                == payouts.source_currency
            &&& req.description is Some ==> update.description == req.description
            &&& req.description is None ==> update.description == payouts.description
            &&& req.recurring matches Some(asked) ==> update.recurring == asked
            &&& req.recurring is None ==> update.recurring == payouts.recurring
            &&& req.auto_fulfill matches Some(asked) ==> update.auto_fulfill == asked
            &&& req.auto_fulfill is None ==> update.auto_fulfill == payouts.auto_fulfill
            &&& req.return_url is Some ==> update.return_url == req.return_url
            &&& req.return_url is None ==> update.return_url == payouts.return_url
            &&& req.entity_type matches Some(asked) ==> update.entity_type == asked
            &&& req.entity_type is None ==> update.entity_type == payouts.entity_type
            &&& req.metadata is Some ==> update.metadata == req.metadata
            &&& req.metadata is None ==> update.metadata == payouts.metadata
            &&& req.payout_type is Some ==> update.payout_type == req.payout_type
            &&& req.payout_type is None ==> update.payout_type == payouts.payout_type
            &&& update.confirm == req.confirm
            &&& update.status == Some(payout_attempt.status)
            &&& update.profile_id == Some(payout_attempt.profile_id)
        },
{
}

/// A payout is changed only while its connector has not got it: while it waits
/// for its creation, its confirmation, its destination or its vendor account, and
/// while it is on its way. Otherwise the merchant is told its name and its status.
pub proof fn later_payouts_are_refused(
    payout_data: PayoutData,
    req: PayoutCreateRequest,
    first: UpdateStep,
)
    requires
        call_ensures(update_payouts_and_payout_attempt, (payout_data, req), first),
    ensures
        first is Ask <==> {
            let status = payout_data.payout_attempt.status;
            ||| status is RequiresCreation
            ||| status is RequiresConfirmation
            ||| status is RequiresPayoutMethodData
            ||| status is RequiresVendorAccountCreation
            ||| status is Initiated
        },
        first matches UpdateStep::Done(outcome) ==> {
            &&& outcome.payout_data == payout_data
            &&& outcome.result is Err
            &&& outcome.result->Err_0 matches ApiErrorResponse::InvalidRequestData { message }
                && {
                let id = payout_data.payout_attempt.payout_id@;
                let start = "Payout "@.len() as int;
                let middle = " cannot be updated for status "@.len() as int;
                let end = start + id.len();
                &&& message@.take(start) == "Payout "@
                &&& message@.subrange(start, end) == id
                &&& message@.subrange(end, end + middle) == " cannot be updated for status "@
                &&& message@.skip(end + middle) == payout_data.payout_attempt.status.text()
            }
        },
{
    match first {
        UpdateStep::Done(outcome) => {
            let id = payout_data.payout_attempt.payout_id@;
            let text = payout_data.payout_attempt.status.text();
            let message = update_refused_message(id, payout_data.payout_attempt.status);
            let start = "Payout "@.len() as int;
            let middle = " cannot be updated for status "@.len() as int;
            let end = start + id.len();
            assert(message.take(start) =~= "Payout "@);
            assert(message.subrange(start, end) =~= id);
            assert(message.subrange(end, end + middle) =~= " cannot be updated for status "@);
            assert(message.skip(end + middle) =~= text);
        },
        _ => {},
    }
}

/// A failed storing ends the flow with an internal error, and with what was
/// stored before it.
pub proof fn failures_are_told(
    payout_data: PayoutData,
    req: PayoutCreateRequest,
    replies: Seq<UpdateReply>,
    steps: Seq<UpdateStep>,
)
    requires
        is_run(payout_data, req, replies, steps),
        replies.len() > 0,
    ensures
        replies[0]->PayoutUpdated_0 is Err ==> steps[1] == UpdateStep::Done(
            UpdateOutcome { payout_data, result: Err(ApiErrorResponse::InternalServerError) },
        ),
        replies.len() > 1 && replies[1]->BusinessUpdated_0 is Err ==> steps[2] == UpdateStep::Done(
            UpdateOutcome {
                payout_data: PayoutData {
                    payouts: replies[0]->PayoutUpdated_0->Ok_0,
                    payout_attempt: payout_data.payout_attempt,
                },
                result: Err(ApiErrorResponse::InternalServerError),
            },
        ),
        replies.len() > 1 ==> (replies[1]->BusinessUpdated_0 matches Ok(stored) ==> {
            &&& steps[2]->Done_0.result is Ok
            &&& steps[2]->Done_0.payout_data == (PayoutData {
                payouts: replies[0]->PayoutUpdated_0->Ok_0,
                payout_attempt: stored,
            })
        }),
{
    run_unfolds(payout_data, req, replies, steps);
}

/// The functions that carry out the flow make the steps that its laws speak of.
pub proof fn the_flow_is_carried_out(
    payout_data: PayoutData,
    req: PayoutCreateRequest,
    first: UpdateStep,
    state: UpdateState,
    reply: UpdateReply,
    next: UpdateStep,
)
    requires
        call_ensures(update_payouts_and_payout_attempt, (payout_data, req), first),
        state.awaits(reply),
        call_ensures(resume_update_payouts_and_payout_attempt, (state, reply), next),
    ensures
        is_run(payout_data, req, Seq::empty(), seq![first]),
        update_resumed(state, reply, next),
{
}

} // verus!
