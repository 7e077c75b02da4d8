use router_core::enums::{PayoutEntityType, PayoutStatus, PayoutType};
use router_core::errors::{ApiErrorResponse, StorageError};
use router_core::payout_types::{MinorUnit, PayoutAttempt, PayoutData, Payouts};
use router_core::update_payout::{
    resume_update_payouts_and_payout_attempt, update_payouts_and_payout_attempt,
    PayoutCreateRequest, PayoutsUpdate, UpdateReply, UpdateRequest, UpdateState, UpdateStep,
};

fn text(t: &str) -> String {
    t.to_string()
}

fn payout(status: PayoutStatus) -> PayoutData {
    PayoutData {
        payout_attempt: PayoutAttempt {
            payout_attempt_id: text("payout_1_1"),
            payout_id: text("payout_1"),
            customer_id: text("cus_1"),
            profile_id: text("pro_1"),
            connector: None,
            merchant_connector_id: None,
            payout_token: None,
            status,
            business_country: Some(text("DE")),
            business_label: None,
        },
        payouts: Payouts {
            payout_id: text("payout_1"),
            payout_method_id: None,
            amount: MinorUnit { value: 100 },
            destination_currency: text("EUR"),
            source_currency: text("USD"),
            description: Some(text("old")),
            recurring: false,
            auto_fulfill: true,
            return_url: None,
            entity_type: PayoutEntityType::Individual,
            metadata: None,
            payout_type: Some(PayoutType::Card),
        },
    }
}

fn nothing() -> PayoutCreateRequest {
    PayoutCreateRequest {
        amount: None,
        currency: None,
        description: None,
        recurring: None,
        auto_fulfill: None,
        return_url: None,
        entity_type: None,
        metadata: None,
        confirm: None,
        payout_type: None,
        business_country: None,
        business_label: None,
    }
}

fn start(req: PayoutCreateRequest) -> (UpdateState, UpdateRequest) {
    match update_payouts_and_payout_attempt(payout(PayoutStatus::RequiresConfirmation), req) {
        UpdateStep::Ask(state, request) => (state, request),
        other => panic!("{:?}", other),
    }
}

#[test]
fn initiated_payout_is_not_updated() {
    match update_payouts_and_payout_attempt(payout(PayoutStatus::Success), nothing()) {
        UpdateStep::Done(outcome) => {
            assert_eq!(
                outcome.result,
                Err(ApiErrorResponse::InvalidRequestData {
                    message: text("Payout payout_1 cannot be updated for status success"),
                })
            );
            assert_eq!(outcome.payout_data, payout(PayoutStatus::Success));
        }
        other => panic!("{:?}", other),
    }
    match update_payouts_and_payout_attempt(payout(PayoutStatus::Pending), nothing()) {
        UpdateStep::Done(outcome) => assert!(outcome.result.is_err()),
        other => panic!("{:?}", other),
    }
    match update_payouts_and_payout_attempt(payout(PayoutStatus::Initiated), nothing()) {
        UpdateStep::Ask(_, _) => {}
        other => panic!("{:?}", other),
    }
}

#[test]
fn empty_request_writes_the_values_back() {
    let (state, request) = start(nothing());
    let before = payout(PayoutStatus::RequiresConfirmation);
    assert_eq!(
        request,
        UpdateRequest::UpdatePayout {
            payouts: before.payouts.clone(),
            update: PayoutsUpdate {
                amount: MinorUnit { value: 100 },
                destination_currency: text("EUR"),
                source_currency: text("USD"),
                description: Some(text("old")),
                recurring: false,
                auto_fulfill: true,
                return_url: None,
                entity_type: PayoutEntityType::Individual,
                metadata: None,
                status: Some(PayoutStatus::RequiresConfirmation),
                profile_id: Some(text("pro_1")),
                confirm: None,
                payout_type: Some(PayoutType::Card),
            },
            payout_attempt: before.payout_attempt.clone(),
        }
    );
    match resume_update_payouts_and_payout_attempt(
        state,
        UpdateReply::PayoutUpdated(Ok(before.payouts.clone())),
    ) {
        UpdateStep::Done(outcome) => {
            assert_eq!(outcome.result, Ok(()));
            assert_eq!(outcome.payout_data, before);
        }
        other => panic!("{:?}", other),
    }
}

#[test]
fn requested_values_replace_the_old_ones() {
    let (_, request) = start(PayoutCreateRequest {
        amount: Some(MinorUnit { value: 250 }),
        currency: Some(text("GBP")),
        description: Some(text("new")),
        recurring: Some(true),
        auto_fulfill: Some(false),
        return_url: Some(text("https://r.example")),
        entity_type: Some(PayoutEntityType::Company),
        metadata: Some(serde_json::Value::Bool(true)),
        confirm: Some(true),
        payout_type: Some(PayoutType::Bank),
        business_country: None,
        business_label: None,
    });
    match request {
        UpdateRequest::UpdatePayout { update, .. } => assert_eq!(
            update,
            PayoutsUpdate {
                amount: MinorUnit { value: 250 },
                destination_currency: text("GBP"),
                source_currency: text("GBP"),
                description: Some(text("new")),
                recurring: true,
                auto_fulfill: false,
                return_url: Some(text("https://r.example")),
                entity_type: PayoutEntityType::Company,
                metadata: Some(serde_json::Value::Bool(true)),
                status: Some(PayoutStatus::RequiresConfirmation),
                profile_id: Some(text("pro_1")),
                confirm: Some(true),
                payout_type: Some(PayoutType::Bank),
            }
        ),
        other => panic!("{:?}", other),
    }
}

#[test]
fn business_is_updated_where_it_changes() {
    let mut req = nothing();
    req.business_country = Some(text("DE"));
    req.business_label = Some(text("shop"));
    let (state, _) = start(req);
    let mut stored = payout(PayoutStatus::RequiresConfirmation).payouts;
    stored.amount = MinorUnit { value: 1 };
    let (state, request) = match resume_update_payouts_and_payout_attempt(
        state,
        UpdateReply::PayoutUpdated(Ok(stored.clone())),
    ) {
        UpdateStep::Ask(state, request) => (state, request),
        other => panic!("{:?}", other),
    };
    assert_eq!(
        request,
        UpdateRequest::UpdateBusiness {
            payout_attempt: payout(PayoutStatus::RequiresConfirmation).payout_attempt,
            business_country: None,
            business_label: Some(text("shop")),
            payouts: stored.clone(),
        }
    );
    let mut attempt = payout(PayoutStatus::RequiresConfirmation).payout_attempt;
    attempt.business_label = Some(text("shop"));
    match resume_update_payouts_and_payout_attempt(
        state,
        UpdateReply::BusinessUpdated(Ok(attempt.clone())),
    ) {
        UpdateStep::Done(outcome) => {
            assert_eq!(outcome.result, Ok(()));
            assert_eq!(
                outcome.payout_data,
                PayoutData { payout_attempt: attempt, payouts: stored }
            );
        }
        other => panic!("{:?}", other),
    }
}

#[test]
fn same_country_is_no_change() {
    let mut req = nothing();
    req.business_country = Some(text("DE"));
    let (state, _) = start(req);
    let stored = payout(PayoutStatus::RequiresConfirmation).payouts;
    match resume_update_payouts_and_payout_attempt(state, UpdateReply::PayoutUpdated(Ok(stored))) {
        UpdateStep::Done(outcome) => assert_eq!(outcome.result, Ok(())),
        other => panic!("{:?}", other),
    }
}

#[test]
fn update_failures_are_internal() {
    let (state, _) = start(nothing());
    match resume_update_payouts_and_payout_attempt(
        state,
        UpdateReply::PayoutUpdated(Err(StorageError::Other)),
    ) {
        UpdateStep::Done(outcome) => {
            assert_eq!(outcome.result, Err(ApiErrorResponse::InternalServerError));
            assert_eq!(outcome.payout_data, payout(PayoutStatus::RequiresConfirmation));
        }
        other => panic!("{:?}", other),
    }
    let mut req = nothing();
    req.business_country = Some(text("FR"));
    let (state, _) = start(req);
    let mut stored = payout(PayoutStatus::RequiresConfirmation).payouts;
    stored.recurring = true;
    let state = match resume_update_payouts_and_payout_attempt(
        state,
        UpdateReply::PayoutUpdated(Ok(stored.clone())),
    ) {
        UpdateStep::Ask(state, _) => state,
        other => panic!("{:?}", other),
    };
    match resume_update_payouts_and_payout_attempt(
        state,
        UpdateReply::BusinessUpdated(Err(StorageError::Other)),
    ) {
        UpdateStep::Done(outcome) => {
            assert_eq!(outcome.result, Err(ApiErrorResponse::InternalServerError));
            assert_eq!(outcome.payout_data.payouts, stored);
            assert_eq!(
                outcome.payout_data.payout_attempt,
                payout(PayoutStatus::RequiresConfirmation).payout_attempt
            );
        }
        other => panic!("{:?}", other),
    }
}
