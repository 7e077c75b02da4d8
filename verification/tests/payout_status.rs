use router_core::enums::{PaymentMethod, PayoutStatus, PayoutType};
use router_core::errors::ApiErrorResponse;
use router_core::payout_status::{
    is_eligible_for_local_payout_cancellation, is_payout_err_state, is_payout_initiated,
    is_payout_terminal_state, should_call_retrieve,
    validate_payout_status_against_not_allowed_statuses,
};

const ALL: [PayoutStatus; 13] = [
    PayoutStatus::Success,
    PayoutStatus::Failed,
    PayoutStatus::Cancelled,
    PayoutStatus::Initiated,
    PayoutStatus::Expired,
    PayoutStatus::Reversed,
    PayoutStatus::Pending,
    PayoutStatus::Ineligible,
    PayoutStatus::RequiresCreation,
    PayoutStatus::RequiresConfirmation,
    PayoutStatus::RequiresPayoutMethodData,
    PayoutStatus::RequiresFulfillment,
    PayoutStatus::RequiresVendorAccountCreation,
];

fn those(holds: fn(PayoutStatus) -> bool) -> Vec<PayoutStatus> {
    ALL.iter().copied().filter(|s| holds(*s)).collect()
}

#[test]
fn initiated_statuses() {
    assert_eq!(
        those(is_payout_initiated),
        vec![
            PayoutStatus::Success,
            PayoutStatus::Failed,
            PayoutStatus::Cancelled,
            PayoutStatus::Expired,
            PayoutStatus::Reversed,
            PayoutStatus::Pending,
            PayoutStatus::Ineligible,
            PayoutStatus::RequiresFulfillment,
        ]
    );
}

#[test]
fn terminal_statuses() {
    assert_eq!(
        those(is_payout_terminal_state),
        vec![
            PayoutStatus::Success,
            PayoutStatus::Failed,
            PayoutStatus::Cancelled,
            PayoutStatus::Expired,
            PayoutStatus::Reversed,
            PayoutStatus::Ineligible,
        ]
    );
}

#[test]
fn retrieved_statuses() {
    assert_eq!(
        those(should_call_retrieve),
        vec![PayoutStatus::Initiated, PayoutStatus::Pending]
    );
}

#[test]
fn error_statuses() {
    assert_eq!(
        those(is_payout_err_state),
        vec![PayoutStatus::Failed, PayoutStatus::Cancelled, PayoutStatus::Ineligible]
    );
}

#[test]
fn locally_cancellable_statuses() {
    assert_eq!(
        those(is_eligible_for_local_payout_cancellation),
        vec![
            PayoutStatus::RequiresCreation,
            PayoutStatus::RequiresConfirmation,
            PayoutStatus::RequiresPayoutMethodData,
            PayoutStatus::RequiresVendorAccountCreation,
        ]
    );
}

#[test]
fn failed_payouts_are_terminal_and_open_ones_are_not() {
    for status in ALL {
        if is_payout_err_state(status) {
            assert!(is_payout_terminal_state(status));
        }
        if should_call_retrieve(status) || is_eligible_for_local_payout_cancellation(status) {
            assert!(!is_payout_terminal_state(status));
        }
        if is_eligible_for_local_payout_cancellation(status) {
            assert!(!is_payout_initiated(status));
        }
    }
}

#[test]
fn refused_action_names_the_status() {
    assert_eq!(
        validate_payout_status_against_not_allowed_statuses(
            &PayoutStatus::RequiresFulfillment,
            &[PayoutStatus::Success, PayoutStatus::RequiresFulfillment],
            "cancel",
        ),
        Err(ApiErrorResponse::PreconditionFailed {
            message: "You cannot cancel this payout because it has status requires_fulfillment"
                .to_string(),
        })
    );
}

#[test]
fn allowed_action_passes() {
    assert_eq!(
        validate_payout_status_against_not_allowed_statuses(
            &PayoutStatus::Pending,
            &[PayoutStatus::Success],
            "cancel",
        ),
        Ok(())
    );
    assert_eq!(
        validate_payout_status_against_not_allowed_statuses(&PayoutStatus::Pending, &[], "update"),
        Ok(())
    );
}

#[test]
fn status_names_are_distinct_and_in_snake_case() {
    for (i, a) in ALL.iter().enumerate() {
        assert!(a.as_str().chars().all(|c| c.is_ascii_lowercase() || c == '_'));
        for b in &ALL[i + 1..] {
            assert_ne!(a.as_str(), b.as_str());
        }
    }
    assert_eq!(
        PayoutStatus::RequiresVendorAccountCreation.as_str(),
        "requires_vendor_account_creation"
    );
}

#[test]
fn payout_types_have_their_payment_method() {
    assert_eq!(PaymentMethod::from_payout_type(PayoutType::Card).as_str(), "card");
    assert_eq!(PaymentMethod::from_payout_type(PayoutType::Bank).as_str(), "bank_transfer");
    assert_eq!(PaymentMethod::from_payout_type(PayoutType::Wallet).as_str(), "wallet");
}
