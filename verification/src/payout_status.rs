//! What the status of a payout allows.

use vstd::prelude::*;

use crate::enums::PayoutStatus;
use crate::errors::ApiErrorResponse;

verus! {

/// The payout still waits for something from its creator.
pub open spec fn awaits_merchant(status: PayoutStatus) -> bool {
    ||| status is RequiresCreation
    ||| status is RequiresConfirmation
    ||| status is RequiresPayoutMethodData
    ||| status is RequiresVendorAccountCreation
}

/// The payout was handed to its connector.
pub open spec fn initiated(status: PayoutStatus) -> bool {
    !awaits_merchant(status) && !(status is Initiated)
}

/// The payout will not change any more.
pub open spec fn terminal(status: PayoutStatus) -> bool {
    initiated(status) && !(status is Pending) && !(status is RequiresFulfillment)
}

/// The connector has news of the payout that are not known here.
pub open spec fn retrievable(status: PayoutStatus) -> bool {
    status is Pending || status is Initiated
}

/// The payout ended without reaching its recipient.
pub open spec fn failed(status: PayoutStatus) -> bool {
    status is Cancelled || status is Failed || status is Ineligible
}

/// The payout can still be updated.
pub open spec fn updatable(status: PayoutStatus) -> bool {
    !terminal(status) && !initiated(status)
}

/// Computes [`initiated`].
pub fn is_payout_initiated(status: PayoutStatus) -> (r: bool)
    ensures
        r == initiated(status),
{
    !matches!(
        status,
        PayoutStatus::RequiresCreation
            | PayoutStatus::RequiresConfirmation
            | PayoutStatus::RequiresPayoutMethodData
            | PayoutStatus::RequiresVendorAccountCreation
            | PayoutStatus::Initiated
    )
}

/// Computes [`terminal`].
pub fn is_payout_terminal_state(status: PayoutStatus) -> (r: bool)
    ensures
        r == terminal(status),
{
    !matches!(
        status,
        PayoutStatus::RequiresCreation
            | PayoutStatus::RequiresConfirmation
            | PayoutStatus::RequiresPayoutMethodData
            | PayoutStatus::RequiresVendorAccountCreation
            // Initiated by the underlying connector
            | PayoutStatus::Pending
            | PayoutStatus::Initiated
            | PayoutStatus::RequiresFulfillment
    )
}

/// Computes [`retrievable`].
pub fn should_call_retrieve(status: PayoutStatus) -> (r: bool)
    ensures
        r == retrievable(status),
{
    matches!(status, PayoutStatus::Pending | PayoutStatus::Initiated)
}

/// Computes [`failed`].
pub fn is_payout_err_state(status: PayoutStatus) -> (r: bool)
    ensures
        r == failed(status),
{
    matches!(
        status,
        PayoutStatus::Cancelled | PayoutStatus::Failed | PayoutStatus::Ineligible
    )
}

/// Whether the payout can be cancelled without its connector: while it
/// [awaits its merchant](awaits_merchant).
pub fn is_eligible_for_local_payout_cancellation(status: PayoutStatus) -> (r: bool)
    ensures
        r == awaits_merchant(status),
{
    matches!(
        status,
        PayoutStatus::RequiresCreation
            | PayoutStatus::RequiresConfirmation
            | PayoutStatus::RequiresPayoutMethodData
            | PayoutStatus::RequiresVendorAccountCreation
    )
}

/// What a caller is told who asks for an action that the status rules out.
pub open spec fn not_allowed_message(action: Seq<char>, status: PayoutStatus) -> Seq<char> {
    "You cannot "@ + action + " this payout because it has status "@ + status.text()
}

/// Refuses `action` for a payout whose status is among `not_allowed_statuses`.
pub fn validate_payout_status_against_not_allowed_statuses(
    payout_status: &PayoutStatus,
    not_allowed_statuses: &[PayoutStatus],
    action: &'static str,
) -> (r: Result<(), ApiErrorResponse>)
    ensures
        r is Ok <==> !not_allowed_statuses@.contains(*payout_status),
        r matches Err(error) ==> (error matches ApiErrorResponse::PreconditionFailed { message }
            && message@ == not_allowed_message(action@, *payout_status)),
{
    let mut i: usize = 0;
    while i < not_allowed_statuses.len()
        invariant
            i <= not_allowed_statuses@.len(),
            forall|j: int| 0 <= j < i ==> not_allowed_statuses@[j] != *payout_status,
        decreases not_allowed_statuses@.len() - i,
    {
        if not_allowed_statuses[i] == *payout_status {
            let mut message = "You cannot ".to_owned();
            message.append(action);
            message.append(" this payout because it has status ");
            message.append(payout_status.as_str());
            return Err(ApiErrorResponse::PreconditionFailed { message });
        }
        i += 1;
    }
    Ok(())
}

/// A payout that ended without reaching its recipient is over, and one that is
/// over was handed to its connector.
pub proof fn failed_payouts_are_over(status: PayoutStatus)
    ensures
        failed(status) ==> terminal(status),
        terminal(status) ==> initiated(status),
{
}

/// A payout whose state is fetched from the connector is never over.
pub proof fn retrieved_payouts_are_open(status: PayoutStatus)
    ensures
        retrievable(status) ==> !terminal(status) && !failed(status),
{
}

/// A payout can be cancelled without its connector only where the connector
/// never got it, and such a payout can still be updated and has nothing to
/// retrieve.
pub proof fn local_cancellation_precedes_initiation(status: PayoutStatus)
    ensures
        awaits_merchant(status) ==> !initiated(status) && !terminal(status) && !retrievable(status)
            && updatable(status),
{
}

/// The statuses in which a payout can be updated are those in which it can be
/// cancelled locally, and the one in which it is on its way to the connector.
pub proof fn updatable_statuses(status: PayoutStatus)
    ensures
        updatable(status) <==> awaits_merchant(status) || status is Initiated,
{
}

/// No two statuses read alike in messages.
pub proof fn status_texts_are_distinct(a: PayoutStatus, b: PayoutStatus)
    ensures
        a.text() == b.text() ==> a == b,
{
    reveal_strlit("success");
    reveal_strlit("failed");
    reveal_strlit("cancelled");
    reveal_strlit("initiated");
    reveal_strlit("expired");
    reveal_strlit("reversed");
    reveal_strlit("pending");
    reveal_strlit("ineligible");
    reveal_strlit("requires_creation");
    reveal_strlit("requires_confirmation");
    reveal_strlit("requires_payout_method_data");
    reveal_strlit("requires_fulfillment");
    reveal_strlit("requires_vendor_account_creation");
    // The lengths tell all of them apart but these, whose first letters differ.
    assert("expired"@[0] == 'e' && "pending"@[0] == 'p' && "success"@[0] == 's');
    assert("cancelled"@[0] == 'c' && "initiated"@[0] == 'i');
    if a.text() == b.text() {
        assert(a.text().len() == b.text().len());
        assert(a.text()[0] == b.text()[0]);
    }
}

/// Each test of a status holds of the statuses that it is for, and of no other.
pub proof fn tests_hold_of_their_statuses(
    status: PayoutStatus,
    is_initiated: bool,
    is_terminal: bool,
    is_to_retrieve: bool,
    is_failed: bool,
    is_local: bool,
)
    requires
        call_ensures(is_payout_initiated, (status,), is_initiated),
        call_ensures(is_payout_terminal_state, (status,), is_terminal),
        call_ensures(should_call_retrieve, (status,), is_to_retrieve),
        call_ensures(is_payout_err_state, (status,), is_failed),
        call_ensures(is_eligible_for_local_payout_cancellation, (status,), is_local),
    ensures
        status is Success ==> is_initiated && is_terminal && !is_to_retrieve && !is_failed
            && !is_local,
        status is Expired || status is Reversed ==> is_initiated && is_terminal && !is_to_retrieve
            && !is_failed && !is_local,
        status is Failed || status is Cancelled || status is Ineligible ==> is_initiated
            && is_terminal && !is_to_retrieve && is_failed && !is_local,
        status is Pending ==> is_initiated && !is_terminal && is_to_retrieve && !is_failed
            && !is_local,
        status is Initiated ==> !is_initiated && !is_terminal && is_to_retrieve && !is_failed
            && !is_local,
        status is RequiresFulfillment ==> is_initiated && !is_terminal && !is_to_retrieve
            && !is_failed && !is_local,
        status is RequiresCreation || status is RequiresConfirmation
            || status is RequiresPayoutMethodData || status is RequiresVendorAccountCreation
            ==> !is_initiated && !is_terminal && !is_to_retrieve && !is_failed && is_local,
{
}

/// An action is refused exactly for a status on the list, and whoever asked for
/// it is told the action and the status.
pub proof fn listed_statuses_are_refused(
    payout_status: &PayoutStatus,
    not_allowed_statuses: &[PayoutStatus],
    action: &'static str,
    r: Result<(), ApiErrorResponse>,
)
    requires
        call_ensures(
            validate_payout_status_against_not_allowed_statuses,
            (payout_status, not_allowed_statuses, action),
            r,
        ),
    ensures
        r is Err <==> exists|i: int|
            0 <= i < not_allowed_statuses@.len() && #[trigger] not_allowed_statuses@[i]
                == *payout_status,
        r matches Err(error) ==> error is PreconditionFailed && {
            let message = error->PreconditionFailed_message@;
            let start = "You cannot "@.len() as int;
            let end = start + action@.len();
            let middle = " this payout because it has status "@.len() as int;
            &&& message.take(start) == "You cannot "@
            &&& message.subrange(start, end) == action@
            &&& message.subrange(end, end + middle) == " this payout because it has status "@
            &&& message.skip(end + middle) == payout_status.text()
        },
{
    let message = not_allowed_message(action@, *payout_status);
    let start = "You cannot "@.len() as int;
    let end = start + action@.len();
    let middle = " this payout because it has status "@.len() as int;
    assert(message.take(start) =~= "You cannot "@);
    assert(message.subrange(start, end) =~= action@);
    assert(message.subrange(end, end + middle) =~= " this payout because it has status "@);
    assert(message.skip(end + middle) =~= payout_status.text());
}

/// A status reads in messages as its name does, in small letters with `_`
/// between the words.
pub proof fn statuses_read_as_their_names(status: PayoutStatus, text: &'static str)
    requires
        call_ensures(PayoutStatus::as_str, (&status,), text),
    ensures
        text@ == status.text(),
        text@ == "success"@ <==> status is Success,
        text@ == "failed"@ <==> status is Failed,
        text@ == "cancelled"@ <==> status is Cancelled,
        text@ == "initiated"@ <==> status is Initiated,
        text@ == "expired"@ <==> status is Expired,
        text@ == "reversed"@ <==> status is Reversed,
        text@ == "pending"@ <==> status is Pending,
        text@ == "ineligible"@ <==> status is Ineligible,
        text@ == "requires_creation"@ <==> status is RequiresCreation,
        text@ == "requires_confirmation"@ <==> status is RequiresConfirmation,
        text@ == "requires_payout_method_data"@ <==> status is RequiresPayoutMethodData,
        text@ == "requires_fulfillment"@ <==> status is RequiresFulfillment,
        text@ == "requires_vendor_account_creation"@ <==> status is RequiresVendorAccountCreation,
{
    status_texts_are_distinct(status, PayoutStatus::Success);
    status_texts_are_distinct(status, PayoutStatus::Failed);
    status_texts_are_distinct(status, PayoutStatus::Cancelled);
    status_texts_are_distinct(status, PayoutStatus::Initiated);
    status_texts_are_distinct(status, PayoutStatus::Expired);
    status_texts_are_distinct(status, PayoutStatus::Reversed);
    status_texts_are_distinct(status, PayoutStatus::Pending);
    status_texts_are_distinct(status, PayoutStatus::Ineligible);
    status_texts_are_distinct(status, PayoutStatus::RequiresCreation);
    status_texts_are_distinct(status, PayoutStatus::RequiresConfirmation);
    status_texts_are_distinct(status, PayoutStatus::RequiresPayoutMethodData);
    status_texts_are_distinct(status, PayoutStatus::RequiresFulfillment);
    status_texts_are_distinct(status, PayoutStatus::RequiresVendorAccountCreation);
}

} // verus!
