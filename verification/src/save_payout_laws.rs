//! What holds of every run of the flow that keeps the destination of a payout
//! in the locker, whatever the outside replies.

use vstd::prelude::*;

use crate::errors::StorageError;
use crate::locker::{DataDuplicationCheck, StoreCardRespPayload, StoreLockerReq};
use crate::payment_method_types::StoredPaymentMethod;
use crate::payout_types::PayoutMethodData;
use crate::save_payout::{
    card_request, is_after_storing, is_generic_request, is_planned, save_resumed, save_started,
    SaveContext, SaveReply, SaveRequest, SaveState, SaveStep, SavedInLocker, TablePlan,
};

verus! {

/// Whether `next` is what the flow does once the request of `step` was replied
/// to with `reply`.
pub open spec fn follows(step: SaveStep, reply: SaveReply, next: SaveStep) -> bool {
    step matches SaveStep::Ask(state, _) && state.awaits(reply) && save_resumed(state, reply, next)
}

/// Whether these are the first steps of the flow, with the reply to each of
/// them but the last.
pub open spec fn is_run(
    context: SaveContext,
    replies: Seq<SaveReply>,
    steps: Seq<SaveStep>,
) -> bool {
    &&& steps.len() == replies.len() + 1
    &&& steps[0] == save_started(context)
    &&& forall|i: int|
        0 <= i < replies.len() ==> follows(steps[i], #[trigger] replies[i], steps[i + 1])
}

/// The position at which the locker replies for the first time: cards are not
/// encrypted beforehand.
pub open spec fn first_locker_reply(context: SaveContext) -> int {
    if context.payout_method_data is Card {
        0
    } else {
        1
    }
}

/// Whether the locker kept the destination at its first request, with this
/// answer.
pub open spec fn kept_as(
    context: SaveContext,
    replies: Seq<SaveReply>,
    response: StoreCardRespPayload,
) -> bool {
    let k = first_locker_reply(context);
    &&& k < replies.len()
    &&& replies[k] == SaveReply::LockerCalled(Ok(response))
}

/// Whether a reply tells that the table has no such entry.
pub open spec fn says_not_found(reply: SaveReply) -> bool {
    reply == SaveReply::PaymentMethodFound(Err(StorageError::ValueNotFound))
}

/// Whether the destination is new to the table: the locker did not have it, or
/// neither of the two names has an entry.
pub open spec fn is_new_to_table(context: SaveContext, replies: Seq<SaveReply>) -> bool {
    let k = first_locker_reply(context);
    exists|response: StoreCardRespPayload| #[trigger]
        kept_as(context, replies, response) && {
            ||| response.duplication_check is None
            ||| {
                &&& k + 2 < replies.len()
                &&& says_not_found(replies[k + 1])
                &&& says_not_found(replies[k + 2])
            }
        }
}

/// Whether the locker reported a change to a destination that the table knows
/// as `existing`.
pub open spec fn is_changed_entry(
    context: SaveContext,
    replies: Seq<SaveReply>,
    existing: StoredPaymentMethod,
) -> bool {
    let k = first_locker_reply(context);
    exists|response: StoreCardRespPayload| #[trigger]
        kept_as(context, replies, response) && {
            &&& response.duplication_check == Some(DataDuplicationCheck::MetaDataChanged)
            &&& k + 1 < replies.len()
            &&& {
                ||| replies[k + 1] == SaveReply::PaymentMethodFound(Ok(existing))
                ||| {
                    &&& k + 2 < replies.len()
                    &&& says_not_found(replies[k + 1])
                    &&& replies[k + 2] == SaveReply::PaymentMethodFound(Ok(existing))
                }
            }
        }
}

/// Whether this is the request to keep the destination as it was handed in.
pub open spec fn is_first_locker_request(
    request: StoreLockerReq,
    context: SaveContext,
    replies: Seq<SaveReply>,
) -> bool {
    match context.payout_method_data {
        PayoutMethodData::Card(card) => request == card_request(context, card),
        _ => 0 < replies.len() && (replies[0] matches SaveReply::MethodEncrypted(Ok(Some(bytes)))
            && is_generic_request(request, context, bytes@)),
    }
}

/// How many requests the flow can still make, this one counted.
pub open spec fn requests_left(step: SaveStep) -> int {
    match step {
        SaveStep::Done(_) => 0,
        SaveStep::Ask(state, _) => {
            let card_steps: int = if state.context().payout_method_data is Card {
                2
            } else {
                0
            };
            match state {
                SaveState::EncryptingMethod { .. } => 8,
                SaveState::Storing { .. } => 7 + card_steps,
                SaveState::FindingById { .. } => 6 + card_steps,
                SaveState::FindingByLockerId { .. } => 5 + card_steps,
                SaveState::FetchingCardInfo { .. } => 6,
                SaveState::EncryptingCard { .. } => 5,
                SaveState::DeletingFromLocker { .. } => 4,
                SaveState::StoringAgain { .. } => 3,
                SaveState::CreatingEntry { .. } => 2,
                SaveState::UpdatingEntry { .. } => 2,
                SaveState::DeletingEntry { .. } => 1,
                SaveState::UpdatingPayout { .. } => 1,
            }
        },
    }
}

spec fn plan_is_due(plan: TablePlan, context: SaveContext, replies: Seq<SaveReply>) -> bool {
    match plan {
        TablePlan::Insert => is_new_to_table(context, replies),
        TablePlan::UpdateMetadata(existing) => is_changed_entry(context, replies, existing),
        TablePlan::Keep => true,
    }
}

spec fn reference_is_known(
    card_reference: String,
    context: SaveContext,
    replies: Seq<SaveReply>,
) -> bool {
    exists|response: StoreCardRespPayload| #[trigger]
        kept_as(context, replies, response) && card_reference == response.card_reference
}

spec fn saved_is_sound(
    saved: SavedInLocker,
    context: SaveContext,
    replies: Seq<SaveReply>,
) -> bool {
    &&& reference_is_known(saved.card_reference, context, replies)
    &&& is_first_locker_request(saved.locker_request, context, replies)
}

/// What a step of a run owes to the replies before it.
spec fn step_is_sound(context: SaveContext, replies: Seq<SaveReply>, step: SaveStep) -> bool {
    let n = replies.len() as int;
    let k = first_locker_reply(context);
    match step {
        SaveStep::Done(outcome) => {
            &&& outcome.payout_data.payout_attempt == context.payout_data.payout_attempt
            &&& outcome.result is Err ==> outcome.payout_data == context.payout_data
            &&& outcome.result is Ok ==> n > 0 && replies[n - 1] == SaveReply::PayoutUpdated(
                Ok(outcome.payout_data.payouts),
            )
        },
        SaveStep::Ask(state, request) => {
            &&& state.context() == context
            &&& match state {
                SaveState::EncryptingMethod { .. } => {
                    &&& n == 0
                    &&& k == 1
                    &&& request is EncryptMethod
                },
                SaveState::Storing { locker_request, .. } => {
                    &&& n == k
                    &&& is_first_locker_request(locker_request, context, replies)
                    &&& request == SaveRequest::CallLocker {
                        request: locker_request,
                        customer_id: context.customer_id(),
                    }
                },
                SaveState::FindingById { saved, check } => {
                    &&& n == k + 1
                    &&& saved_is_sound(saved, context, replies)
                    &&& replies[k] matches SaveReply::LockerCalled(Ok(response))
                        && response.duplication_check == Some(check)
                    &&& request is FindPaymentMethod
                },
                SaveState::FindingByLockerId { saved, check } => {
                    &&& n == k + 2
                    &&& saved_is_sound(saved, context, replies)
                    &&& replies[k] matches SaveReply::LockerCalled(Ok(response))
                        && response.duplication_check == Some(check)
                    &&& says_not_found(replies[k + 1])
                    &&& request is FindPaymentMethodByLockerId
                },
                SaveState::FetchingCardInfo { saved, plan, card } => {
                    &&& n > k
                    &&& k == 0
                    &&& saved_is_sound(saved, context, replies)
                    &&& plan_is_due(plan, context, replies)
                    &&& context.payout_method_data == PayoutMethodData::Card(card)
                    &&& request is GetCardInfo
                },
                SaveState::EncryptingCard { saved, plan, .. } => {
                    &&& n > k
                    &&& k == 0
                    &&& saved_is_sound(saved, context, replies)
                    &&& plan_is_due(plan, context, replies)
                    &&& request is EncryptCard
                },
                SaveState::CreatingEntry { saved } => {
                    &&& n > k
                    &&& saved_is_sound(saved, context, replies)
                    &&& is_new_to_table(context, replies)
                    &&& request is CreatePaymentMethod
                },
                SaveState::DeletingFromLocker { saved, existing, .. } => {
                    &&& n > k
                    &&& saved_is_sound(saved, context, replies)
                    &&& is_changed_entry(context, replies, existing)
                    &&& request is DeleteCardFromLocker
                },
                SaveState::StoringAgain { saved, existing, .. } => {
                    &&& n > k
                    &&& reference_is_known(saved.card_reference, context, replies)
                    &&& is_changed_entry(context, replies, existing)
                    &&& request matches SaveRequest::CallLocker { request: again, customer_id } && {
                        &&& is_second_locker_request(again, context, replies, existing)
                        &&& customer_id == context.customer_id()
                    }
                },
                SaveState::DeletingEntry { .. } => {
                    &&& n > k
                    &&& request matches SaveRequest::DeletePaymentMethod { payment_method_id, .. }
                        && deletes_changed_entry(context, replies, payment_method_id)
                },
                SaveState::UpdatingEntry { saved } => {
                    &&& n > k
                    &&& reference_is_known(saved.card_reference, context, replies)
                    &&& request matches SaveRequest::UpdatePaymentMethod { payment_method, .. }
                        && is_changed_entry(context, replies, payment_method)
                },
                SaveState::UpdatingPayout { .. } => {
                    &&& n > k
                    &&& request matches SaveRequest::UpdatePayout {
                        payouts,
                        payout_method_id,
                        payout_attempt,
                    } && {
                        &&& payouts == context.payout_data.payouts
                        &&& payout_attempt == context.payout_data.payout_attempt
                        &&& reference_is_known(payout_method_id, context, replies)
                    }
                },
            }
        },
    }
}

/// Whether this is the first request to the locker with the name of `existing`
/// put in.
pub open spec fn is_second_locker_request(
    request: StoreLockerReq,
    context: SaveContext,
    replies: Seq<SaveReply>,
    existing: StoredPaymentMethod,
) -> bool {
    exists|first: StoreLockerReq| #[trigger]
        is_first_locker_request(first, context, replies) && request == first.with_card_reference(
            Some(existing.card_reference()),
        )
}

/// Whether the identifier is that of an entry whose destination has changed.
pub open spec fn deletes_changed_entry(
    context: SaveContext,
    replies: Seq<SaveReply>,
    payment_method_id: String,
) -> bool {
    exists|existing: StoredPaymentMethod| #[trigger]
        is_changed_entry(context, replies, existing) && payment_method_id
            == existing.payment_method_id
}

/// What the replies have shown stays shown when further replies come in.
proof fn replies_accumulate(context: SaveContext, replies: Seq<SaveReply>, after: Seq<SaveReply>)
    requires
        first_locker_reply(context) < replies.len() <= after.len(),
        forall|i: int| 0 <= i < replies.len() ==> #[trigger] after[i] == replies[i],
    ensures
        is_new_to_table(context, replies) ==> is_new_to_table(context, after),
        forall|existing: StoredPaymentMethod|
            is_changed_entry(context, replies, existing) ==> #[trigger] is_changed_entry(
                context,
                after,
                existing,
            ),
        forall|r: String|
            reference_is_known(r, context, replies) ==> #[trigger] reference_is_known(
                r,
                context,
                after,
            ),
        forall|r: StoreLockerReq|
            is_first_locker_request(r, context, replies) ==> #[trigger] is_first_locker_request(
                r,
                context,
                after,
            ),
{
    assert forall|response: StoreCardRespPayload| kept_as(context, replies, response) implies
        #[trigger] kept_as(context, after, response) by {}
    if is_new_to_table(context, replies) {
        let response = choose|response: StoreCardRespPayload| #[trigger]
            kept_as(context, replies, response) && {
                ||| response.duplication_check is None
                ||| {
                    &&& first_locker_reply(context) + 2 < replies.len()
                    &&& says_not_found(replies[first_locker_reply(context) + 1])
                    &&& says_not_found(replies[first_locker_reply(context) + 2])
                }
            };
        assert(kept_as(context, after, response));
    }
    assert forall|existing: StoredPaymentMethod|
        is_changed_entry(context, replies, existing) implies #[trigger] is_changed_entry(
        context,
        after,
        existing,
    ) by {
        let response = choose|response: StoreCardRespPayload| #[trigger]
            kept_as(context, replies, response) && response.duplication_check == Some(
                DataDuplicationCheck::MetaDataChanged,
            );
        assert(kept_as(context, after, response));
    }
    assert forall|r: String| reference_is_known(r, context, replies) implies
        #[trigger] reference_is_known(r, context, after) by {
        let response = choose|response: StoreCardRespPayload| #[trigger]
            kept_as(context, replies, response) && r == response.card_reference;
        assert(kept_as(context, after, response));
    }
}

/// A step that follows a sound one is sound, and has fewer requests before it.
proof fn soundness_is_kept(
    context: SaveContext,
    replies: Seq<SaveReply>,
    step: SaveStep,
    reply: SaveReply,
    next: SaveStep,
)
    requires
        step_is_sound(context, replies, step),
        follows(step, reply, next),
    ensures
        step_is_sound(context, replies.push(reply), next),
        requests_left(next) < requests_left(step),
{
    let after = replies.push(reply);
    let k = first_locker_reply(context);
    if k < replies.len() {
        replies_accumulate(context, replies, after);
    }
    match step {
        SaveStep::Ask(state, _) => match state {
            SaveState::EncryptingMethod { .. } => {},
            SaveState::Storing { locker_request, .. } => {
                match reply {
                    SaveReply::LockerCalled(Ok(response)) => {
                        assert(kept_as(context, after, response));
                    },
                    _ => {},
                }
                match context.payout_method_data {
                    PayoutMethodData::Card(_) => {},
                    _ => {
                        assert(after[0] == replies[0]);
                    },
                }
                assert(is_first_locker_request(locker_request, context, after));
            },
            SaveState::FindingById { .. } => {
                assert(after[k] == replies[k]);
                match replies[k] {
                    SaveReply::LockerCalled(Ok(response)) => {
                        assert(kept_as(context, after, response));
                    },
                    _ => {},
                }
            },
            SaveState::FindingByLockerId { .. } => {
                assert(after[k] == replies[k]);
                assert(after[k + 1] == replies[k + 1]);
                match replies[k] {
                    SaveReply::LockerCalled(Ok(response)) => {
                        assert(kept_as(context, after, response));
                    },
                    _ => {},
                }
            },
            SaveState::DeletingFromLocker { saved, .. } => {
                assert(is_first_locker_request(saved.locker_request, context, after));
            },
            SaveState::StoringAgain { existing, .. } => {
                assert(is_changed_entry(context, after, existing));
            },
            _ => {},
        },
        SaveStep::Done(_) => {},
    }
}

/// Every step of a run is sound, and the number of requests is bounded.
proof fn steps_are_sound(
    context: SaveContext,
    replies: Seq<SaveReply>,
    steps: Seq<SaveStep>,
    i: int,
)
    requires
        is_run(context, replies, steps),
        0 <= i <= replies.len(),
    ensures
        step_is_sound(context, replies.take(i), steps[i]),
        i + requests_left(steps[i]) <= requests_left(steps[0]),
    decreases i,
{
    if i > 0 {
        steps_are_sound(context, replies, steps, i - 1);
        let reply = replies[i - 1];
        assert(follows(steps[i - 1], reply, steps[i - 1 + 1]));
        assert(replies.take(i - 1).push(reply) =~= replies.take(i));
        soundness_is_kept(context, replies.take(i - 1), steps[i - 1], reply, steps[i]);
    }
}

/// What the replies before a step have shown is shown by all replies of the
/// run.
proof fn shown_by_all_replies(context: SaveContext, replies: Seq<SaveReply>, i: int)
    requires
        first_locker_reply(context) < i <= replies.len(),
    ensures
        is_new_to_table(context, replies.take(i)) ==> is_new_to_table(context, replies),
        forall|existing: StoredPaymentMethod|
            is_changed_entry(context, replies.take(i), existing) ==> #[trigger] is_changed_entry(
                context,
                replies,
                existing,
            ),
        forall|r: String|
            reference_is_known(r, context, replies.take(i)) ==> #[trigger] reference_is_known(
                r,
                context,
                replies,
            ),
        forall|r: StoreLockerReq|
            is_first_locker_request(r, context, replies.take(i))
                ==> #[trigger] is_first_locker_request(r, context, replies),
{
    replies_accumulate(context, replies.take(i), replies);
}

/// The flow ends: whatever the replies, it makes nine requests at most.
pub proof fn every_run_ends(
    context: SaveContext,
    replies: Seq<SaveReply>,
    steps: Seq<SaveStep>,
)
    requires
        is_run(context, replies, steps),
    ensures
        replies.len() <= 9,
        replies.len() == 9 ==> steps.last() is Done,
{
    steps_are_sound(context, replies, steps, replies.len() as int);
}

/// A run that fails leaves the payout as it was, and no run changes the attempt.
pub proof fn failure_leaves_the_payout(
    context: SaveContext,
    replies: Seq<SaveReply>,
    steps: Seq<SaveStep>,
)
    requires
        is_run(context, replies, steps),
        steps.last() is Done,
    ensures
        steps.last()->Done_0.payout_data.payout_attempt == context.payout_data.payout_attempt,
        steps.last()->Done_0.result is Err ==> steps.last()->Done_0.payout_data
            == context.payout_data,
{
    steps_are_sound(context, replies, steps, replies.len() as int);
}

/// A run that succeeds has told the payout the reference under which the locker
/// first kept its destination, and hands back the payout that this gave.
pub proof fn success_records_the_reference(
    context: SaveContext,
    replies: Seq<SaveReply>,
    steps: Seq<SaveStep>,
)
    requires
        is_run(context, replies, steps),
        steps.last() is Done,
        steps.last()->Done_0.result is Ok,
    ensures
        replies.len() > 0,
        replies.last() == SaveReply::PayoutUpdated(Ok(steps.last()->Done_0.payout_data.payouts)),
        exists|response: StoreCardRespPayload| #[trigger]
            kept_as(context, replies, response) && steps[replies.len() - 1] is Ask && steps[
            replies.len() - 1]->Ask_1 == (SaveRequest::UpdatePayout {
                payouts: context.payout_data.payouts,
                payout_method_id: response.card_reference,
                payout_attempt: context.payout_data.payout_attempt,
            }),
{
    let n = replies.len() as int;
    steps_are_sound(context, replies, steps, n);
    assert(replies.take(n) =~= replies);
    steps_are_sound(context, replies, steps, n - 1);
    assert(follows(steps[n - 1], replies[n - 1], steps[n - 1 + 1]));
    shown_by_all_replies(context, replies, n - 1);
    match steps[n - 1] {
        SaveStep::Ask(_, SaveRequest::UpdatePayout { payout_method_id, .. }) => {
            assert(reference_is_known(payout_method_id, context, replies));
        },
        _ => {},
    }
}

/// The table gets an entry only for a destination that is new to it.
pub proof fn only_new_destinations_are_entered(
    context: SaveContext,
    replies: Seq<SaveReply>,
    steps: Seq<SaveStep>,
    i: int,
)
    requires
        is_run(context, replies, steps),
        0 <= i < steps.len(),
        steps[i] matches SaveStep::Ask(_, request) && request is CreatePaymentMethod,
    ensures
        is_new_to_table(context, replies),
{
    steps_are_sound(context, replies, steps, i);
    shown_by_all_replies(context, replies, i);
}

/// An entry is updated or deleted, and its card taken out of the locker, only
/// where the locker reported a change to it.
pub proof fn only_changed_entries_are_touched(
    context: SaveContext,
    replies: Seq<SaveReply>,
    steps: Seq<SaveStep>,
    i: int,
)
    requires
        is_run(context, replies, steps),
        0 <= i < steps.len(),
        steps[i] matches SaveStep::Ask(_, request) && (request is UpdatePaymentMethod
            || request is DeletePaymentMethod || request is DeleteCardFromLocker),
    ensures
        exists|existing: StoredPaymentMethod| #[trigger]
            is_changed_entry(context, replies, existing) && (steps[i]->Ask_1 matches
                SaveRequest::UpdatePaymentMethod { payment_method, .. } ==> payment_method
                == existing) && (steps[i]->Ask_1 matches
                SaveRequest::DeletePaymentMethod { payment_method_id, .. } ==> payment_method_id
                == existing.payment_method_id) && (steps[i]->Ask_1 matches
                SaveRequest::DeleteCardFromLocker { card_reference, .. } ==> card_reference
                == existing.card_reference()),
{
    steps_are_sound(context, replies, steps, i);
    shown_by_all_replies(context, replies, i);
    match steps[i] {
        SaveStep::Ask(SaveState::DeletingFromLocker { existing, .. }, _) => {
            assert(is_changed_entry(context, replies, existing));
        },
        SaveStep::Ask(_, SaveRequest::UpdatePaymentMethod { payment_method, .. }) => {
            assert(is_changed_entry(context, replies, payment_method));
        },
        SaveStep::Ask(_, SaveRequest::DeletePaymentMethod { payment_method_id, .. }) => {
            let existing = choose|existing: StoredPaymentMethod| #[trigger]
                is_changed_entry(context, replies.take(i), existing) && payment_method_id
                    == existing.payment_method_id;
            assert(is_changed_entry(context, replies, existing));
        },
        _ => {},
    }
}

/// No run both makes an entry and touches one that is there.
pub proof fn entering_excludes_touching(
    context: SaveContext,
    replies: Seq<SaveReply>,
    steps: Seq<SaveStep>,
    i: int,
    j: int,
)
    requires
        is_run(context, replies, steps),
        0 <= i < steps.len(),
        0 <= j < steps.len(),
        steps[i] matches SaveStep::Ask(_, request) && request is CreatePaymentMethod,
    ensures
        steps[j] matches SaveStep::Ask(_, request) ==> !(request is UpdatePaymentMethod)
            && !(request is DeletePaymentMethod) && !(request is DeleteCardFromLocker),
{
    only_new_destinations_are_entered(context, replies, steps, i);
    match steps[j] {
        SaveStep::Ask(_, request) => {
            if request is UpdatePaymentMethod || request is DeletePaymentMethod
                || request is DeleteCardFromLocker {
                only_changed_entries_are_touched(context, replies, steps, j);
            }
        },
        _ => {},
    }
}

/// The locker is asked to keep nothing but the destination as it was handed in,
/// at the second time with the name of the entry that it belongs to.
pub proof fn the_locker_gets_the_destination(
    context: SaveContext,
    replies: Seq<SaveReply>,
    steps: Seq<SaveStep>,
    i: int,
)
    requires
        is_run(context, replies, steps),
        0 <= i < steps.len(),
        steps[i] matches SaveStep::Ask(_, request) && request is CallLocker,
    ensures
        steps[i] matches SaveStep::Ask(_, SaveRequest::CallLocker { request, customer_id }) && {
            &&& customer_id == context.customer_id()
            &&& {
                ||| is_first_locker_request(request, context, replies)
                ||| exists|existing: StoredPaymentMethod| #[trigger]
                    is_changed_entry(context, replies, existing) && is_second_locker_request(
                        request,
                        context,
                        replies,
                        existing,
                    )
            }
        },
{
    steps_are_sound(context, replies, steps, i);
    match steps[i] {
        SaveStep::Ask(SaveState::StoringAgain { existing, .. }, SaveRequest::CallLocker { request, .. }) => {
            shown_by_all_replies(context, replies, i);
            let first = choose|first: StoreLockerReq| #[trigger]
                is_first_locker_request(first, context, replies.take(i)) && request
                    == first.with_card_reference(Some(existing.card_reference()));
            assert(is_first_locker_request(first, context, replies));
            assert(is_changed_entry(context, replies, existing));
        },
        _ => {},
    }
}

/// A run in which the locker fails to keep the destination a second time is
/// followed by the deletion of the entry, and ends in failure.
pub proof fn a_lost_destination_loses_its_entry(
    context: SaveContext,
    replies: Seq<SaveReply>,
    steps: Seq<SaveStep>,
    i: int,
)
    requires
        is_run(context, replies, steps),
        0 <= i < replies.len(),
        steps[i] matches SaveStep::Ask(state, _) && state is StoringAgain,
        replies[i] matches SaveReply::LockerCalled(reply) && reply is Err,
    ensures
        steps[i + 1] matches SaveStep::Ask(_, request) && request is DeletePaymentMethod,
        i + 1 < replies.len() ==> steps[i + 2] is Done && steps[i + 2]->Done_0.result is Err,
{
    assert(follows(steps[i], replies[i], steps[i + 1]));
    if i + 1 < replies.len() {
        assert(follows(steps[i + 1], replies[i + 1], steps[i + 1 + 1]));
    }
}

/// Whether the step asks for an entry.
pub open spec fn enters(step: SaveStep) -> bool {
    step matches SaveStep::Ask(_, request) && request is CreatePaymentMethod
}

/// Whether the step asks for a card to be taken out of the locker.
pub open spec fn takes_out(step: SaveStep) -> bool {
    step matches SaveStep::Ask(_, request) && request is DeleteCardFromLocker
}

/// Whether the step asks the locker to keep the destination.
pub open spec fn stores(step: SaveStep) -> bool {
    step matches SaveStep::Ask(_, request) && request is CallLocker
}

/// Whether the step asks for an entry to be updated.
pub open spec fn updates(step: SaveStep) -> bool {
    step matches SaveStep::Ask(_, request) && request is UpdatePaymentMethod
}

/// Whether the step asks for an entry to be deleted.
pub open spec fn deletes(step: SaveStep) -> bool {
    step matches SaveStep::Ask(_, request) && request is DeletePaymentMethod
}

/// Whether the run has succeeded.
pub open spec fn has_succeeded(steps: Seq<SaveStep>) -> bool {
    steps.last() matches SaveStep::Done(outcome) && outcome.result is Ok
}

/// Whether the locker entry of `existing` is replaced by these three steps: it is
/// taken out, the destination is stored again under its name, and the entry is
/// updated.
pub open spec fn is_replaced_by(
    context: SaveContext,
    replies: Seq<SaveReply>,
    existing: StoredPaymentMethod,
    taking_out: SaveStep,
    storing: SaveStep,
    updating: SaveStep,
) -> bool {
    &&& taking_out is Ask
    &&& taking_out->Ask_1 == SaveRequest::DeleteCardFromLocker {
        customer_id: context.customer_id(),
        merchant_id: context.merchant_id,
        card_reference: existing.card_reference(),
    }
    &&& storing matches SaveStep::Ask(_, SaveRequest::CallLocker { request, customer_id }) && {
        &&& is_second_locker_request(request, context, replies, existing)
        &&& customer_id == context.customer_id()
    }
    &&& updating matches SaveStep::Ask(_, SaveRequest::UpdatePaymentMethod { payment_method, .. })
        && payment_method == existing
}

/// Later steps leave fewer requests to make.
proof fn requests_fall(
    context: SaveContext,
    replies: Seq<SaveReply>,
    steps: Seq<SaveStep>,
    i: int,
    j: int,
)
    requires
        is_run(context, replies, steps),
        0 <= i < j <= replies.len(),
    ensures
        requests_left(steps[j]) < requests_left(steps[i]),
    decreases j - i,
{
    steps_are_sound(context, replies, steps, j - 1);
    assert(follows(steps[j - 1], replies[j - 1], steps[j - 1 + 1]));
    soundness_is_kept(context, replies.take(j - 1), steps[j - 1], replies[j - 1], steps[j]);
    if i < j - 1 {
        requests_fall(context, replies, steps, i, j - 1);
    }
}

/// A run does each of these things at most once, and stores at most once after
/// its first request to the locker.
proof fn nothing_is_done_twice(
    context: SaveContext,
    replies: Seq<SaveReply>,
    steps: Seq<SaveStep>,
    i: int,
    j: int,
)
    requires
        is_run(context, replies, steps),
        0 <= i < j <= replies.len(),
    ensures
        !(enters(steps[i]) && enters(steps[j])),
        !(takes_out(steps[i]) && takes_out(steps[j])),
        !(updates(steps[i]) && updates(steps[j])),
        stores(steps[i]) && i != first_locker_reply(context) ==> !stores(steps[j]),
{
    steps_are_sound(context, replies, steps, i);
    steps_are_sound(context, replies, steps, j);
    requests_fall(context, replies, steps, i, j);
}

/// A step that follows a run's end does not exist, so in a run that succeeds no
/// step before the last one ends it.
proof fn success_comes_last(
    context: SaveContext,
    replies: Seq<SaveReply>,
    steps: Seq<SaveStep>,
    i: int,
)
    requires
        is_run(context, replies, steps),
        has_succeeded(steps),
        0 <= i < steps.len(),
    ensures
        steps[i] matches SaveStep::Done(outcome) ==> outcome.result is Ok,
        steps[i] is Ask ==> i < replies.len() && follows(steps[i], replies[i], steps[i + 1]),
{
    if i < replies.len() {
        assert(follows(steps[i], replies[i], steps[i + 1]));
    }
}

/// What the flow does right after the locker has first kept the destination.
proof fn first_storing_is_replied_to(
    context: SaveContext,
    replies: Seq<SaveReply>,
    steps: Seq<SaveStep>,
    response: StoreCardRespPayload,
) -> (locker_request: StoreLockerReq)
    requires
        is_run(context, replies, steps),
        kept_as(context, replies, response),
    ensures
        is_after_storing(
            steps[first_locker_reply(context) + 1],
            context,
            locker_request,
            Ok(response),
        ),
{
    let k = first_locker_reply(context);
    steps_are_sound(context, replies, steps, k);
    assert(follows(steps[k], replies[k], steps[k + 1]));
    steps[k]->Ask_0->Storing_locker_request
}

/// In a run that succeeds, the plan to enter the destination is carried out.
proof fn entering_is_carried_out(
    context: SaveContext,
    replies: Seq<SaveReply>,
    steps: Seq<SaveStep>,
    saved: SavedInLocker,
    m: int,
) -> (c: int)
    requires
        is_run(context, replies, steps),
        has_succeeded(steps),
        0 <= m < steps.len(),
        is_planned(steps[m], saved, TablePlan::Insert),
    ensures
        0 <= c < steps.len(),
        enters(steps[c]),
{
    success_comes_last(context, replies, steps, m);
    if saved.context.payout_method_data is Card {
        success_comes_last(context, replies, steps, m + 1);
        success_comes_last(context, replies, steps, m + 2);
        m + 2
    } else {
        m
    }
}

/// In a run that succeeds, the plan to replace an entry is carried out.
proof fn replacing_is_carried_out(
    context: SaveContext,
    replies: Seq<SaveReply>,
    steps: Seq<SaveStep>,
    saved: SavedInLocker,
    existing: StoredPaymentMethod,
    m: int,
) -> (d: int)
    requires
        is_run(context, replies, steps),
        has_succeeded(steps),
        first_locker_reply(context) < m < steps.len(),
        saved.context == context,
        is_planned(steps[m], saved, TablePlan::UpdateMetadata(existing)),
    ensures
        first_locker_reply(context) < d < steps.len() - 2,
        is_replaced_by(context, replies, existing, steps[d], steps[d + 1], steps[d + 2]),
{
    success_comes_last(context, replies, steps, m);
    let d = if context.payout_method_data is Card {
        success_comes_last(context, replies, steps, m + 1);
        success_comes_last(context, replies, steps, m + 2);
        m + 2
    } else {
        m
    };
    success_comes_last(context, replies, steps, d);
    success_comes_last(context, replies, steps, d + 1);
    success_comes_last(context, replies, steps, d + 2);
    if d + 3 < steps.len() {
        success_comes_last(context, replies, steps, d + 3);
    }
    steps_are_sound(context, replies, steps, d + 1);
    shown_by_all_replies(context, replies, d + 1);
    match steps[d + 1] {
        SaveStep::Ask(_, SaveRequest::CallLocker { request, .. }) => {
            let first = choose|first: StoreLockerReq| #[trigger]
                is_first_locker_request(first, context, replies.take(d + 1)) && request
                    == first.with_card_reference(Some(existing.card_reference()));
            assert(is_first_locker_request(first, context, replies));
        },
        _ => {},
    }
    d
}

/// A run that succeeds with a destination that is new to the table asks for
/// exactly one entry, and touches none that is there.
pub proof fn new_destinations_are_entered_once(
    context: SaveContext,
    replies: Seq<SaveReply>,
    steps: Seq<SaveStep>,
)
    requires
        is_run(context, replies, steps),
        has_succeeded(steps),
        is_new_to_table(context, replies),
    ensures
        exists|c: int|
            {
                &&& 0 <= c < steps.len()
                &&& enters(#[trigger] steps[c])
                &&& forall|i: int|
                    0 <= i < steps.len() && enters(#[trigger] steps[i]) ==> i == c
            },
        forall|i: int|
            0 <= i < steps.len() ==> !takes_out(#[trigger] steps[i]) && !updates(steps[i])
                && !deletes(steps[i]),
{
    let k = first_locker_reply(context);
    let response = choose|response: StoreCardRespPayload| #[trigger]
        kept_as(context, replies, response) && {
            ||| response.duplication_check is None
            ||| {
                &&& k + 2 < replies.len()
                &&& says_not_found(replies[k + 1])
                &&& says_not_found(replies[k + 2])
            }
        };
    let locker_request = first_storing_is_replied_to(context, replies, steps, response);
    let saved = SavedInLocker { context, locker_request, card_reference: response.card_reference };
    let m = if response.duplication_check is None {
        k + 1
    } else {
        assert(follows(steps[k + 1], replies[k + 1], steps[k + 1 + 1]));
        assert(follows(steps[k + 2], replies[k + 2], steps[k + 2 + 1]));
        k + 3
    };
    let c = entering_is_carried_out(context, replies, steps, saved, m);
    assert forall|i: int| 0 <= i < steps.len() && enters(#[trigger] steps[i]) implies i == c by {
        if i < c {
            nothing_is_done_twice(context, replies, steps, i, c);
        } else if c < i {
            nothing_is_done_twice(context, replies, steps, c, i);
        }
    }
    assert forall|i: int| 0 <= i < steps.len() implies !takes_out(#[trigger] steps[i]) && !updates(
        steps[i],
    ) && !deletes(steps[i]) by {
        entering_excludes_touching(context, replies, steps, c, i);
    }
}

/// A run that succeeds with a destination whose entry has changed takes it out of
/// the locker, stores it again and updates the entry, each exactly once; it makes
/// no entry and deletes none.
pub proof fn changed_entries_are_replaced_once(
    context: SaveContext,
    replies: Seq<SaveReply>,
    steps: Seq<SaveStep>,
    existing: StoredPaymentMethod,
)
    requires
        is_run(context, replies, steps),
        has_succeeded(steps),
        is_changed_entry(context, replies, existing),
    ensures
        exists|d: int|
            {
                &&& first_locker_reply(context) < d < steps.len() - 2
                &&& is_replaced_by(
                    context,
                    replies,
                    existing,
                    #[trigger] steps[d],
                    steps[d + 1],
                    steps[d + 2],
                )
                &&& forall|i: int|
                    #![trigger steps[i]]
                    0 <= i < steps.len() ==> {
                        &&& takes_out(steps[i]) ==> i == d
                        &&& stores(steps[i]) ==> i == first_locker_reply(context) || i == d + 1
                        &&& updates(steps[i]) ==> i == d + 2
                    }
            },
        forall|i: int|
            0 <= i < steps.len() ==> !enters(#[trigger] steps[i]) && !deletes(steps[i]),
{
    let k = first_locker_reply(context);
    let response = choose|response: StoreCardRespPayload| #[trigger]
        kept_as(context, replies, response) && response.duplication_check == Some(
            DataDuplicationCheck::MetaDataChanged,
        );
    let locker_request = first_storing_is_replied_to(context, replies, steps, response);
    let saved = SavedInLocker { context, locker_request, card_reference: response.card_reference };
    assert(follows(steps[k + 1], replies[k + 1], steps[k + 1 + 1]));
    let m = if replies[k + 1] == SaveReply::PaymentMethodFound(Ok(existing)) {
        k + 2
    } else {
        assert(follows(steps[k + 2], replies[k + 2], steps[k + 2 + 1]));
        k + 3
    };
    let d = replacing_is_carried_out(context, replies, steps, saved, existing, m);
    assert forall|i: int|
        #![trigger steps[i]]
        0 <= i < steps.len() implies {
        &&& takes_out(steps[i]) ==> i == d
        &&& stores(steps[i]) ==> i == k || i == d + 1
        &&& updates(steps[i]) ==> i == d + 2
    } by {
        if i < d {
            nothing_is_done_twice(context, replies, steps, i, d);
        } else if d < i {
            nothing_is_done_twice(context, replies, steps, d, i);
        }
        if i < d + 1 {
            nothing_is_done_twice(context, replies, steps, i, d + 1);
        } else if d + 1 < i {
            nothing_is_done_twice(context, replies, steps, d + 1, i);
        }
        if i < d + 2 {
            nothing_is_done_twice(context, replies, steps, i, d + 2);
        } else if d + 2 < i {
            nothing_is_done_twice(context, replies, steps, d + 2, i);
        }
    }
    assert forall|i: int| 0 <= i < steps.len() implies !enters(#[trigger] steps[i]) && !deletes(
        steps[i],
    ) by {
        if enters(steps[i]) {
            entering_excludes_touching(context, replies, steps, i, d);
        }
        if deletes(steps[i]) {
            steps_are_sound(context, replies, steps, i);
            success_comes_last(context, replies, steps, i);
            success_comes_last(context, replies, steps, i + 1);
        }
    }
}

} // verus!
