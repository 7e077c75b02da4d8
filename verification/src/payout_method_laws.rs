//! What holds of every run of the flow that finds out where a payout goes,
//! whatever the outside replies.

use vstd::prelude::*;

use crate::enums::{PaymentMethod, PayoutType};
use crate::errors::ApiErrorResponse;
use crate::payment_tokens::PaymentTokenData;
use crate::payout_method::{
    belongs_to, is_method_started, is_temporary, make_payout_method_data, method_resumed,
    payout_card, resume_make_payout_method_data, token_key, MethodContext, MethodOutcome,
    MethodReply, MethodRequest, MethodState, MethodStep,
};
use crate::payout_types::{PayoutData, PayoutMethodData};

verus! {

/// Whether `next` is what the flow does once the request of `step` was replied
/// to with `reply`.
pub open spec fn follows(step: MethodStep, reply: MethodReply, next: MethodStep) -> bool {
    step matches MethodStep::Ask(state, _) && state.awaits(reply) && method_resumed(
        state,
        reply,
        next,
    )
}

/// Whether these are the first steps of the flow, with the reply to each of
/// them but the last.
pub open spec fn is_run(
    context: MethodContext,
    replies: Seq<MethodReply>,
    steps: Seq<MethodStep>,
) -> bool {
    &&& steps.len() == replies.len() + 1
    &&& is_method_started(steps[0], context)
    &&& forall|i: int|
        0 <= i < replies.len() ==> follows(steps[i], #[trigger] replies[i], steps[i + 1])
}

/// How many requests the flow can still make, this one counted.
pub open spec fn requests_left(step: MethodStep) -> int {
    match step {
        MethodStep::Done(_) => 0,
        MethodStep::Ask(state, _) => match state {
            MethodState::FetchingToken { .. } => 3,
            MethodState::ParsingToken { .. } => 2,
            MethodState::FetchingFromTemporaryLocker { .. } => 1,
            MethodState::FetchingCard { .. } => 1,
            MethodState::Storing { token_is_known, .. } => if token_is_known {
                1
            } else {
                2
            },
            MethodState::UpdatingAttempt { .. } => 1,
        },
    }
}

/// Whether the destination may be handed out: it is the one that was handed in,
/// or it comes from a locker, and from the temporary one only to its owner.
pub open spec fn may_be_handed_out(
    context: MethodContext,
    last: MethodReply,
    payout_method_data: PayoutMethodData,
) -> bool {
    match last {
        MethodReply::FoundInTemporaryLocker(Ok((found, owner))) => {
            &&& context.payout_method_data is None
            &&& found == Some(payout_method_data)
            &&& belongs_to(owner, context.customer_id)
        },
        MethodReply::CardFound(Ok(card)) => {
            &&& context.payout_method_data is None
            &&& payout_method_data == PayoutMethodData::Card(payout_card(card))
        },
        _ => context.payout_method_data == Some(payout_method_data),
    }
}

/// Whether the payout stayed as it was, or its attempt was replaced by the
/// answer to the last request, which told it a new token.
spec fn payout_is_accounted_for(
    context: MethodContext,
    replies: Seq<MethodReply>,
    payout_data: Option<PayoutData>,
) -> bool {
    ||| payout_data == context.payout_data
    ||| {
        &&& context.payout_token is None
        &&& context.payout_method_data is Some
        &&& context.payout_data is Some
        &&& payout_data is Some
        &&& payout_data->0.payouts == context.payout_data->0.payouts
        &&& replies.len() > 0
        &&& replies.last() == MethodReply::PayoutTokenUpdated(Ok(payout_data->0.payout_attempt))
    }
}

/// What a step of a run owes to the replies before it.
spec fn step_is_sound(context: MethodContext, replies: Seq<MethodReply>, step: MethodStep) -> bool {
    match step {
        MethodStep::Done(outcome) => {
            &&& payout_is_accounted_for(context, replies, outcome.payout_data)
            &&& outcome.result is Err ==> outcome.payout_data == context.payout_data
            &&& outcome.result matches Ok(Some(method)) ==> replies.len() > 0 && may_be_handed_out(
                context,
                replies.last(),
                method,
            )
            &&& outcome.result matches Ok(None) ==> context.payout_method_data is None
                || context.payout_data is None
        },
        MethodStep::Ask(state, request) => match state {
            MethodState::FetchingToken { context: held, payout_token } => {
                &&& held == context
                &&& context.payout_token == Some(payout_token)
                &&& !is_temporary(payout_token@)
                &&& request is GetCachedToken
            },
            MethodState::ParsingToken { context: held, payout_token } => {
                &&& held == context
                &&& context.payout_token == Some(payout_token)
                &&& request is ParseTokenData
            },
            MethodState::FetchingFromTemporaryLocker { context: held } => {
                &&& held == context
                &&& context.payout_method_data is None
                &&& request is GetFromTemporaryLocker
            },
            MethodState::FetchingCard { context: held } => {
                &&& held == context
                &&& context.payout_method_data is None
                &&& request is GetCardFromLocker
            },
            MethodState::Storing { payout_data, payout_method_data, token_is_known } => {
                &&& context.payout_data == Some(payout_data)
                &&& context.payout_method_data == Some(payout_method_data)
                &&& token_is_known == (context.payout_token is Some)
                &&& request matches MethodRequest::StoreInLocker {
                    payout_method_data: stored,
                    owner,
                    ..
                } && stored == payout_method_data && owner == Some(context.customer_id)
            },
            MethodState::UpdatingAttempt { payout_data, payout_method_data } => {
                &&& context.payout_data == Some(payout_data)
                &&& context.payout_method_data == Some(payout_method_data)
                &&& context.payout_token is None
                &&& replies.len() > 0
                &&& request matches MethodRequest::UpdatePayoutToken { new_token, .. }
                    && replies.last() == MethodReply::StoredInLocker(Ok(new_token))
            },
        },
    }
}

/// Every step of a run is sound, and the number of requests is bounded.
proof fn steps_are_sound(
    context: MethodContext,
    replies: Seq<MethodReply>,
    steps: Seq<MethodStep>,
    i: int,
)
    requires
        is_run(context, replies, steps),
        0 <= i <= replies.len(),
    ensures
        step_is_sound(context, replies.take(i), steps[i]),
        i + requests_left(steps[i]) <= requests_left(steps[0]),
    decreases i,
{
    if i > 0 {
        steps_are_sound(context, replies, steps, i - 1);
        assert(follows(steps[i - 1], replies[i - 1], steps[i - 1 + 1]));
        assert(replies.take(i).last() == replies[i - 1]);
    }
}

/// The flow ends: whatever the replies, it makes three requests at most.
pub proof fn every_run_ends(
    context: MethodContext,
    replies: Seq<MethodReply>,
    steps: Seq<MethodStep>,
)
    requires
        is_run(context, replies, steps),
    ensures
        replies.len() <= 3,
        replies.len() == 3 ==> steps.last() is Done,
{
    steps_are_sound(context, replies, steps, replies.len() as int);
}

/// A run that fails leaves the payout as it was. One that succeeds changes
/// nothing but the attempt, and that only where a destination was handed in
/// without a token.
pub proof fn only_a_new_token_changes_the_attempt(
    context: MethodContext,
    replies: Seq<MethodReply>,
    steps: Seq<MethodStep>,
)
    requires
        is_run(context, replies, steps),
        steps.last() is Done,
        steps.last()->Done_0.payout_data != context.payout_data,
    ensures
        steps.last()->Done_0.result is Ok,
        context.payout_token is None,
        context.payout_method_data is Some,
        context.payout_data is Some,
        steps.last()->Done_0.payout_data is Some,
        steps.last()->Done_0.payout_data->0.payouts == context.payout_data->0.payouts,
        replies.last() == MethodReply::PayoutTokenUpdated(
            Ok(steps.last()->Done_0.payout_data->0.payout_attempt),
        ),
{
    let n = replies.len() as int;
    steps_are_sound(context, replies, steps, n);
    assert(replies.take(n) =~= replies);
}

/// The token that the attempt is told is the key under which the locker has
/// just kept the destination.
pub proof fn the_new_token_is_the_key(
    context: MethodContext,
    replies: Seq<MethodReply>,
    steps: Seq<MethodStep>,
    i: int,
)
    requires
        is_run(context, replies, steps),
        0 <= i < steps.len(),
        steps[i] matches MethodStep::Ask(_, request) && request is UpdatePayoutToken,
    ensures
        i > 0,
        steps[i] matches MethodStep::Ask(_, MethodRequest::UpdatePayoutToken { new_token, .. })
            && replies[i - 1] == MethodReply::StoredInLocker(Ok(new_token)),
{
    steps_are_sound(context, replies, steps, i);
    assert(replies.take(i).len() == i);
}

/// A destination that a run ends with is the one that was handed in, or one
/// that a locker keeps; from the temporary locker it comes only for the customer
/// it belongs to.
pub proof fn destinations_reach_their_owner(
    context: MethodContext,
    replies: Seq<MethodReply>,
    steps: Seq<MethodStep>,
)
    requires
        is_run(context, replies, steps),
        steps.last() is Done,
    ensures
        steps.last()->Done_0.result matches Ok(Some(method)) ==> replies.len() > 0
            && may_be_handed_out(context, replies.last(), method),
{
    let n = replies.len() as int;
    steps_are_sound(context, replies, steps, n);
    assert(replies.take(n) =~= replies);
}

/// Where a destination is handed in for a payout, a run that succeeds ends with
/// that destination.
pub proof fn the_destination_handed_in_is_kept(
    context: MethodContext,
    replies: Seq<MethodReply>,
    steps: Seq<MethodStep>,
)
    requires
        is_run(context, replies, steps),
        steps.last() is Done,
        context.payout_method_data is Some,
        context.payout_data is Some,
    ensures
        steps.last()->Done_0.result matches Ok(found) ==> found == context.payout_method_data,
{
    let n = replies.len() as int;
    steps_are_sound(context, replies, steps, n);
    assert(replies.take(n) =~= replies);
}

/// Temporary tokens are never looked up in the cache.
pub proof fn temporary_tokens_are_not_cached(
    context: MethodContext,
    replies: Seq<MethodReply>,
    steps: Seq<MethodStep>,
    i: int,
)
    requires
        is_run(context, replies, steps),
        0 <= i < steps.len(),
        context.payout_token matches Some(token) && is_temporary(token@),
    ensures
        steps[i] matches MethodStep::Ask(_, request) ==> !(request is GetCachedToken),
{
    steps_are_sound(context, replies, steps, i);
}

/// Where neither a destination nor a token is handed in, nothing is asked for
/// and no destination is found.
pub proof fn nothing_comes_of_nothing(
    context: MethodContext,
    replies: Seq<MethodReply>,
    steps: Seq<MethodStep>,
)
    requires
        is_run(context, replies, steps),
        context.payout_method_data is None,
        context.payout_token is None,
    ensures
        replies.len() == 0,
        steps[0] is Done,
        steps[0]->Done_0.result == Ok::<Option<PayoutMethodData>, ApiErrorResponse>(None),
        steps[0]->Done_0.payout_data == context.payout_data,
{
    if replies.len() > 0 {
        assert(follows(steps[0], replies[0], steps[0int + 1]));
    }
}

/// The keys of the cache tell tokens apart, and, for one token, the types of
/// payouts.
pub proof fn cache_keys_tell_tokens_apart(
    token: Seq<char>,
    other_token: Seq<char>,
    payout_type: PayoutType,
    other_type: PayoutType,
)
    ensures
        token_key(token, PaymentMethod::of_payout_type(payout_type)) == token_key(
            other_token,
            PaymentMethod::of_payout_type(payout_type),
        ) ==> token == other_token,
        token_key(token, PaymentMethod::of_payout_type(payout_type)) == token_key(
            token,
            PaymentMethod::of_payout_type(other_type),
        ) ==> payout_type == other_type,
{
    let method = PaymentMethod::of_payout_type(payout_type);
    let key = token_key(token, method);
    let other_key = token_key(other_token, method);
    let start = "pm_token_"@.len() as int;
    let tail = ("_"@ + method.text() + "_hyperswitch"@).len() as int;
    assert(key.subrange(start, key.len() - tail) =~= token);
    assert(other_key.subrange(start, other_key.len() - tail) =~= other_token);
    reveal_strlit("card");
    reveal_strlit("bank_transfer");
    reveal_strlit("wallet");
}

/// Whether the destination is looked for under this token: the one that was
/// handed in where it is temporary, else the one that the cache told it stands
/// for. That is the name of the stored card in the locker, or its token where
/// the locker has none; the token of other data; and otherwise the token itself.
pub open spec fn is_looked_up_under(
    context: MethodContext,
    replies: Seq<MethodReply>,
    token: String,
) -> bool {
    &&& context.payout_token is Some
    &&& if "temporary_token_"@.is_prefix_of(context.payout_token->0@) {
        token == context.payout_token->0
    } else {
        &&& replies.len() > 1
        &&& replies[1] matches MethodReply::TokenDataParsed(Ok(data)) && match data {
            PaymentTokenData::PermanentCard(card) => match card.locker_id {
                Some(locker_id) => token == locker_id,
                None => token == card.token,
            },
            PaymentTokenData::TemporaryGeneric(generic) => token == generic.token,
            PaymentTokenData::Temporary(_) => token == context.payout_token->0,
            PaymentTokenData::Permanent(_) => token == context.payout_token->0,
            PaymentTokenData::AuthBankDebit(_) => token == context.payout_token->0,
            PaymentTokenData::WalletToken(_) => token == context.payout_token->0,
        }
    }
}

/// What a step asks for, told from the context and from the replies before it.
spec fn step_tells(context: MethodContext, replies: Seq<MethodReply>, step: MethodStep) -> bool {
    let n = replies.len() as int;
    match step {
        MethodStep::Done(_) => true,
        MethodStep::Ask(state, request) => match state {
            MethodState::FetchingToken { .. } => n == 0,
            MethodState::ParsingToken { .. } => {
                &&& n == 1
                &&& !"temporary_token_"@.is_prefix_of(context.payout_token->0@)
                &&& request matches MethodRequest::ParseTokenData { text } && replies[0]
                    == MethodReply::CachedTokenRead(Ok(Some(text)))
            },
            MethodState::FetchingFromTemporaryLocker { .. } => {
                &&& request matches MethodRequest::GetFromTemporaryLocker { lookup_key }
                    && is_looked_up_under(context, replies, lookup_key) && (
                "temporary_token_"@.is_prefix_of(lookup_key@) || context.payout_type == Some(
                    PayoutType::Bank,
                ))
            },
            MethodState::FetchingCard { .. } => {
                &&& context.payout_type != Some(PayoutType::Bank)
                &&& request matches MethodRequest::GetCardFromLocker {
                    customer_id,
                    merchant_id,
                    card_reference,
                } && {
                    &&& customer_id == context.customer_id
                    &&& merchant_id == context.merchant_id
                    &&& is_looked_up_under(context, replies, card_reference)
                    &&& !"temporary_token_"@.is_prefix_of(card_reference@)
                }
            },
            MethodState::Storing { .. } => {
                &&& request matches MethodRequest::StoreInLocker { payout_token, .. } && (
                match payout_token {
                    Some(token) => is_looked_up_under(context, replies, token),
                    None => context.payout_token is None,
                })
            },
            MethodState::UpdatingAttempt { payout_data, .. } => {
                &&& request matches MethodRequest::UpdatePayoutToken {
                    payout_attempt,
                    payouts,
                    ..
                } && payout_attempt == payout_data.payout_attempt && payouts == payout_data.payouts
            },
        },
    }
}

proof fn steps_tell(
    context: MethodContext,
    replies: Seq<MethodReply>,
    steps: Seq<MethodStep>,
    i: int,
)
    requires
        is_run(context, replies, steps),
        0 <= i <= replies.len(),
    ensures
        step_tells(context, replies.take(i), steps[i]),
    decreases i,
{
    steps_are_sound(context, replies, steps, i);
    if i > 0 {
        steps_tell(context, replies, steps, i - 1);
        steps_are_sound(context, replies, steps, i - 1);
        assert(follows(steps[i - 1], replies[i - 1], steps[i - 1 + 1]));
        assert(replies.take(i)[i - 1] == replies[i - 1]);
        assert(forall|j: int| 0 <= j < i - 1 ==> replies.take(i - 1)[j] == replies.take(i)[j]);
    }
}

/// A token that begins as temporary ones do leads to the temporary locker, and to
/// nothing else, whatever the type of the payout. A card is asked for only under
/// a token that does not begin so, only for payouts that do not go to a bank, and
/// for the customer and the merchant of the payout.
pub proof fn tokens_lead_to_their_locker(
    context: MethodContext,
    replies: Seq<MethodReply>,
    steps: Seq<MethodStep>,
    i: int,
)
    requires
        is_run(context, replies, steps),
        0 <= i < steps.len(),
        steps[i] is Ask,
    ensures
        steps[i]->Ask_1 matches MethodRequest::GetFromTemporaryLocker { lookup_key } ==> {
            &&& context.payout_method_data is None
            &&& is_looked_up_under(context, replies, lookup_key)
            &&& "temporary_token_"@.is_prefix_of(lookup_key@) || context.payout_type == Some(
                PayoutType::Bank,
            )
        },
        steps[i]->Ask_1 matches MethodRequest::GetCardFromLocker {
            customer_id,
            merchant_id,
            card_reference,
        } ==> {
            &&& context.payout_method_data is None
            &&& is_looked_up_under(context, replies, card_reference)
            &&& !"temporary_token_"@.is_prefix_of(card_reference@)
            &&& context.payout_type != Some(PayoutType::Bank)
            &&& customer_id == context.customer_id
            &&& merchant_id == context.merchant_id
        },
        context.payout_method_data is None && context.payout_token is Some
            && "temporary_token_"@.is_prefix_of(context.payout_token->0@) ==> i == 0
            && steps[i]->Ask_1 == (MethodRequest::GetFromTemporaryLocker {
            lookup_key: context.payout_token->0,
        }),
{
    steps_tell(context, replies, steps, i);
    steps_are_sound(context, replies, steps, i);
    assert(forall|j: int| 0 <= j < i ==> replies.take(i)[j] == replies[j]);
    if i > 0 {
        assert(follows(steps[0], replies[0], steps[0int + 1]));
        if i > 1 {
            assert(follows(steps[1], replies[1], steps[1int + 1]));
        }
    }
}

/// Where no destination is handed in, a temporary token is looked up at once in
/// the temporary locker, and what any other stands for is looked up as soon as
/// the cache has told it: in the temporary locker where that begins as temporary
/// tokens do or the payout goes to a bank, else among the cards.
pub proof fn every_token_is_looked_up(
    context: MethodContext,
    replies: Seq<MethodReply>,
    steps: Seq<MethodStep>,
    token: String,
)
    requires
        is_run(context, replies, steps),
        context.payout_method_data is None,
        is_looked_up_under(context, replies, token),
    ensures
        ({
            let at = if "temporary_token_"@.is_prefix_of(context.payout_token->0@) {
                0int
            } else {
                2int
            };
            &&& steps[at] is Ask
            &&& steps[at]->Ask_1 == if "temporary_token_"@.is_prefix_of(token@)
                || context.payout_type == Some(PayoutType::Bank) {
                MethodRequest::GetFromTemporaryLocker { lookup_key: token }
            } else {
                MethodRequest::GetCardFromLocker {
                    customer_id: context.customer_id,
                    merchant_id: context.merchant_id,
                    card_reference: token,
                }
            }
        }),
{
    if replies.len() > 1 {
        assert(follows(steps[0], replies[0], steps[0int + 1]));
        assert(follows(steps[1], replies[1], steps[1int + 1]));
    }
}

/// A token that is not temporary is looked up in the cache under a key that is
/// made of the token and of how payouts of the type are carried; without the type
/// it is not looked up.
pub proof fn other_tokens_are_read_from_the_cache(
    context: MethodContext,
    replies: Seq<MethodReply>,
    steps: Seq<MethodStep>,
)
    requires
        is_run(context, replies, steps),
        context.payout_token is Some,
        !"temporary_token_"@.is_prefix_of(context.payout_token->0@),
    ensures
        context.payout_type is None ==> steps[0] == MethodStep::Done(
            MethodOutcome {
                payout_data: context.payout_data,
                result: Err(ApiErrorResponse::MissingRequiredField { field_name: "payout_type" }),
            },
        ),
        context.payout_type is Some ==> {
            &&& steps[0] is Ask
            &&& steps[0]->Ask_1 is GetCachedToken
            &&& steps[0]->Ask_1->GetCachedToken_key@ == "pm_token_"@ + context.payout_token->0@
                + "_"@ + (match context.payout_type->0 {
                PayoutType::Card => "card"@,
                PayoutType::Bank => "bank_transfer"@,
                PayoutType::Wallet => "wallet"@,
            }) + "_hyperswitch"@
        },
        replies.len() > 0 ==> match replies[0]->CachedTokenRead_0 {
            Err(_) => steps[1] == MethodStep::Done(
                MethodOutcome {
                    payout_data: context.payout_data,
                    result: Err(ApiErrorResponse::InternalServerError),
                },
            ),
            Ok(None) => {
                &&& steps[1] is Done
                &&& steps[1]->Done_0.payout_data == context.payout_data
                &&& steps[1]->Done_0.result is Err
                &&& steps[1]->Done_0.result->Err_0 is UnprocessableEntity
                &&& steps[1]->Done_0.result->Err_0->UnprocessableEntity_message@
                    == "Token is invalid or expired"@
            },
            Ok(Some(text)) => steps[1] is Ask && steps[1]->Ask_1
                == (MethodRequest::ParseTokenData { text }),
        },
        replies.len() > 1 && replies[1]->TokenDataParsed_0 is Err ==> steps[2] == MethodStep::Done(
            MethodOutcome {
                payout_data: context.payout_data,
                result: Err(ApiErrorResponse::InternalServerError),
            },
        ),
{
    if replies.len() > 0 {
        assert(follows(steps[0], replies[0], steps[0int + 1]));
    }
    if replies.len() > 1 {
        assert(follows(steps[1], replies[1], steps[1int + 1]));
    }
}

/// A destination that is handed in for a payout is kept for its customer, under
/// the token that was handed in or that this stands for, where there is one; and
/// what the locker calls it is told to the attempt where there is none.
pub proof fn destinations_are_kept_for_their_customer(
    context: MethodContext,
    replies: Seq<MethodReply>,
    steps: Seq<MethodStep>,
    i: int,
)
    requires
        is_run(context, replies, steps),
        0 <= i < steps.len(),
        steps[i] is Ask,
    ensures
        steps[i]->Ask_1 matches MethodRequest::StoreInLocker {
            payout_token,
            payout_method_data,
            owner,
        } ==> {
            &&& context.payout_data is Some
            &&& context.payout_method_data == Some(payout_method_data)
            &&& owner == Some(context.customer_id)
            &&& match payout_token {
                Some(token) => is_looked_up_under(context, replies, token),
                None => context.payout_token is None,
            }
        },
        steps[i]->Ask_1 matches MethodRequest::UpdatePayoutToken {
            payout_attempt,
            new_token,
            payouts,
        } ==> {
            &&& context.payout_token is None
            &&& context.payout_data is Some
            &&& payout_attempt == context.payout_data->0.payout_attempt
            &&& payouts == context.payout_data->0.payouts
            &&& replies[i - 1] == MethodReply::StoredInLocker(Ok(new_token))
        },
{
    steps_tell(context, replies, steps, i);
    steps_are_sound(context, replies, steps, i);
    assert(forall|j: int| 0 <= j < i ==> replies.take(i)[j] == replies[j]);
    assert(replies.take(i).len() == i);
}

/// What the last reply of a run leads to: an error of a locker is passed on, a
/// destination of another customer is refused, a card is handed out with its
/// number, its expiry and its holder, and what could not be stored in the attempt
/// is an internal error.
pub proof fn the_last_reply_is_told(
    context: MethodContext,
    replies: Seq<MethodReply>,
    steps: Seq<MethodStep>,
    i: int,
)
    requires
        is_run(context, replies, steps),
        0 <= i < replies.len(),
    ensures
        match replies[i] {
            MethodReply::FoundInTemporaryLocker(Err(error)) => is_failed_with(
                steps[i + 1],
                context,
                error,
            ),
            MethodReply::FoundInTemporaryLocker(Ok((found, owner))) => {
                &&& steps[i + 1] is Done
                &&& steps[i + 1]->Done_0.payout_data == context.payout_data
                &&& if owner is Some && owner->0@ == context.customer_id@ {
                    steps[i + 1]->Done_0.result == Ok::<
                        Option<PayoutMethodData>,
                        ApiErrorResponse,
                    >(found)
                } else {
                    let result = steps[i + 1]->Done_0.result;
                    &&& result is Err
                    &&& result->Err_0 is PreconditionFailed
                    &&& result->Err_0->PreconditionFailed_message@
                        == "customer associated with payout method and customer passed in payout are not same"@
                }
            },
            MethodReply::CardFound(Err(error)) => is_failed_with(steps[i + 1], context, error),
            MethodReply::CardFound(Ok(card)) => {
                &&& steps[i + 1] is Done
                &&& steps[i + 1]->Done_0.payout_data == context.payout_data
                &&& steps[i + 1]->Done_0.result is Ok
                &&& steps[i + 1]->Done_0.result->Ok_0 is Some
                &&& steps[i + 1]->Done_0.result->Ok_0->0 matches PayoutMethodData::Card(found)
                    && {
                    &&& found.card_number == card.card_number
                    &&& found.expiry_month == card.card_exp_month
                    &&& found.expiry_year == card.card_exp_year
                    &&& found.card_holder_name == card.name_on_card
                }
            },
            MethodReply::StoredInLocker(Err(error)) => is_failed_with(steps[i + 1], context, error),
            MethodReply::StoredInLocker(Ok(key)) => if context.payout_token is Some {
                &&& steps[i + 1] is Done
                &&& steps[i + 1]->Done_0.payout_data == context.payout_data
                &&& steps[i + 1]->Done_0.result == Ok::<
                    Option<PayoutMethodData>,
                    ApiErrorResponse,
                >(context.payout_method_data)
            } else {
                steps[i + 1] is Ask && steps[i + 1]->Ask_1 == (MethodRequest::UpdatePayoutToken {
                    payout_attempt: context.payout_data->0.payout_attempt,
                    new_token: key,
                    payouts: context.payout_data->0.payouts,
                })
            },
            MethodReply::PayoutTokenUpdated(Err(_)) => is_failed_with(
                steps[i + 1],
                context,
                ApiErrorResponse::InternalServerError,
            ),
            MethodReply::PayoutTokenUpdated(Ok(attempt)) => {
                &&& steps[i + 1] is Done
                &&& steps[i + 1]->Done_0.payout_data is Some
                &&& steps[i + 1]->Done_0.payout_data->0.payout_attempt == attempt
                &&& steps[i + 1]->Done_0.payout_data->0.payouts == context.payout_data->0.payouts
                &&& steps[i + 1]->Done_0.result == Ok::<
                    Option<PayoutMethodData>,
                    ApiErrorResponse,
                >(context.payout_method_data)
            },
            _ => true,
        },
{
    steps_are_sound(context, replies, steps, i);
    assert(follows(steps[i], replies[i], steps[i + 1]));
}

/// Whether a run ends here with this error and leaves the payout as it was.
pub open spec fn is_failed_with(
    step: MethodStep,
    context: MethodContext,
    error: ApiErrorResponse,
) -> bool {
    &&& step is Done
    &&& step->Done_0.payout_data == context.payout_data
    &&& step->Done_0.result == Err::<Option<PayoutMethodData>, ApiErrorResponse>(error)
}

/// A destination that is handed in for a payout is stored at once where no token
/// or a temporary one came with it, and once the cache has told what its token
/// stands for where another one did; without a payout it is not stored.
pub proof fn destinations_are_stored(
    context: MethodContext,
    replies: Seq<MethodReply>,
    steps: Seq<MethodStep>,
)
    requires
        is_run(context, replies, steps),
        context.payout_method_data is Some,
    ensures
        context.payout_token is None || "temporary_token_"@.is_prefix_of(context.payout_token->0@)
            ==> if context.payout_data is Some {
            steps[0] is Ask && steps[0]->Ask_1 == (MethodRequest::StoreInLocker {
                payout_token: context.payout_token,
                payout_method_data: context.payout_method_data->0,
                owner: Some(context.customer_id),
            })
        } else {
            steps[0] == MethodStep::Done(
                MethodOutcome { payout_data: None, result: Ok(None) },
            )
        },
        context.payout_token is Some && !"temporary_token_"@.is_prefix_of(context.payout_token->0@)
            && replies.len() > 1 && replies[1]->TokenDataParsed_0 is Ok ==> if context.payout_data
            is Some {
            steps[2] is Ask && steps[2]->Ask_1 is StoreInLocker
        } else {
            steps[2] == MethodStep::Done(
                MethodOutcome { payout_data: None, result: Ok(None) },
            )
        },
{
    if replies.len() > 0 {
        assert(follows(steps[0], replies[0], steps[0int + 1]));
    }
    if replies.len() > 1 {
        assert(follows(steps[1], replies[1], steps[1int + 1]));
    }
}

/// The functions that carry out the flow make the steps that its laws speak of.
pub proof fn the_flow_is_carried_out(
    context: MethodContext,
    first: MethodStep,
    state: MethodState,
    reply: MethodReply,
    next: MethodStep,
)
    requires
        call_ensures(
            make_payout_method_data,
            (
                context.payout_method_data,
                context.payout_token,
                context.customer_id,
                context.merchant_id,
                context.payout_type,
                context.payout_data,
            ),
            first,
        ),
        state.awaits(reply),
        call_ensures(resume_make_payout_method_data, (state, reply), next),
    ensures
        is_run(context, Seq::empty(), seq![first]),
        forall|request: MethodRequest| #[trigger]
            follows(MethodStep::Ask(state, request), reply, next),
{
}

} // verus!
