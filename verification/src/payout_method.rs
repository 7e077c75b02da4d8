//! Finding out where a payout goes: from the destination that was handed in, or
//! from a token for one that is kept.
//!
//! The flow asks for one outside operation at a time and is resumed with the
//! reply, until it is done.

use vstd::prelude::*;
use vstd::pervasive::unreached;

use crate::enums::{PaymentMethod, PayoutType};
use crate::errors::{ApiErrorResponse, OperationFailed, StorageError};
use crate::locker::Card;
use crate::payment_tokens::PaymentTokenData;
use crate::payout_types::{
    CardPayout, CustomerId, MerchantId, PayoutAttempt, PayoutData, PayoutMethodData, Payouts,
};
use crate::text::{same_text, starts_with};

verus! {

/// How the tokens begin that are valid for a short time only.
pub const TEMPORARY_TOKEN_PREFIX: &'static str = "temporary_token_";

/// What the flow was started with.
#[derive(Debug, PartialEq, Eq)]
pub struct MethodContext {
    pub payout_method_data: Option<PayoutMethodData>,
    pub payout_token: Option<String>,
    pub customer_id: CustomerId,
    pub merchant_id: MerchantId,
    pub payout_type: Option<PayoutType>,
    pub payout_data: Option<PayoutData>,
}

/// Where the flow waits for a reply.
#[derive(Debug, PartialEq, Eq)]
pub enum MethodState {
    FetchingToken { context: MethodContext, payout_token: String },
    ParsingToken { context: MethodContext, payout_token: String },
    FetchingFromTemporaryLocker { context: MethodContext },
    FetchingCard { context: MethodContext },
    Storing {
        payout_data: PayoutData,
        payout_method_data: PayoutMethodData,
        /// Whether the destination is kept under a token that is known already.
        token_is_known: bool,
    },
    UpdatingAttempt { payout_data: PayoutData, payout_method_data: PayoutMethodData },
}

/// An outside operation that the flow asks for.
#[derive(Debug, PartialEq, Eq)]
pub enum MethodRequest {
    /// Read a key of the cache.
    GetCachedToken { key: String },
    /// Read the text as the JSON of what a token stands for.
    ParseTokenData { text: String },
    GetFromTemporaryLocker { lookup_key: String },
    GetCardFromLocker { customer_id: CustomerId, merchant_id: MerchantId, card_reference: String },
    /// Keep the destination, under the token where there is one.
    StoreInLocker {
        payout_token: Option<String>,
        payout_method_data: PayoutMethodData,
        owner: Option<CustomerId>,
    },
    UpdatePayoutToken { payout_attempt: PayoutAttempt, new_token: String, payouts: Payouts },
}

/// The outcome of an outside operation.
#[derive(Debug, PartialEq, Eq)]
pub enum MethodReply {
    CachedTokenRead(Result<Option<String>, OperationFailed>),
    TokenDataParsed(Result<PaymentTokenData, OperationFailed>),
    /// The destination, and the customer it belongs to.
    FoundInTemporaryLocker(
        Result<(Option<PayoutMethodData>, Option<CustomerId>), ApiErrorResponse>,
    ),
    CardFound(Result<Card, ApiErrorResponse>),
    /// The key under which the destination is kept.
    StoredInLocker(Result<String, ApiErrorResponse>),
    PayoutTokenUpdated(Result<PayoutAttempt, StorageError>),
}

/// How the flow ended, and the payout as it is then.
#[derive(Debug, PartialEq, Eq)]
pub struct MethodOutcome {
    pub payout_data: Option<PayoutData>,
    pub result: Result<Option<PayoutMethodData>, ApiErrorResponse>,
}

/// What the flow does next.
#[derive(Debug, PartialEq, Eq)]
pub enum MethodStep {
    Ask(MethodState, MethodRequest),
    Done(MethodOutcome),
}

impl MethodState {
    /// Whether the reply is one to what the flow asked for in this state.
    pub open spec fn awaits(self, reply: MethodReply) -> bool {
        match self {
            MethodState::FetchingToken { .. } => reply is CachedTokenRead,
            MethodState::ParsingToken { .. } => reply is TokenDataParsed,
            MethodState::FetchingFromTemporaryLocker { .. } => reply is FoundInTemporaryLocker,
            MethodState::FetchingCard { .. } => reply is CardFound,
            MethodState::Storing { .. } => reply is StoredInLocker,
            MethodState::UpdatingAttempt { .. } => reply is PayoutTokenUpdated,
        }
    }
}

/// The flow ends, and the payout stays as it was.
pub open spec fn ended(
    context: MethodContext,
    result: Result<Option<PayoutMethodData>, ApiErrorResponse>,
) -> MethodStep {
    MethodStep::Done(MethodOutcome { payout_data: context.payout_data, result })
}

fn end(
    context: MethodContext,
    result: Result<Option<PayoutMethodData>, ApiErrorResponse>,
) -> (r: MethodStep)
    ensures
        r == ended(context, result),
{
    MethodStep::Done(MethodOutcome { payout_data: context.payout_data, result })
}

/// Whether a token is valid for a short time only.
pub open spec fn is_temporary(token: Seq<char>) -> bool {
    TEMPORARY_TOKEN_PREFIX@.is_prefix_of(token)
}

/// Whether a destination under this token is looked for in the temporary
/// locker. Bank accounts are kept nowhere else.
pub open spec fn is_in_temporary_locker(token: Seq<char>, payout_type: Option<PayoutType>) -> bool {
    is_temporary(token) || payout_type == Some(PayoutType::Bank)
}

/// What the flow does once it knows the token under which the destination is
/// kept, where there is one.
pub open spec fn dispatched(context: MethodContext, token: Option<String>) -> MethodStep {
    match (context.payout_method_data, token, context.payout_data) {
        (None, Some(token), _) => if is_in_temporary_locker(token@, context.payout_type) {
            MethodStep::Ask(
                MethodState::FetchingFromTemporaryLocker { context },
                MethodRequest::GetFromTemporaryLocker { lookup_key: token },
            )
        } else {
            MethodStep::Ask(
                MethodState::FetchingCard { context },
                MethodRequest::GetCardFromLocker {
                    customer_id: context.customer_id,
                    merchant_id: context.merchant_id,
                    card_reference: token,
                },
            )
        },
        (Some(payout_method_data), token, Some(payout_data)) => MethodStep::Ask(
            MethodState::Storing { payout_data, payout_method_data, token_is_known: token is Some },
            MethodRequest::StoreInLocker {
                payout_token: token,
                payout_method_data,
                owner: Some(context.customer_id),
            },
        ),
        _ => ended(context, Ok(None)),
    }
}

fn dispatch(context: MethodContext, token: Option<String>) -> (r: MethodStep)
    ensures
        r == dispatched(context, token),
{
    match (context.payout_method_data, token, context.payout_data) {
        (None, Some(token), payout_data) => {
            let in_temporary_locker = starts_with(token.as_str(), TEMPORARY_TOKEN_PREFIX)
                || (match context.payout_type {
                Some(PayoutType::Bank) => true,
                _ => false,
            });
            let context = MethodContext {
                payout_method_data: None,
                payout_token: context.payout_token,
                customer_id: context.customer_id,
                merchant_id: context.merchant_id,
                payout_type: context.payout_type,
                payout_data,
            };
            if in_temporary_locker {
                MethodStep::Ask(
                    MethodState::FetchingFromTemporaryLocker { context },
                    MethodRequest::GetFromTemporaryLocker { lookup_key: token },
                )
            } else {
                let request = MethodRequest::GetCardFromLocker {
                    customer_id: context.customer_id.clone(),
                    merchant_id: context.merchant_id.clone(),
                    card_reference: token,
                };
                MethodStep::Ask(MethodState::FetchingCard { context }, request)
            }
        },
        (Some(payout_method_data), token, Some(payout_data)) => {
            let token_is_known = token.is_some();
            let request = MethodRequest::StoreInLocker {
                payout_token: token,
                payout_method_data: payout_method_data.clone(),
                owner: Some(context.customer_id),
            };
            MethodStep::Ask(
                MethodState::Storing { payout_data, payout_method_data, token_is_known },
                request,
            )
        },
        (_, _, payout_data) => MethodStep::Done(MethodOutcome { payout_data, result: Ok(None) }),
    }
}

/// The key of the cache that tells what a token stands for.
pub open spec fn token_key(payout_token: Seq<char>, payment_method: PaymentMethod) -> Seq<char> {
    "pm_token_"@ + payout_token + "_"@ + payment_method.text() + "_hyperswitch"@
}

fn make_token_key(payout_token: &str, payment_method: PaymentMethod) -> (r: String)
    ensures
        r@ == token_key(payout_token@, payment_method),
{
    let mut key = "pm_token_".to_owned();
    key.append(payout_token);
    key.append("_");
    key.append(payment_method.as_str());
    key.append("_hyperswitch");
    key
}

/// Whether the step is the first one: a token that is not temporary is looked
/// up in the cache, which takes the type of the payout.
pub open spec fn is_method_started(r: MethodStep, context: MethodContext) -> bool {
    match context.payout_token {
        Some(payout_token) if !is_temporary(payout_token@) => match context.payout_type {
            None => r == ended(
                context,
                Err(ApiErrorResponse::MissingRequiredField { field_name: "payout_type" }),
            ),
            Some(payout_type) => {
                r matches MethodStep::Ask(state, MethodRequest::GetCachedToken { key }) && {
                    &&& state == MethodState::FetchingToken { context, payout_token }
                    &&& key@ == token_key(payout_token@, PaymentMethod::of_payout_type(payout_type))
                }
            },
        },
        token => r == dispatched(context, token),
    }
}

/// Starts to find out where a payout goes.
pub fn make_payout_method_data(
    payout_method_data: Option<PayoutMethodData>,
    payout_token: Option<String>,
    customer_id: CustomerId,
    merchant_id: MerchantId,
    payout_type: Option<PayoutType>,
    payout_data: Option<PayoutData>,
) -> (r: MethodStep)
    ensures
        is_method_started(
            r,
            MethodContext {
                payout_method_data,
                payout_token,
                customer_id,
                merchant_id,
                payout_type,
                payout_data,
            },
        ),
{
    let token = payout_token.clone();
    let context = MethodContext {
        payout_method_data,
        payout_token,
        customer_id,
        merchant_id,
        payout_type,
        payout_data,
    };
    match token {
        Some(payout_token) => if starts_with(payout_token.as_str(), TEMPORARY_TOKEN_PREFIX) {
            dispatch(context, Some(payout_token))
        } else {
            match context.payout_type {
                None => end(
                    context,
                    Err(ApiErrorResponse::MissingRequiredField { field_name: "payout_type" }),
                ),
                Some(payout_type) => {
                    let payment_method = PaymentMethod::from_payout_type(payout_type);
                    let key = make_token_key(payout_token.as_str(), payment_method);
                    MethodStep::Ask(
                        MethodState::FetchingToken { context, payout_token },
                        MethodRequest::GetCachedToken { key },
                    )
                },
            }
        },
        None => dispatch(context, None),
    }
}

/// The token that a cached one stands for. A cached token that names neither a
/// stored card nor data of any kind stands for itself.
pub open spec fn resolved_token(data: PaymentTokenData, payout_token: String) -> String {
    match data {
        PaymentTokenData::PermanentCard(card) => card.locker_reference(),
        PaymentTokenData::TemporaryGeneric(generic) => generic.token,
        _ => payout_token,
    }
}

fn resolve_token(data: PaymentTokenData, payout_token: String) -> (r: String)
    ensures
        r == resolved_token(data, payout_token),
{
    match data {
        PaymentTokenData::PermanentCard(card) => card.to_locker_reference(),
        PaymentTokenData::TemporaryGeneric(generic) => generic.token,
        _ => payout_token,
    }
}

/// Whether the destination belongs to the customer.
pub open spec fn belongs_to(owner: Option<CustomerId>, customer_id: CustomerId) -> bool {
    owner matches Some(owner) && owner@ == customer_id@
}

/// Whether the step ends the flow with a failed precondition, told in this text.
pub open spec fn is_refused_with(r: MethodStep, context: MethodContext, message: Seq<char>) -> bool {
    &&& r matches MethodStep::Done(outcome)
    &&& outcome.payout_data == context.payout_data
    &&& outcome.result matches Err(ApiErrorResponse::PreconditionFailed { message: text })
    &&& text@ == message
}

/// Whether the step ends the flow since the token is unknown.
pub open spec fn is_expired_token(r: MethodStep, context: MethodContext) -> bool {
    &&& r matches MethodStep::Done(outcome)
    &&& outcome.payout_data == context.payout_data
    &&& outcome.result matches Err(ApiErrorResponse::UnprocessableEntity { message })
    &&& message@ == "Token is invalid or expired"@
}

/// The card in the form in which payouts go to it.
pub open spec fn payout_card(card: Card) -> CardPayout {
    CardPayout {
        card_number: card.card_number,
        expiry_month: card.card_exp_month,
        expiry_year: card.card_exp_year,
        card_holder_name: card.name_on_card,
    }
}

/// The flow ended with the destination that was handed in.
pub open spec fn kept(
    payout_data: PayoutData,
    payout_method_data: PayoutMethodData,
) -> MethodStep {
    MethodStep::Done(
        MethodOutcome {
            payout_data: Some(payout_data),
            result: Ok(Some(payout_method_data)),
        },
    )
}

/// What the flow does in `state` on `reply`.
pub open spec fn method_resumed(state: MethodState, reply: MethodReply, r: MethodStep) -> bool {
    match (state, reply) {
        (
            MethodState::FetchingToken { context, payout_token },
            MethodReply::CachedTokenRead(read),
        ) => match read {
            Err(_) => r == ended(context, Err(ApiErrorResponse::InternalServerError)),
            Ok(None) => is_expired_token(r, context),
            Ok(Some(text)) => r == MethodStep::Ask(
                MethodState::ParsingToken { context, payout_token },
                MethodRequest::ParseTokenData { text },
            ),
        },
        (
            MethodState::ParsingToken { context, payout_token },
            MethodReply::TokenDataParsed(parsed),
        ) => r == (match parsed {
            Err(_) => ended(context, Err(ApiErrorResponse::InternalServerError)),
            Ok(data) => dispatched(context, Some(resolved_token(data, payout_token))),
        }),
        (
            MethodState::FetchingFromTemporaryLocker { context },
            MethodReply::FoundInTemporaryLocker(found),
        ) => match found {
            Err(error) => r == ended(context, Err(error)),
            Ok((payout_method_data, owner)) => if belongs_to(owner, context.customer_id) {
                r == ended(context, Ok(payout_method_data))
            } else {
                is_refused_with(
                    r,
                    context,
                    "customer associated with payout method and customer passed in payout are not same"@,
                )
            },
        },
        (MethodState::FetchingCard { context }, MethodReply::CardFound(found)) => r == (
        match found {
            Err(error) => ended(context, Err(error)),
            Ok(card) => ended(context, Ok(Some(PayoutMethodData::Card(payout_card(card))))),
        }),
        (
            MethodState::Storing { payout_data, payout_method_data, token_is_known },
            MethodReply::StoredInLocker(stored),
        ) => r == (match stored {
            Err(error) => MethodStep::Done(
                MethodOutcome { payout_data: Some(payout_data), result: Err(error) },
            ),
            Ok(lookup_key) => if token_is_known {
                kept(payout_data, payout_method_data)
            } else {
                MethodStep::Ask(
                    MethodState::UpdatingAttempt { payout_data, payout_method_data },
                    MethodRequest::UpdatePayoutToken {
                        payout_attempt: payout_data.payout_attempt,
                        new_token: lookup_key,
                        payouts: payout_data.payouts,
                    },
                )
            },
        }),
        (
            MethodState::UpdatingAttempt { payout_data, payout_method_data },
            MethodReply::PayoutTokenUpdated(updated),
        ) => r == (match updated {
            Err(_) => MethodStep::Done(
                MethodOutcome {
                    payout_data: Some(payout_data),
                    result: Err(ApiErrorResponse::InternalServerError),
                },
            ),
            Ok(payout_attempt) => kept(
                PayoutData { payout_attempt, payouts: payout_data.payouts },
                payout_method_data,
            ),
        }),
        _ => false,
    }
}

/// Goes on with the flow once the reply to what it asked for is there.
pub fn resume_make_payout_method_data(state: MethodState, reply: MethodReply) -> (r: MethodStep)
    requires
        state.awaits(reply),
    ensures
        method_resumed(state, reply, r),
{
    match (state, reply) {
        (
            MethodState::FetchingToken { context, payout_token },
            MethodReply::CachedTokenRead(read),
        ) => match read {
            Err(_) => end(context, Err(ApiErrorResponse::InternalServerError)),
            Ok(None) => end(
                context,
                Err(
                    ApiErrorResponse::UnprocessableEntity {
                        message: "Token is invalid or expired".to_owned(),
                    },
                ),
            ),
            Ok(Some(text)) => MethodStep::Ask(
                MethodState::ParsingToken { context, payout_token },
                MethodRequest::ParseTokenData { text },
            ),
        },
        (
            MethodState::ParsingToken { context, payout_token },
            MethodReply::TokenDataParsed(parsed),
        ) => match parsed {
            Err(_) => end(context, Err(ApiErrorResponse::InternalServerError)),
            Ok(data) => dispatch(context, Some(resolve_token(data, payout_token))),
        },
        (
            MethodState::FetchingFromTemporaryLocker { context },
            MethodReply::FoundInTemporaryLocker(found),
        ) => match found {
            Err(error) => end(context, Err(error)),
            Ok((payout_method_data, owner)) => {
                let is_owner = match &owner {
                    Some(owner) => same_text(owner.as_str(), context.customer_id.as_str()),
                    None => false,
                };
                if is_owner {
                    end(context, Ok(payout_method_data))
                } else {
                    end(
                        context,
                        Err(
                            ApiErrorResponse::PreconditionFailed {
                                message: "customer associated with payout method and customer passed in payout are not same".to_owned(),
                            },
                        ),
                    )
                }
            },
        },
        (MethodState::FetchingCard { context }, MethodReply::CardFound(found)) => match found {
            Err(error) => end(context, Err(error)),
            Ok(card) => end(
                context,
                Ok(
                    Some(
                        PayoutMethodData::Card(
                            CardPayout {
                                card_number: card.card_number,
                                expiry_month: card.card_exp_month,
                                expiry_year: card.card_exp_year,
                                card_holder_name: card.name_on_card,
                            },
                        ),
                    ),
                ),
            ),
        },
        (
            MethodState::Storing { payout_data, payout_method_data, token_is_known },
            MethodReply::StoredInLocker(stored),
        ) => match stored {
            Err(error) => MethodStep::Done(
                MethodOutcome { payout_data: Some(payout_data), result: Err(error) },
            ),
            Ok(lookup_key) => if token_is_known {
                MethodStep::Done(
                    MethodOutcome {
                        payout_data: Some(payout_data),
                        result: Ok(Some(payout_method_data)),
                    },
                )
            } else {
                let request = MethodRequest::UpdatePayoutToken {
                    payout_attempt: payout_data.payout_attempt.clone(),
                    new_token: lookup_key,
                    payouts: payout_data.payouts.clone(),
                };
                MethodStep::Ask(
                    MethodState::UpdatingAttempt { payout_data, payout_method_data },
                    request,
                )
            },
        },
        (
            MethodState::UpdatingAttempt { payout_data, payout_method_data },
            MethodReply::PayoutTokenUpdated(updated),
        ) => match updated {
            Err(_) => MethodStep::Done(
                MethodOutcome {
                    payout_data: Some(payout_data),
                    result: Err(ApiErrorResponse::InternalServerError),
                },
            ),
            Ok(payout_attempt) => MethodStep::Done(
                MethodOutcome {
                    payout_data: Some(PayoutData { payout_attempt, payouts: payout_data.payouts }),
                    result: Ok(Some(payout_method_data)),
                },
            ),
        },
        _ => unreached(),
    }
}

} // verus!
