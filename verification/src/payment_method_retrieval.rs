//! Retrieving the method of a payment: as it was handed in, or by a token.
//!
//! The flows ask for one outside operation and are resumed with the reply.

use vstd::prelude::*;
use vstd::pervasive::unreached;

use crate::enums::PaymentMethod;
use crate::errors::ApiErrorResponse;
use crate::payment_method_data::{CardToken, PaymentMethodData, PaymentMethodDataWithId};
use crate::payment_tokens::{CardTokenData, PaymentTokenData};

verus! {

/// Where the flow waits for a reply: the vault keeps this method.
#[derive(Debug, PartialEq, Eq)]
pub struct VaultingMethod {
    pub payment_method_data: PaymentMethodData,
}

/// Asks the vault to keep a method, for the attempt that is under way.
#[derive(Debug, PartialEq, Eq)]
pub struct StoreInVault {
    pub payment_method: PaymentMethod,
    pub payment_method_data: PaymentMethodData,
}

/// What the flow does next. It ends with the method, and with the token under
/// which the vault keeps it where it has one.
#[derive(Debug, PartialEq, Eq)]
pub enum RetrieveStep {
    Ask(VaultingMethod, StoreInVault),
    Done(Result<(Option<PaymentMethodData>, Option<String>), ApiErrorResponse>),
}

/// The first step: a method that the vault keeps goes there, any other is
/// answered as it is. One that stands for another method is not answered.
pub open spec fn retrieve_started(pm_data: Option<PaymentMethodData>) -> RetrieveStep {
    match pm_data {
        None => RetrieveStep::Done(Ok((None, None))),
        Some(payment_method_data) => match payment_method_data.vaulted_as() {
            Some(payment_method) => RetrieveStep::Ask(
                VaultingMethod { payment_method_data },
                StoreInVault { payment_method, payment_method_data },
            ),
            None => if payment_method_data.is_reference() {
                RetrieveStep::Done(Ok((None, None)))
            } else {
                RetrieveStep::Done(Ok((pm_data, None)))
            },
        },
    }
}

/// Starts to retrieve the method of a payment.
pub fn retrieve_payment_method(pm_data: Option<PaymentMethodData>) -> (r: RetrieveStep)
    ensures
        r == retrieve_started(pm_data),
{
    match pm_data {
        None => RetrieveStep::Done(Ok((None, None))),
        Some(payment_method_data) => match payment_method_data.to_vaulted_as() {
            Some(payment_method) => {
                let request = StoreInVault {
                    payment_method,
                    payment_method_data: payment_method_data.clone(),
                };
                RetrieveStep::Ask(VaultingMethod { payment_method_data }, request)
            },
            None => if payment_method_data.refers_elsewhere() {
                RetrieveStep::Done(Ok((None, None)))
            } else {
                RetrieveStep::Done(Ok((Some(payment_method_data), None)))
            },
        },
    }
}

/// Goes on once the vault has replied with the token, where it made one.
pub fn resume_retrieve_payment_method(
    state: VaultingMethod,
    stored: Result<Option<String>, ApiErrorResponse>,
) -> (r: RetrieveStep)
    ensures
        r == RetrieveStep::Done(
            match stored {
                Ok(payment_token) => Ok((Some(state.payment_method_data), payment_token)),
                Err(error) => Err(error),
            },
        ),
{
    match stored {
        Ok(payment_token) => RetrieveStep::Done(
            Ok((Some(state.payment_method_data), payment_token)),
        ),
        Err(error) => RetrieveStep::Done(Err(error)),
    }
}

/// Where the flow waits for a reply.
#[derive(Debug, PartialEq, Eq)]
pub enum TokenState {
    /// For a method, of whatever family.
    RetrievingMethod,
    /// For the card that is this payment method.
    RetrievingCard { payment_method_id: String },
}

/// An outside operation that the flow asks for.
#[derive(Debug, PartialEq, Eq)]
pub enum TokenRequest {
    RetrieveWithTemporaryToken { token: String, card_token_data: Option<CardToken> },
    RetrieveCardWithPermanentToken {
        locker_id: String,
        payment_method_id: String,
        card_token_data: Option<CardToken>,
    },
    /// Ask the service that holds bank accounts.
    RetrieveFromAuthService { auth_token: serde_json::Value },
}

/// The outcome of an outside operation.
#[derive(Debug, PartialEq, Eq)]
pub enum TokenReply {
    MethodRetrieved(Result<Option<(PaymentMethodData, PaymentMethod)>, ApiErrorResponse>),
    CardRetrieved(Result<PaymentMethodData, ApiErrorResponse>),
}

/// What the flow does next.
#[derive(Debug, PartialEq, Eq)]
pub enum TokenStep {
    Ask(TokenState, TokenRequest),
    Done(Result<PaymentMethodDataWithId, ApiErrorResponse>),
}

impl TokenState {
    /// Whether the reply is one to what the flow asked for in this state.
    pub open spec fn awaits(self, reply: TokenReply) -> bool {
        match self {
            TokenState::RetrievingMethod => reply is MethodRetrieved,
            TokenState::RetrievingCard { .. } => reply is CardRetrieved,
        }
    }
}

/// No method of payment.
pub open spec fn nothing_found() -> PaymentMethodDataWithId {
    PaymentMethodDataWithId {
        payment_method: None,
        payment_method_data: None,
        payment_method_id: None,
    }
}

fn find_nothing() -> (r: PaymentMethodDataWithId)
    ensures
        r == nothing_found(),
{
    PaymentMethodDataWithId {
        payment_method: None,
        payment_method_data: None,
        payment_method_id: None,
    }
}

/// The card that a token names is retrieved.
pub open spec fn retrieving_card(
    card_token: CardTokenData,
    card_token_data: Option<CardToken>,
) -> TokenStep {
    TokenStep::Ask(
        TokenState::RetrievingCard { payment_method_id: card_token.method_reference() },
        TokenRequest::RetrieveCardWithPermanentToken {
            locker_id: card_token.locker_reference(),
            payment_method_id: card_token.method_reference(),
            card_token_data,
        },
    )
}

fn retrieve_card(card_token: CardTokenData, card_token_data: Option<CardToken>) -> (r: TokenStep)
    ensures
        r == retrieving_card(card_token, card_token_data),
{
    let request = TokenRequest::RetrieveCardWithPermanentToken {
        locker_id: card_token.to_locker_reference(),
        payment_method_id: card_token.to_method_reference(),
        card_token_data,
    };
    TokenStep::Ask(
        TokenState::RetrievingCard { payment_method_id: card_token.to_method_reference() },
        request,
    )
}

/// The first step: each kind of token has its own place to look. Wallet tokens
/// name nothing that could be retrieved.
pub open spec fn token_started(
    token_data: PaymentTokenData,
    card_token_data: Option<CardToken>,
) -> TokenStep {
    match token_data {
        PaymentTokenData::TemporaryGeneric(generic_token)
        | PaymentTokenData::Temporary(generic_token) => TokenStep::Ask(
            TokenState::RetrievingMethod,
            TokenRequest::RetrieveWithTemporaryToken {
                token: generic_token.token,
                card_token_data,
            },
        ),
        PaymentTokenData::Permanent(card_token)
        | PaymentTokenData::PermanentCard(card_token) => retrieving_card(
            card_token,
            card_token_data,
        ),
        PaymentTokenData::AuthBankDebit(auth_token) => TokenStep::Ask(
            TokenState::RetrievingMethod,
            TokenRequest::RetrieveFromAuthService { auth_token },
        ),
        PaymentTokenData::WalletToken(_) => TokenStep::Done(Ok(nothing_found())),
    }
}

/// Starts to retrieve the method of payment that a token stands for.
pub fn retrieve_payment_method_with_token(
    token_data: PaymentTokenData,
    card_token_data: Option<CardToken>,
) -> (r: TokenStep)
    ensures
        r == token_started(token_data, card_token_data),
{
    match token_data {
        PaymentTokenData::TemporaryGeneric(generic_token)
        | PaymentTokenData::Temporary(generic_token) => TokenStep::Ask(
            TokenState::RetrievingMethod,
            TokenRequest::RetrieveWithTemporaryToken {
                token: generic_token.token,
                card_token_data,
            },
        ),
        PaymentTokenData::Permanent(card_token)
        | PaymentTokenData::PermanentCard(card_token) => retrieve_card(card_token, card_token_data),
        PaymentTokenData::AuthBankDebit(auth_token) => TokenStep::Ask(
            TokenState::RetrievingMethod,
            TokenRequest::RetrieveFromAuthService { auth_token },
        ),
        PaymentTokenData::WalletToken(_) => TokenStep::Done(Ok(find_nothing())),
    }
}

/// What the flow does in `state` on `reply`.
pub open spec fn token_resumed(state: TokenState, reply: TokenReply, r: TokenStep) -> bool {
    match (state, reply) {
        (TokenState::RetrievingMethod, TokenReply::MethodRetrieved(retrieved)) => r
            == TokenStep::Done(
            match retrieved {
                Err(error) => Err(error),
                Ok(None) => Ok(nothing_found()),
                Ok(Some((data, method))) => Ok(
                    PaymentMethodDataWithId {
                        payment_method: Some(method),
                        payment_method_data: Some(data),
                        payment_method_id: None,
                    },
                ),
            },
        ),
        (TokenState::RetrievingCard { payment_method_id }, TokenReply::CardRetrieved(retrieved)) =>
            r == TokenStep::Done(
                match retrieved {
                    Err(error) => Err(error),
                    Ok(card) => Ok(
                        PaymentMethodDataWithId {
                            payment_method: Some(PaymentMethod::Card),
                            payment_method_data: Some(card),
                            payment_method_id: Some(payment_method_id),
                        },
                    ),
                },
            ),
        _ => false,
    }
}

/// Goes on with the flow once the reply to what it asked for is there.
pub fn resume_retrieve_payment_method_with_token(state: TokenState, reply: TokenReply) -> (r:
    TokenStep)
    requires
        state.awaits(reply),
    ensures
        token_resumed(state, reply, r),
{
    match (state, reply) {
        (TokenState::RetrievingMethod, TokenReply::MethodRetrieved(retrieved)) => match retrieved {
            Err(error) => TokenStep::Done(Err(error)),
            Ok(None) => TokenStep::Done(Ok(find_nothing())),
            Ok(Some((data, method))) => TokenStep::Done(
                Ok(
                    PaymentMethodDataWithId {
                        payment_method: Some(method),
                        payment_method_data: Some(data),
                        payment_method_id: None,
                    },
                ),
            ),
        },
        (TokenState::RetrievingCard { payment_method_id }, TokenReply::CardRetrieved(retrieved)) =>
            match retrieved {
                Err(error) => TokenStep::Done(Err(error)),
                Ok(card) => TokenStep::Done(
                    Ok(
                        PaymentMethodDataWithId {
                            payment_method: Some(PaymentMethod::Card),
                            payment_method_data: Some(card),
                            payment_method_id: Some(payment_method_id),
                        },
                    ),
                ),
            },
        _ => unreached(),
    }
}

/// Whether the flow ends with this result: at once, or on this reply to its one
/// request.
pub open spec fn token_run_ends(
    token_data: PaymentTokenData,
    card_token_data: Option<CardToken>,
    reply: TokenReply,
    result: Result<PaymentMethodDataWithId, ApiErrorResponse>,
) -> bool {
    match token_started(token_data, card_token_data) {
        TokenStep::Done(ended) => ended == result,
        TokenStep::Ask(state, _) => state.awaits(reply) && token_resumed(
            state,
            reply,
            TokenStep::Done(result),
        ),
    }
}

/// What is found through a token has an identifier exactly where the token
/// names a stored card, and its data and its family are known together.
pub proof fn only_stored_cards_have_an_identifier(
    token_data: PaymentTokenData,
    card_token_data: Option<CardToken>,
    reply: TokenReply,
    found: PaymentMethodDataWithId,
)
    requires
        token_run_ends(token_data, card_token_data, reply, Ok(found)),
    ensures
        found.payment_method is Some <==> found.payment_method_data is Some,
        found.payment_method_id is Some <==> token_data is Permanent || token_data is PermanentCard,
        token_data matches PaymentTokenData::Permanent(card) ==> found.payment_method_id == Some(
            card.method_reference(),
        ) && found.payment_method == Some(PaymentMethod::Card),
        token_data matches PaymentTokenData::PermanentCard(card) ==> found.payment_method_id
            == Some(card.method_reference()) && found.payment_method == Some(PaymentMethod::Card),
        token_data is WalletToken ==> found == nothing_found(),
{
}

/// A method that was retrieved is the one that was handed in, and it has a token
/// only where the vault made one for it.
pub proof fn retrieved_methods_are_those_handed_in(
    pm_data: Option<PaymentMethodData>,
)
    ensures
        match retrieve_started(pm_data) {
            RetrieveStep::Done(result) => {
                &&& result is Ok
                &&& result->Ok_0.1 is None
                &&& result->Ok_0.0 == pm_data || (result->Ok_0.0 is None && pm_data is Some
                    && pm_data->0.is_reference())
            },
            RetrieveStep::Ask(state, request) => {
                &&& pm_data == Some(state.payment_method_data)
                &&& request.payment_method_data == state.payment_method_data
                &&& Some(request.payment_method) == state.payment_method_data.vaulted_as()
            },
        },
{
}

/// Whatever a temporary or a permanent token leads to is asked for with the card
/// token data that the flow was started with, and by what the token holds: its
/// own text, or the names of the stored card, where it has them.
pub proof fn tokens_lead_to_their_method(
    token_data: PaymentTokenData,
    card_token_data: Option<CardToken>,
    first: TokenStep,
)
    requires
        call_ensures(retrieve_payment_method_with_token, (token_data, card_token_data), first),
    ensures
        token_data matches PaymentTokenData::TemporaryGeneric(generic) ==> first is Ask
            && first->Ask_1 == (TokenRequest::RetrieveWithTemporaryToken {
            token: generic.token,
            card_token_data,
        }),
        token_data matches PaymentTokenData::Temporary(generic) ==> first is Ask && first->Ask_1
            == (TokenRequest::RetrieveWithTemporaryToken {
            token: generic.token,
            card_token_data,
        }),
        token_data matches PaymentTokenData::Permanent(card) ==> first is Ask && first->Ask_1
            == (TokenRequest::RetrieveCardWithPermanentToken {
            locker_id: match card.locker_id {
                Some(name) => name,
                None => card.token,
            },
            payment_method_id: match card.payment_method_id {
                Some(name) => name,
                None => card.token,
            },
            card_token_data,
        }),
        token_data matches PaymentTokenData::PermanentCard(card) ==> first is Ask && first->Ask_1
            == (TokenRequest::RetrieveCardWithPermanentToken {
            locker_id: match card.locker_id {
                Some(name) => name,
                None => card.token,
            },
            payment_method_id: match card.payment_method_id {
                Some(name) => name,
                None => card.token,
            },
            card_token_data,
        }),
        token_data matches PaymentTokenData::AuthBankDebit(auth_token) ==> first is Ask
            && first->Ask_1 == (TokenRequest::RetrieveFromAuthService { auth_token }),
        token_data is WalletToken ==> first == TokenStep::Done(
            Ok(
                PaymentMethodDataWithId {
                    payment_method: None,
                    payment_method_data: None,
                    payment_method_id: None,
                },
            ),
        ),
{
}

/// Two runs that were started with the same token and with different card token
/// data ask for the same but for these, which each hands on as it got them.
pub proof fn only_the_card_token_data_differ(
    token_data: PaymentTokenData,
    card_token_data: Option<CardToken>,
    other_data: Option<CardToken>,
    first: TokenStep,
    other_first: TokenStep,
)
    requires
        call_ensures(retrieve_payment_method_with_token, (token_data, card_token_data), first),
        call_ensures(retrieve_payment_method_with_token, (token_data, other_data), other_first),
    ensures
        first is Done ==> first == other_first,
        first is Ask ==> other_first is Ask && first->Ask_0 == other_first->Ask_0,
        first is Ask ==> match (first->Ask_1, other_first->Ask_1) {
            (
                TokenRequest::RetrieveWithTemporaryToken { token, card_token_data: data },
                TokenRequest::RetrieveWithTemporaryToken {
                    token: other_token,
                    card_token_data: asked_data,
                },
            ) => token == other_token && data == card_token_data && asked_data == other_data,
            (
                TokenRequest::RetrieveCardWithPermanentToken {
                    locker_id,
                    payment_method_id,
                    card_token_data: data,
                },
                TokenRequest::RetrieveCardWithPermanentToken {
                    locker_id: other_locker_id,
                    payment_method_id: other_id,
                    card_token_data: asked_data,
                },
            ) => {
                &&& locker_id == other_locker_id
                &&& payment_method_id == other_id
                &&& data == card_token_data
                &&& asked_data == other_data
            },
            (
                TokenRequest::RetrieveFromAuthService { auth_token },
                TokenRequest::RetrieveFromAuthService { auth_token: other_token },
            ) => auth_token == other_token,
            _ => false,
        },
{
}

/// What a token leads to is what was found: a method with its family and no
/// identifier, or a card with the identifier that it was asked for under. An
/// error is passed on.
pub proof fn what_was_found_is_told(
    token_data: PaymentTokenData,
    card_token_data: Option<CardToken>,
    first: TokenStep,
    reply: TokenReply,
    next: TokenStep,
)
    requires
        call_ensures(retrieve_payment_method_with_token, (token_data, card_token_data), first),
        first is Ask,
        first->Ask_0.awaits(reply),
        call_ensures(resume_retrieve_payment_method_with_token, (first->Ask_0, reply), next),
    ensures
        first->Ask_1 is RetrieveCardWithPermanentToken <==> reply is CardRetrieved,
        next is Done,
        match reply {
            TokenReply::MethodRetrieved(Err(error)) => next->Done_0 == Err::<
                PaymentMethodDataWithId,
                ApiErrorResponse,
            >(error),
            TokenReply::MethodRetrieved(Ok(None)) => next->Done_0 is Ok && {
                let found = next->Done_0->Ok_0;
                &&& found.payment_method is None
                &&& found.payment_method_data is None
                &&& found.payment_method_id is None
            },
            TokenReply::MethodRetrieved(Ok(Some((data, method)))) => next->Done_0 is Ok && {
                let found = next->Done_0->Ok_0;
                &&& found.payment_method == Some(method)
                &&& found.payment_method_data == Some(data)
                &&& found.payment_method_id is None
            },
            TokenReply::CardRetrieved(Err(error)) => next->Done_0 == Err::<
                PaymentMethodDataWithId,
                ApiErrorResponse,
            >(error),
            TokenReply::CardRetrieved(Ok(card)) => next->Done_0 is Ok && {
                let found = next->Done_0->Ok_0;
                &&& found.payment_method == Some(PaymentMethod::Card)
                &&& found.payment_method_data == Some(card)
                &&& found.payment_method_id == Some(
                    first->Ask_1->RetrieveCardWithPermanentToken_payment_method_id,
                )
            },
        },
{
}

/// Cards, bank debits and the other methods that the vault keeps go there under
/// their family; what the vault keeps comes back with the token that it made.
pub proof fn vaulted_methods_come_back(
    pm_data: Option<PaymentMethodData>,
    first: RetrieveStep,
    stored: Result<Option<String>, ApiErrorResponse>,
    next: RetrieveStep,
)
    requires
        call_ensures(retrieve_payment_method, (pm_data,), first),
        first is Ask,
        call_ensures(resume_retrieve_payment_method, (first->Ask_0, stored), next),
    ensures
        pm_data is Some,
        first->Ask_1.payment_method_data == pm_data->0,
        next is Done,
        stored matches Ok(token) ==> next->Done_0 == Ok::<
            (Option<PaymentMethodData>, Option<String>),
            ApiErrorResponse,
        >((pm_data, token)),
        stored matches Err(error) ==> next->Done_0 == Err::<
            (Option<PaymentMethodData>, Option<String>),
            ApiErrorResponse,
        >(error),
{
}

/// The vault is asked to keep cards, bank transfers, wallets and bank redirects,
/// each under its own family. What stands for another method is answered with
/// nothing, and any other method with itself, without a token.
pub proof fn methods_are_vaulted_by_their_family(
    pm_data: Option<PaymentMethodData>,
    first: RetrieveStep,
)
    requires
        call_ensures(retrieve_payment_method, (pm_data,), first),
    ensures
        pm_data is None ==> first == RetrieveStep::Done(Ok((None, None))),
        pm_data matches Some(data) ==> match data {
            PaymentMethodData::Card(_) => asks_for(first, data, PaymentMethod::Card),
            PaymentMethodData::BankTransfer(_) => asks_for(
                first,
                data,
                PaymentMethod::BankTransfer,
            ),
            PaymentMethodData::Wallet(_) => asks_for(first, data, PaymentMethod::Wallet),
            PaymentMethodData::BankRedirect(_) => asks_for(
                first,
                data,
                PaymentMethod::BankRedirect,
            ),
            PaymentMethodData::MandatePayment => first == RetrieveStep::Done(Ok((None, None))),
            PaymentMethodData::CardToken(_) => first == RetrieveStep::Done(Ok((None, None))),
            _ => first == RetrieveStep::Done(Ok((pm_data, None))),
        },
{
}

/// Whether the step asks the vault to keep this method under this family, and
/// waits for it.
pub open spec fn asks_for(
    step: RetrieveStep,
    data: PaymentMethodData,
    family: PaymentMethod,
) -> bool {
    &&& step is Ask
    &&& step->Ask_0.payment_method_data == data
    &&& step->Ask_1.payment_method_data == data
    &&& step->Ask_1.payment_method == family
}

} // verus!
