use router_core::enums::{PayoutEntityType, PayoutStatus, PayoutType};
use router_core::errors::{ApiErrorResponse, OperationFailed, StorageError};
use router_core::locker::Card;
use router_core::payment_tokens::{CardTokenData, GenericTokenData, PaymentTokenData};
use router_core::payout_method::{
    make_payout_method_data, resume_make_payout_method_data, MethodReply, MethodRequest,
    MethodState, MethodStep,
};
use router_core::payout_types::{
    Bank, CardNumber, CardPayout, MinorUnit, PayoutAttempt, PayoutData, PayoutMethodData, Payouts,
};

fn text(t: &str) -> String {
    t.to_string()
}

fn payout() -> PayoutData {
    PayoutData {
        payout_attempt: PayoutAttempt {
            payout_attempt_id: text("payout_1_1"),
            payout_id: text("payout_1"),
            customer_id: text("cus_1"),
            profile_id: text("pro_1"),
            connector: None,
            merchant_connector_id: None,
            payout_token: None,
            status: PayoutStatus::RequiresCreation,
            business_country: None,
            business_label: None,
        },
        payouts: Payouts {
            payout_id: text("payout_1"),
            payout_method_id: None,
            amount: MinorUnit { value: 100 },
            destination_currency: text("EUR"),
            source_currency: text("EUR"),
            description: None,
            recurring: false,
            auto_fulfill: false,
            return_url: None,
            entity_type: PayoutEntityType::Individual,
            metadata: None,
            payout_type: Some(PayoutType::Card),
        },
    }
}

fn card() -> PayoutMethodData {
    PayoutMethodData::Card(CardPayout {
        card_number: CardNumber { digits: text("4242424242424242") },
        expiry_month: text("10"),
        expiry_year: text("30"),
        card_holder_name: Some(text("Jo")),
    })
}

fn start(
    method: Option<PayoutMethodData>,
    token: Option<&str>,
    payout_type: Option<PayoutType>,
    data: Option<PayoutData>,
) -> MethodStep {
    make_payout_method_data(
        method,
        token.map(text),
        text("cus_1"),
        text("mer_1"),
        payout_type,
        data,
    )
}

fn asked(step: MethodStep) -> (MethodState, MethodRequest) {
    match step {
        MethodStep::Ask(state, request) => (state, request),
        MethodStep::Done(outcome) => panic!("ended with {:?}", outcome),
    }
}

fn ended(step: MethodStep) -> Result<Option<PayoutMethodData>, ApiErrorResponse> {
    match step {
        MethodStep::Done(outcome) => outcome.result,
        MethodStep::Ask(_, request) => panic!("asked for {:?}", request),
    }
}

fn resolve(data: PaymentTokenData, payout_type: PayoutType) -> MethodRequest {
    let (state, request) = asked(start(None, Some("tok"), Some(payout_type), None));
    assert!(matches!(request, MethodRequest::GetCachedToken { .. }));
    let (state, request) = asked(resume_make_payout_method_data(
        state,
        MethodReply::CachedTokenRead(Ok(Some(text("{}")))),
    ));
    assert_eq!(request, MethodRequest::ParseTokenData { text: text("{}") });
    asked(resume_make_payout_method_data(state, MethodReply::TokenDataParsed(Ok(data)))).1
}

#[test]
fn nothing_handed_in_finds_nothing() {
    assert_eq!(ended(start(None, None, None, Some(payout()))), Ok(None));
    assert_eq!(ended(start(Some(card()), None, None, None)), Ok(None));
}

#[test]
fn cached_tokens_take_the_payout_type() {
    assert_eq!(
        ended(start(None, Some("tok"), None, None)),
        Err(ApiErrorResponse::MissingRequiredField { field_name: "payout_type" })
    );
}

#[test]
fn cached_tokens_are_looked_up_by_their_key() {
    let (_, request) = asked(start(None, Some("tok"), Some(PayoutType::Bank), None));
    assert_eq!(
        request,
        MethodRequest::GetCachedToken { key: text("pm_token_tok_bank_transfer_hyperswitch") }
    );
}

#[test]
fn cache_keys_differ_by_token_and_type() {
    let mut keys: Vec<String> = Vec::new();
    for token in ["a", "b", "a_card"] {
        for payout_type in [PayoutType::Card, PayoutType::Bank, PayoutType::Wallet] {
            match asked(start(None, Some(token), Some(payout_type), None)).1 {
                MethodRequest::GetCachedToken { key } => keys.push(key),
                other => panic!("asked for {:?}", other),
            }
        }
    }
    for (i, key) in keys.iter().enumerate() {
        assert!(!keys[i + 1..].contains(key));
    }
}

#[test]
fn unknown_tokens_are_unprocessable() {
    let (state, _) = asked(start(None, Some("tok"), Some(PayoutType::Card), None));
    assert_eq!(
        ended(resume_make_payout_method_data(state, MethodReply::CachedTokenRead(Ok(None)))),
        Err(ApiErrorResponse::UnprocessableEntity { message: text("Token is invalid or expired") })
    );
}

#[test]
fn cache_and_parse_failures_are_internal() {
    let (state, _) = asked(start(None, Some("tok"), Some(PayoutType::Card), None));
    assert_eq!(
        ended(resume_make_payout_method_data(
            state,
            MethodReply::CachedTokenRead(Err(OperationFailed)),
        )),
        Err(ApiErrorResponse::InternalServerError)
    );
    let (state, _) = asked(start(None, Some("tok"), Some(PayoutType::Card), None));
    let (state, _) = asked(resume_make_payout_method_data(
        state,
        MethodReply::CachedTokenRead(Ok(Some(text("?")))),
    ));
    assert_eq!(
        ended(resume_make_payout_method_data(
            state,
            MethodReply::TokenDataParsed(Err(OperationFailed)),
        )),
        Err(ApiErrorResponse::InternalServerError)
    );
}

#[test]
fn token_data_is_resolved() {
    let card_token = |locker_id: Option<&str>| CardTokenData {
        payment_method_id: Some(text("pm_1")),
        locker_id: locker_id.map(text),
        token: text("card_tok"),
    };
    let reference = |request: MethodRequest| match request {
        MethodRequest::GetCardFromLocker { customer_id, merchant_id, card_reference } => {
            assert_eq!((customer_id.as_str(), merchant_id.as_str()), ("cus_1", "mer_1"));
            card_reference
        }
        other => panic!("asked for {:?}", other),
    };
    assert_eq!(
        reference(resolve(
            PaymentTokenData::PermanentCard(card_token(Some("loc"))),
            PayoutType::Card,
        )),
        "loc"
    );
    assert_eq!(
        reference(resolve(PaymentTokenData::PermanentCard(card_token(None)), PayoutType::Card)),
        "card_tok"
    );
    assert_eq!(
        reference(resolve(
            PaymentTokenData::TemporaryGeneric(GenericTokenData { token: text("gen") }),
            PayoutType::Wallet,
        )),
        "gen"
    );
    assert_eq!(
        reference(resolve(
            PaymentTokenData::Permanent(card_token(Some("loc"))),
            PayoutType::Card,
        )),
        "tok"
    );
    assert_eq!(
        resolve(
            PaymentTokenData::TemporaryGeneric(GenericTokenData { token: text("gen") }),
            PayoutType::Bank,
        ),
        MethodRequest::GetFromTemporaryLocker { lookup_key: text("gen") }
    );
}

#[test]
fn temporary_tokens_skip_the_cache() {
    let (_, request) = asked(start(None, Some("temporary_token_9"), None, None));
    assert_eq!(
        request,
        MethodRequest::GetFromTemporaryLocker { lookup_key: text("temporary_token_9") }
    );
}

#[test]
fn temporary_destinations_go_to_their_owner_only() {
    let bank = PayoutMethodData::Bank(Bank::Sepa(serde_json::Value::Null));
    for (owner, expected) in [
        (Some("cus_1"), Ok(Some(bank.clone()))),
        (
            Some("cus_2"),
            Err(ApiErrorResponse::PreconditionFailed {
                message: text(
                    "customer associated with payout method and customer passed in payout are not same",
                ),
            }),
        ),
        (
            None,
            Err(ApiErrorResponse::PreconditionFailed {
                message: text(
                    "customer associated with payout method and customer passed in payout are not same",
                ),
            }),
        ),
    ] {
        let (state, _) = asked(start(None, Some("temporary_token_9"), None, None));
        assert_eq!(
            ended(resume_make_payout_method_data(
                state,
                MethodReply::FoundInTemporaryLocker(Ok((Some(bank.clone()), owner.map(text)))),
            )),
            expected
        );
    }
}

#[test]
fn locker_errors_are_handed_on() {
    let error = || ApiErrorResponse::Upstream { code: text("c"), message: text("m") };
    let (state, _) = asked(start(None, Some("temporary_token_9"), None, None));
    assert_eq!(
        ended(resume_make_payout_method_data(
            state,
            MethodReply::FoundInTemporaryLocker(Err(error())),
        )),
        Err(error())
    );
    let (state, _) = asked(start(Some(card()), None, None, Some(payout())));
    assert_eq!(
        ended(resume_make_payout_method_data(state, MethodReply::StoredInLocker(Err(error())))),
        Err(error())
    );
}

#[test]
fn stored_cards_become_destinations() {
    let (state, _) = asked(start(None, Some("tok"), Some(PayoutType::Card), None));
    let (state, _) = asked(resume_make_payout_method_data(
        state,
        MethodReply::CachedTokenRead(Ok(Some(text("{}")))),
    ));
    let (state, _) = asked(resume_make_payout_method_data(
        state,
        MethodReply::TokenDataParsed(Ok(PaymentTokenData::WalletToken(serde_json::Value::Null))),
    ));
    let found = Card {
        card_number: CardNumber { digits: text("4242424242424242") },
        name_on_card: Some(text("Jo")),
        card_exp_month: text("10"),
        card_exp_year: text("30"),
        card_brand: Some(text("visa")),
        card_isin: None,
        nick_name: None,
    };
    assert_eq!(
        ended(resume_make_payout_method_data(state, MethodReply::CardFound(Ok(found)))),
        Ok(Some(card()))
    );
}

#[test]
fn new_destinations_change_the_token_of_the_attempt() {
    let (state, request) = asked(start(Some(card()), None, None, Some(payout())));
    assert_eq!(
        request,
        MethodRequest::StoreInLocker {
            payout_token: None,
            payout_method_data: card(),
            owner: Some(text("cus_1")),
        }
    );
    let (state, request) = asked(resume_make_payout_method_data(
        state,
        MethodReply::StoredInLocker(Ok(text("key"))),
    ));
    assert_eq!(
        request,
        MethodRequest::UpdatePayoutToken {
            payout_attempt: payout().payout_attempt,
            new_token: text("key"),
            payouts: payout().payouts,
        }
    );
    let mut attempt = payout().payout_attempt;
    attempt.payout_token = Some(text("key"));
    let step = resume_make_payout_method_data(
        state,
        MethodReply::PayoutTokenUpdated(Ok(attempt.clone())),
    );
    match step {
        MethodStep::Done(outcome) => {
            assert_eq!(outcome.result, Ok(Some(card())));
            assert_eq!(
                outcome.payout_data,
                Some(PayoutData { payout_attempt: attempt, payouts: payout().payouts })
            );
        }
        other => panic!("{:?}", other),
    }
}

#[test]
fn failed_token_update_keeps_the_attempt() {
    let (state, _) = asked(start(Some(card()), None, None, Some(payout())));
    let (state, _) = asked(resume_make_payout_method_data(
        state,
        MethodReply::StoredInLocker(Ok(text("key"))),
    ));
    match resume_make_payout_method_data(
        state,
        MethodReply::PayoutTokenUpdated(Err(StorageError::Other)),
    ) {
        MethodStep::Done(outcome) => {
            assert_eq!(outcome.result, Err(ApiErrorResponse::InternalServerError));
            assert_eq!(outcome.payout_data, Some(payout()));
        }
        other => panic!("{:?}", other),
    }
}

#[test]
fn known_tokens_keep_the_attempt() {
    let (state, request) =
        asked(start(Some(card()), Some("temporary_token_9"), None, Some(payout())));
    assert_eq!(
        request,
        MethodRequest::StoreInLocker {
            payout_token: Some(text("temporary_token_9")),
            payout_method_data: card(),
            owner: Some(text("cus_1")),
        }
    );
    match resume_make_payout_method_data(state, MethodReply::StoredInLocker(Ok(text("key")))) {
        MethodStep::Done(outcome) => {
            assert_eq!(outcome.result, Ok(Some(card())));
            assert_eq!(outcome.payout_data, Some(payout()));
        }
        other => panic!("{:?}", other),
    }
}
