use router_core::date_time::{PrimitiveDateTime, MAX_UNIX_NANOS};
use router_core::enums::{PaymentMethod, PaymentMethodStatus, PaymentMethodType};
use router_core::errors::{ApiErrorResponse, OperationFailed, StorageError};
use router_core::gsm::{get_gsm_record, resume_get_gsm_record, GatewayStatusMap, GsmCounter, GsmOutcome};
use router_core::payment_method_data::{
    CardToken, PaymentCard, PaymentMethodData, PaymentMethodDataWithId,
};
use router_core::payment_method_entry::get_payment_method_create_request;
use router_core::payment_method_retrieval::{
    resume_retrieve_payment_method, resume_retrieve_payment_method_with_token,
    retrieve_payment_method, retrieve_payment_method_with_token, RetrieveStep, StoreInVault,
    TokenReply, TokenRequest, TokenStep,
};
use router_core::payment_method_types::{
    CardDetail, PaymentMethodCreateData, StoredPaymentMethod,
};
use router_core::payment_method_v2;
use router_core::payment_tokens::{CardTokenData, GenericTokenData, PaymentTokenData};
use router_core::payout_types::CardNumber;
use router_core::status_task::{
    add_payment_method_status_update_task,
    generate_task_id_for_payment_method_status_update_workflow,
    resume_add_payment_method_status_update_task, ProcessTrackerError, ProcessTrackerRunner,
};

fn text(t: &str) -> String {
    t.to_string()
}

fn json() -> serde_json::Value {
    serde_json::Value::Bool(true)
}

fn card() -> PaymentCard {
    PaymentCard {
        card_number: CardNumber { digits: text("4242424242424242") },
        card_exp_month: text("10"),
        card_exp_year: text("30"),
        card_cvc: text("123"),
        card_issuer: Some(text("Bank")),
        card_network: Some(text("Visa")),
        card_type: Some(text("credit")),
        card_issuing_country: Some(text("Germany")),
        bank_code: None,
        nick_name: Some(text("mine")),
    }
}

fn stored_method(created: i128) -> StoredPaymentMethod {
    StoredPaymentMethod {
        payment_method_id: text("pm_1"),
        customer_id: text("cus_1"),
        locker_id: None,
        status: PaymentMethodStatus::AwaitingData,
        created_at: PrimitiveDateTime { unix_nanos: created },
    }
}

#[test]
fn vaulted_methods_get_a_token() {
    for (data, method) in [
        (PaymentMethodData::Card(card()), PaymentMethod::Card),
        (PaymentMethodData::BankTransfer(json()), PaymentMethod::BankTransfer),
        (PaymentMethodData::Wallet(json()), PaymentMethod::Wallet),
        (PaymentMethodData::BankRedirect(json()), PaymentMethod::BankRedirect),
    ] {
        let state = match retrieve_payment_method(Some(data.clone())) {
            RetrieveStep::Ask(state, request) => {
                assert_eq!(
                    request,
                    StoreInVault { payment_method: method, payment_method_data: data.clone() }
                );
                state
            }
            other => panic!("{:?}", other),
        };
        assert_eq!(
            resume_retrieve_payment_method(state, Ok(Some(text("token")))),
            RetrieveStep::Done(Ok((Some(data), Some(text("token")))))
        );
    }
}

#[test]
fn vault_errors_are_handed_on() {
    match retrieve_payment_method(Some(PaymentMethodData::Card(card()))) {
        RetrieveStep::Ask(state, _) => assert_eq!(
            resume_retrieve_payment_method(state, Err(ApiErrorResponse::InternalServerError)),
            RetrieveStep::Done(Err(ApiErrorResponse::InternalServerError))
        ),
        other => panic!("{:?}", other),
    }
}

#[test]
fn other_methods_pass_through() {
    for data in [
        PaymentMethodData::PayLater(json()),
        PaymentMethodData::Crypto(json()),
        PaymentMethodData::BankDebit(json()),
        PaymentMethodData::Upi(json()),
        PaymentMethodData::Voucher(json()),
        PaymentMethodData::Reward,
        PaymentMethodData::RealTimePayment(json()),
        PaymentMethodData::CardRedirect(json()),
        PaymentMethodData::GiftCard(json()),
        PaymentMethodData::OpenBanking(json()),
    ] {
        assert_eq!(
            retrieve_payment_method(Some(data.clone())),
            RetrieveStep::Done(Ok((Some(data), None)))
        );
    }
}

#[test]
fn references_are_not_methods() {
    let token = CardToken { card_holder_name: None, card_cvc: None };
    for data in [
        None,
        Some(PaymentMethodData::MandatePayment),
        Some(PaymentMethodData::CardToken(token)),
    ] {
        assert_eq!(retrieve_payment_method(data), RetrieveStep::Done(Ok((None, None))));
    }
}

#[test]
fn temporary_tokens_have_no_identifier() {
    let holder = || Some(CardToken { card_holder_name: Some(text("Jo")), card_cvc: None });
    for data in [
        PaymentTokenData::TemporaryGeneric(GenericTokenData { token: text("t") }),
        PaymentTokenData::Temporary(GenericTokenData { token: text("t") }),
    ] {
        let state = match retrieve_payment_method_with_token(data, holder()) {
            TokenStep::Ask(state, request) => {
                assert_eq!(
                    request,
                    TokenRequest::RetrieveWithTemporaryToken {
                        token: text("t"),
                        card_token_data: holder(),
                    }
                );
                state
            }
            other => panic!("{:?}", other),
        };
        assert_eq!(
            resume_retrieve_payment_method_with_token(
                state,
                TokenReply::MethodRetrieved(Ok(Some((
                    PaymentMethodData::Wallet(json()),
                    PaymentMethod::Wallet,
                )))),
            ),
            TokenStep::Done(Ok(PaymentMethodDataWithId {
                payment_method: Some(PaymentMethod::Wallet),
                payment_method_data: Some(PaymentMethodData::Wallet(json())),
                payment_method_id: None,
            }))
        );
    }
}

#[test]
fn nothing_behind_a_token_is_nothing() {
    let empty = || {
        TokenStep::Done(Ok(PaymentMethodDataWithId {
            payment_method: None,
            payment_method_data: None,
            payment_method_id: None,
        }))
    };
    assert_eq!(
        retrieve_payment_method_with_token(PaymentTokenData::WalletToken(json()), None),
        empty()
    );
    match retrieve_payment_method_with_token(PaymentTokenData::AuthBankDebit(json()), None) {
        TokenStep::Ask(state, request) => {
            assert_eq!(request, TokenRequest::RetrieveFromAuthService { auth_token: json() });
            assert_eq!(
                resume_retrieve_payment_method_with_token(
                    state,
                    TokenReply::MethodRetrieved(Ok(None)),
                ),
                empty()
            );
        }
        other => panic!("{:?}", other),
    }
}

#[test]
fn permanent_tokens_name_a_card() {
    let token = |method: Option<&str>, locker: Option<&str>| CardTokenData {
        payment_method_id: method.map(text),
        locker_id: locker.map(text),
        token: text("tok"),
    };
    for (data, locker_id, payment_method_id) in [
        (PaymentTokenData::Permanent(token(Some("pm"), Some("loc"))), "loc", "pm"),
        (PaymentTokenData::PermanentCard(token(None, Some("loc"))), "loc", "tok"),
        (PaymentTokenData::PermanentCard(token(Some("pm"), None)), "tok", "pm"),
        (PaymentTokenData::Permanent(token(None, None)), "tok", "tok"),
    ] {
        let state = match retrieve_payment_method_with_token(data, None) {
            TokenStep::Ask(state, request) => {
                assert_eq!(
                    request,
                    TokenRequest::RetrieveCardWithPermanentToken {
                        locker_id: text(locker_id),
                        payment_method_id: text(payment_method_id),
                        card_token_data: None,
                    }
                );
                state
            }
            other => panic!("{:?}", other),
        };
        assert_eq!(
            resume_retrieve_payment_method_with_token(
                state,
                TokenReply::CardRetrieved(Ok(PaymentMethodData::Card(card()))),
            ),
            TokenStep::Done(Ok(PaymentMethodDataWithId {
                payment_method: Some(PaymentMethod::Card),
                payment_method_data: Some(PaymentMethodData::Card(card())),
                payment_method_id: Some(text(payment_method_id)),
            }))
        );
    }
}

#[test]
fn token_errors_are_handed_on() {
    let token = CardTokenData { payment_method_id: None, locker_id: None, token: text("t") };
    match retrieve_payment_method_with_token(PaymentTokenData::Permanent(token), None) {
        TokenStep::Ask(state, _) => assert_eq!(
            resume_retrieve_payment_method_with_token(
                state,
                TokenReply::CardRetrieved(Err(ApiErrorResponse::PaymentMethodNotFound)),
            ),
            TokenStep::Done(Err(ApiErrorResponse::PaymentMethodNotFound))
        ),
        other => panic!("{:?}", other),
    }
}

#[test]
fn entry_takes_up_the_card() {
    let data = PaymentMethodData::Card(card());
    let entry = get_payment_method_create_request(
        Some(&data),
        Some(PaymentMethod::Card),
        Some(PaymentMethodType::Debit),
        &Some(text("cus_1")),
        Some(text("Jo")),
    )
    .unwrap();
    assert_eq!(entry.payment_method, Some(PaymentMethod::Card));
    assert_eq!(entry.payment_method_type, Some(PaymentMethodType::Debit));
    assert_eq!(entry.payment_method_issuer, Some(text("Bank")));
    assert_eq!(entry.card_network, Some(text("Visa")));
    assert_eq!(entry.customer_id, Some(text("cus_1")));
    assert_eq!(
        entry.card,
        Some(CardDetail {
            card_number: CardNumber { digits: text("4242424242424242") },
            card_exp_month: text("10"),
            card_exp_year: text("30"),
            card_holder_name: Some(text("Jo")),
            nick_name: Some(text("mine")),
            card_issuing_country: Some(text("Germany")),
            card_network: Some(text("Visa")),
            card_issuer: Some(text("Bank")),
            card_type: Some(text("credit")),
        })
    );
}

#[test]
fn entry_without_card_is_bare() {
    let data = PaymentMethodData::Wallet(json());
    let entry = get_payment_method_create_request(
        Some(&data),
        Some(PaymentMethod::Wallet),
        None,
        &None,
        Some(text("Jo")),
    )
    .unwrap();
    assert_eq!(entry.payment_method, Some(PaymentMethod::Wallet));
    assert_eq!(entry.payment_method_type, None);
    assert_eq!(entry.payment_method_issuer, None);
    assert_eq!(entry.card, None);
    assert_eq!(entry.card_network, None);
    assert_eq!(entry.customer_id, None);
}

#[test]
fn entry_needs_data_and_method() {
    let data = PaymentMethodData::Wallet(json());
    assert_eq!(
        get_payment_method_create_request(None, None, None, &None, None),
        Err(ApiErrorResponse::MissingRequiredField { field_name: "payment_method_data" })
    );
    assert_eq!(
        get_payment_method_create_request(Some(&data), None, None, &None, None),
        Err(ApiErrorResponse::MissingRequiredField { field_name: "payment_method_type" })
    );
}

#[test]
fn second_generation_request_reads_country_and_type() {
    let data = PaymentMethodData::Card(card());
    let request = payment_method_v2::get_payment_method_create_request(
        Some(&data),
        Some(Ok(text("DE"))),
        Some(Err(OperationFailed)),
        Some(PaymentMethod::Card),
        Some(PaymentMethodType::Other(text("credit"))),
        &Some(text("cus_1")),
        None,
    )
    .unwrap();
    assert_eq!(request.payment_method, PaymentMethod::Card);
    assert_eq!(request.payment_method_type, PaymentMethodType::Other(text("credit")));
    assert_eq!(request.customer_id, "cus_1");
    match request.payment_method_data {
        PaymentMethodCreateData::Card(detail) => {
            assert_eq!(detail.card_issuing_country, Some(text("DE")));
            assert_eq!(detail.card_type, None);
            assert_eq!(detail.card_network, Some(text("Visa")));
            assert_eq!(detail.card_holder_name, None);
        }
    }
}

#[test]
fn second_generation_request_keeps_nothing_the_card_lacks() {
    let mut bare = card();
    bare.card_issuing_country = None;
    bare.card_type = None;
    let read = |card: PaymentCard, country, card_type| {
        let data = PaymentMethodData::Card(card);
        match payment_method_v2::get_payment_method_create_request(
            Some(&data),
            country,
            card_type,
            Some(PaymentMethod::Card),
            Some(PaymentMethodType::Debit),
            &Some(text("cus_1")),
            None,
        )
        .unwrap()
        .payment_method_data
        {
            PaymentMethodCreateData::Card(detail) => {
                (detail.card_issuing_country, detail.card_type)
            }
        }
    };
    assert_eq!(read(bare, Some(Ok(text("DE"))), Some(Ok(text("credit")))), (None, None));
    assert_eq!(
        read(card(), Some(Ok(text("DE"))), Some(Ok(text("credit")))),
        (Some(text("DE")), Some(text("credit")))
    );
    assert_eq!(read(card(), None, Some(Err(OperationFailed))), (None, None));
}

#[test]
fn second_generation_request_names_what_is_missing() {
    let data = PaymentMethodData::Card(card());
    let wallet = PaymentMethodData::Wallet(json());
    let missing = |data: Option<&PaymentMethodData>,
                   method: Option<PaymentMethod>,
                   kind: Option<PaymentMethodType>,
                   customer: Option<String>| {
        match payment_method_v2::get_payment_method_create_request(
            data, None, None, method, kind, &customer, None,
        ) {
            Err(ApiErrorResponse::MissingRequiredField { field_name }) => field_name,
            other => panic!("{:?}", other),
        }
    };
    let kind = || Some(PaymentMethodType::Debit);
    let id = || Some(text("cus_1"));
    let method = Some(PaymentMethod::Card);
    assert_eq!(missing(None, method, kind(), id()), "payment_method_data");
    assert_eq!(missing(Some(&data), None, kind(), id()), "payment_method_type");
    assert_eq!(missing(Some(&wallet), method, kind(), id()), "payment_method_data");
    assert_eq!(missing(Some(&data), method, None, None), "payment_method_data");
    assert_eq!(missing(Some(&data), method, kind(), None), "customer_id");
}

#[test]
fn unknown_error_parts_are_looked_up_as_empty() {
    let query = get_gsm_record(None, Some(text("bad")), None, text("payout"));
    assert_eq!(query.connector, "");
    assert_eq!(query.flow, "payout");
    assert_eq!(query.sub_flow, "sub_flow");
    assert_eq!(query.code, "");
    assert_eq!(query.message, "bad");
    let query = get_gsm_record(Some(text("E1")), None, Some(text("wise")), text("f"));
    assert_eq!((query.connector.as_str(), query.code.as_str()), ("wise", "E1"));
}

#[test]
fn rule_lookup_never_fails() {
    let record = || GatewayStatusMap {
        connector: text("wise"),
        flow: text("f"),
        sub_flow: text("sub_flow"),
        code: text("E1"),
        message: text("bad"),
        status: text("failed"),
        router_error: None,
        decision: text("retry"),
        step_up_possible: false,
        unified_code: None,
        unified_message: None,
    };
    assert_eq!(
        resume_get_gsm_record(Ok(record())),
        GsmOutcome { record: Some(record()), counter: None }
    );
    assert_eq!(
        resume_get_gsm_record(Err(StorageError::ValueNotFound)),
        GsmOutcome { record: None, counter: Some(GsmCounter::Miss) }
    );
    assert_eq!(
        resume_get_gsm_record(Err(StorageError::Other)),
        GsmOutcome { record: None, counter: Some(GsmCounter::FetchFailure) }
    );
}

#[test]
fn task_is_due_after_the_session() {
    let entry = add_payment_method_status_update_task(
        &stored_method(1_000_000_000_000_000_007),
        PaymentMethodStatus::AwaitingData,
        PaymentMethodStatus::Inactive,
        &text("mer_1"),
    );
    assert_eq!(
        entry.process_tracker_id,
        "PAYMENT_METHOD_STATUS_UPDATE_WORKFLOW_PAYMENT_METHOD_STATUS_UPDATE_pm_1"
    );
    assert_eq!(entry.task, "PAYMENT_METHOD_STATUS_UPDATE");
    assert_eq!(entry.tag, "PAYMENT_METHOD_STATUS");
    assert_eq!(entry.runner, ProcessTrackerRunner::PaymentMethodStatusUpdateWorkflow);
    assert_eq!(entry.tracking_data.payment_method_id, "pm_1");
    assert_eq!(entry.tracking_data.prev_status, PaymentMethodStatus::AwaitingData);
    assert_eq!(entry.tracking_data.curr_status, PaymentMethodStatus::Inactive);
    assert_eq!(entry.tracking_data.merchant_id, "mer_1");
    assert_eq!(entry.schedule_time.unix_nanos, 1_000_000_900_000_000_007);
}

#[test]
fn task_at_the_end_of_time_is_due_then() {
    let entry = add_payment_method_status_update_task(
        &stored_method(MAX_UNIX_NANOS - 5),
        PaymentMethodStatus::AwaitingData,
        PaymentMethodStatus::Inactive,
        &text("mer_1"),
    );
    assert_eq!(entry.schedule_time.unix_nanos, MAX_UNIX_NANOS);
}

#[test]
fn task_identifier_is_made_of_its_parts() {
    assert_eq!(
        generate_task_id_for_payment_method_status_update_workflow(
            "key",
            &ProcessTrackerRunner::PaymentMethodStatusUpdateWorkflow,
            "TASK",
        ),
        "PAYMENT_METHOD_STATUS_UPDATE_WORKFLOW_TASK_key"
    );
}

#[test]
fn task_failure_is_internal() {
    assert_eq!(resume_add_payment_method_status_update_task(Ok(())), Ok(()));
    assert_eq!(
        resume_add_payment_method_status_update_task(Err(OperationFailed)),
        Err(ProcessTrackerError::EApiErrorResponse(ApiErrorResponse::InternalServerError))
    );
}
