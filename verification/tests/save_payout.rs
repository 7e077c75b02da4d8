use router_core::date_time::PrimitiveDateTime;
use router_core::enums::{
    PaymentMethod, PaymentMethodStatus, PaymentMethodType, PayoutEntityType, PayoutStatus,
    PayoutType,
};
use router_core::errors::{ApiErrorResponse, OperationFailed, StorageError};
use router_core::locker::{
    Card, DataDuplicationCheck, StoreCardReq, StoreCardRespPayload, StoreGenericReq, StoreLockerReq,
};
use router_core::payment_method_types::{
    CardDetailsPaymentMethod, CardInfo, PaymentMethodCreate, StoredPaymentMethod,
};
use router_core::payout_types::{
    Bank, CardNumber, CardPayout, MinorUnit, PayoutAttempt, PayoutData, PayoutMethodData, Payouts,
    Wallet,
};
use router_core::save_payout::{
    resume_save_payout_data_to_locker, save_payout_data_to_locker, SaveOutcome, SaveReply,
    SaveRequest, SaveState, SaveStep,
};

fn text(t: &str) -> String {
    t.to_string()
}

fn payout() -> PayoutData {
    PayoutData {
        payout_attempt: PayoutAttempt {
            payout_attempt_id: text("payout_1_1"),
            payout_id: text("payout_1"),
            customer_id: text("cus_1"),
            profile_id: text("pro_1"),
            connector: None,
            merchant_connector_id: None,
            payout_token: None,
            status: PayoutStatus::RequiresCreation,
            business_country: None,
            business_label: None,
        },
        payouts: Payouts {
            payout_id: text("payout_1"),
            payout_method_id: None,
            amount: MinorUnit { value: 100 },
            destination_currency: text("EUR"),
            source_currency: text("EUR"),
            description: None,
            recurring: false,
            auto_fulfill: false,
            return_url: None,
            entity_type: PayoutEntityType::Individual,
            metadata: None,
            payout_type: Some(PayoutType::Card),
        },
    }
}

fn card() -> CardPayout {
    CardPayout {
        card_number: CardNumber { digits: text("4242424242421234") },
        expiry_month: text("10"),
        expiry_year: text("30"),
        card_holder_name: Some(text("Jo")),
    }
}

fn bank() -> PayoutMethodData {
    PayoutMethodData::Bank(Bank::Sepa(serde_json::Value::Bool(true)))
}

fn card_request(reference: Option<&str>) -> StoreLockerReq {
    StoreLockerReq::LockerCard(StoreCardReq {
        merchant_id: text("mer_1"),
        merchant_customer_id: text("cus_1"),
        requestor_card_reference: reference.map(text),
        card: Card {
            card_number: CardNumber { digits: text("4242424242421234") },
            name_on_card: Some(text("Jo")),
            card_exp_month: text("10"),
            card_exp_year: text("30"),
            card_brand: None,
            card_isin: None,
            nick_name: None,
        },
        ttl: 3600,
    })
}

fn existing() -> StoredPaymentMethod {
    StoredPaymentMethod {
        payment_method_id: text("pm_old"),
        customer_id: text("cus_1"),
        locker_id: Some(text("loc_old")),
        status: PaymentMethodStatus::Active,
        created_at: PrimitiveDateTime { unix_nanos: 0 },
    }
}

fn start(method: PayoutMethodData) -> (SaveState, SaveRequest) {
    asked(save_payout_data_to_locker(payout(), method, text("mer_1"), 3600))
}

fn asked(step: SaveStep) -> (SaveState, SaveRequest) {
    match step {
        SaveStep::Ask(state, request) => (state, request),
        SaveStep::Done(outcome) => panic!("ended with {:?}", outcome),
    }
}

fn next(state: SaveState, reply: SaveReply) -> (SaveState, SaveRequest) {
    asked(resume_save_payout_data_to_locker(state, reply))
}

fn last(state: SaveState, reply: SaveReply) -> SaveOutcome {
    match resume_save_payout_data_to_locker(state, reply) {
        SaveStep::Done(outcome) => outcome,
        SaveStep::Ask(_, request) => panic!("asked for {:?}", request),
    }
}

fn stored(check: Option<DataDuplicationCheck>) -> SaveReply {
    SaveReply::LockerCalled(Ok(StoreCardRespPayload {
        card_reference: text("ref_1"),
        duplication_check: check,
    }))
}

fn fails(state: SaveState, reply: SaveReply, error: ApiErrorResponse) {
    let outcome = last(state, reply);
    assert_eq!(outcome.result, Err(error));
    assert_eq!(outcome.payout_data, payout());
}

fn finishes(state: SaveState, request: SaveRequest) {
    assert_eq!(
        request,
        SaveRequest::UpdatePayout {
            payouts: payout().payouts,
            payout_method_id: text("ref_1"),
            payout_attempt: payout().payout_attempt,
        }
    );
    let mut updated = payout().payouts;
    updated.payout_method_id = Some(text("ref_1"));
    let outcome = last(state, SaveReply::PayoutUpdated(Ok(updated.clone())));
    assert_eq!(outcome.result, Ok(()));
    assert_eq!(
        outcome.payout_data,
        PayoutData { payout_attempt: payout().payout_attempt, payouts: updated }
    );
}

fn not_found() -> SaveReply {
    SaveReply::PaymentMethodFound(Err(StorageError::ValueNotFound))
}

/// A card whose entry is to be updated, up to its deletion from the locker.
fn changed_card() -> (SaveState, SaveRequest) {
    let (state, _) = start(PayoutMethodData::Card(card()));
    let (state, request) = next(state, stored(Some(DataDuplicationCheck::MetaDataChanged)));
    assert_eq!(request, SaveRequest::FindPaymentMethod { payment_method_id: text("ref_1") });
    let (state, request) = next(state, SaveReply::PaymentMethodFound(Ok(existing())));
    assert_eq!(request, SaveRequest::GetCardInfo { card_isin: text("424242") });
    let (state, request) = next(state, SaveReply::CardInfoFetched(Ok(None)));
    assert!(matches!(request, SaveRequest::EncryptCard { .. }));
    next(state, SaveReply::CardEncrypted(Ok(vec![9])))
}

#[test]
fn new_card_is_entered() {
    let (state, request) = start(PayoutMethodData::Card(card()));
    assert_eq!(
        request,
        SaveRequest::CallLocker { request: card_request(None), customer_id: text("cus_1") }
    );
    let (state, request) = next(state, stored(None));
    assert_eq!(request, SaveRequest::GetCardInfo { card_isin: text("424242") });
    let info = CardInfo {
        card_issuer: Some(text("Bank")),
        card_network: Some(text("Visa")),
        card_issuing_country: Some(text("DE")),
        card_type: Some(text("debit")),
    };
    let (state, request) = next(state, SaveReply::CardInfoFetched(Ok(Some(info))));
    assert_eq!(
        request,
        SaveRequest::EncryptCard {
            details: CardDetailsPaymentMethod {
                last4_digits: Some(text("1234")),
                issuer_country: Some(text("DE")),
                expiry_month: Some(text("10")),
                expiry_year: Some(text("30")),
                nick_name: None,
                card_holder_name: Some(text("Jo")),
                card_isin: Some(text("424242")),
                card_issuer: Some(text("Bank")),
                card_network: Some(text("Visa")),
                card_type: Some(text("debit")),
                saved_to_locker: true,
            },
        }
    );
    let (state, request) = next(state, SaveReply::CardEncrypted(Ok(vec![1, 2])));
    match request {
        SaveRequest::CreatePaymentMethod {
            entry,
            customer_id,
            payment_method_id,
            locker_id,
            merchant_id,
            payment_method_data,
        } => {
            assert_eq!(entry.payment_method, Some(PaymentMethod::Card));
            assert_eq!(entry.payment_method_type, Some(PaymentMethodType::Debit));
            assert_eq!(entry.payment_method_issuer, Some(text("Bank")));
            assert_eq!(entry.card_network, Some(text("Visa")));
            assert_eq!(entry.card.unwrap().card_number, card().card_number);
            assert_eq!(entry.customer_id, Some(text("cus_1")));
            assert_eq!(customer_id, "cus_1");
            assert!(payment_method_id.starts_with("pm_"));
            assert_eq!(payment_method_id.len(), 23);
            assert_eq!(locker_id, Some(text("ref_1")));
            assert_eq!(merchant_id, "mer_1");
            assert_eq!(payment_method_data, Some(vec![1, 2]));
        }
        other => panic!("asked for {:?}", other),
    }
    let (state, request) = next(state, SaveReply::PaymentMethodCreated(Ok(())));
    finishes(state, request);
}

#[test]
fn other_destinations_are_encrypted_first() {
    let (state, request) = start(bank());
    assert_eq!(request, SaveRequest::EncryptMethod { payout_method_data: bank() });
    let (state, request) = next(state, SaveReply::MethodEncrypted(Ok(Some(vec![0, 171, 255]))));
    assert_eq!(
        request,
        SaveRequest::CallLocker {
            request: StoreLockerReq::LockerGeneric(StoreGenericReq {
                merchant_id: text("mer_1"),
                merchant_customer_id: text("cus_1"),
                enc_data: text("00abff"),
                ttl: 3600,
            }),
            customer_id: text("cus_1"),
        }
    );
    let (state, request) = next(state, stored(None));
    match request {
        SaveRequest::CreatePaymentMethod { entry, payment_method_data, .. } => {
            assert_eq!(
                entry,
                PaymentMethodCreate {
                    payment_method: Some(PaymentMethod::BankTransfer),
                    payment_method_type: Some(PaymentMethodType::Sepa),
                    payment_method_issuer: None,
                    payment_method_issuer_code: None,
                    bank_transfer: Some(Bank::Sepa(serde_json::Value::Bool(true))),
                    card: None,
                    wallet: None,
                    metadata: None,
                    customer_id: Some(text("cus_1")),
                    card_network: None,
                    client_secret: None,
                    payment_method_data: None,
                    billing: None,
                    connector_mandate_details: None,
                    network_transaction_id: None,
                }
            );
            assert_eq!(payment_method_data, None);
        }
        other => panic!("asked for {:?}", other),
    }
    let (state, request) = next(state, SaveReply::PaymentMethodCreated(Ok(())));
    finishes(state, request);
}

#[test]
fn wallets_keep_their_kind() {
    let wallet = || Wallet::Paypal(serde_json::Value::Null);
    let (state, _) = start(PayoutMethodData::Wallet(wallet()));
    let (state, _) = next(state, SaveReply::MethodEncrypted(Ok(Some(vec![]))));
    let (_, request) = next(state, stored(None));
    match request {
        SaveRequest::CreatePaymentMethod { entry, .. } => {
            assert_eq!(entry.payment_method, Some(PaymentMethod::Wallet));
            assert_eq!(entry.payment_method_type, Some(PaymentMethodType::Paypal));
            assert_eq!(entry.wallet, Some(wallet()));
            assert_eq!(entry.bank_transfer, None);
        }
        other => panic!("asked for {:?}", other),
    }
}

#[test]
fn failed_encryption_is_internal() {
    for reply in [Ok(None), Err(OperationFailed)] {
        let (state, _) = start(bank());
        fails(
            state,
            SaveReply::MethodEncrypted(reply),
            ApiErrorResponse::InternalServerError,
        );
    }
}

#[test]
fn failed_first_storing_is_internal() {
    let (state, _) = start(PayoutMethodData::Card(card()));
    fails(
        state,
        SaveReply::LockerCalled(Err(OperationFailed)),
        ApiErrorResponse::InternalServerError,
    );
}

#[test]
fn unchanged_duplicate_is_left_alone() {
    let (state, _) = start(PayoutMethodData::Card(card()));
    let (state, _) = next(state, stored(Some(DataDuplicationCheck::Duplicated)));
    let (state, request) = next(state, SaveReply::PaymentMethodFound(Ok(existing())));
    finishes(state, request);
}

#[test]
fn duplicate_is_found_by_its_locker_name() {
    let (state, _) = start(PayoutMethodData::Card(card()));
    let (state, _) = next(state, stored(Some(DataDuplicationCheck::Duplicated)));
    let (state, request) = next(state, not_found());
    assert_eq!(
        request,
        SaveRequest::FindPaymentMethodByLockerId { locker_ref: text("ref_1") }
    );
    let (state, request) = next(state, SaveReply::PaymentMethodFound(Ok(existing())));
    finishes(state, request);
}

#[test]
fn duplicate_without_entry_is_entered() {
    let (state, _) = start(bank());
    let (state, _) = next(state, SaveReply::MethodEncrypted(Ok(Some(vec![1]))));
    let (state, _) = next(state, stored(Some(DataDuplicationCheck::MetaDataChanged)));
    let (state, _) = next(state, not_found());
    let (_, request) = next(state, not_found());
    assert!(matches!(request, SaveRequest::CreatePaymentMethod { .. }));
}

#[test]
fn failed_lookups_are_internal() {
    let failed = || SaveReply::PaymentMethodFound(Err(StorageError::Other));
    let (state, _) = start(PayoutMethodData::Card(card()));
    let (state, _) = next(state, stored(Some(DataDuplicationCheck::Duplicated)));
    fails(state, failed(), ApiErrorResponse::InternalServerError);
    let (state, _) = start(PayoutMethodData::Card(card()));
    let (state, _) = next(state, stored(Some(DataDuplicationCheck::Duplicated)));
    let (state, _) = next(state, not_found());
    fails(state, failed(), ApiErrorResponse::InternalServerError);
}

#[test]
fn changed_card_is_replaced() {
    let (state, request) = changed_card();
    assert_eq!(
        request,
        SaveRequest::DeleteCardFromLocker {
            customer_id: text("cus_1"),
            merchant_id: text("mer_1"),
            card_reference: text("loc_old"),
        }
    );
    let (state, request) = next(state, SaveReply::CardDeletedFromLocker(Ok(())));
    assert_eq!(
        request,
        SaveRequest::CallLocker {
            request: card_request(Some("loc_old")),
            customer_id: text("cus_1"),
        }
    );
    let again = SaveReply::LockerCalled(Ok(StoreCardRespPayload {
        card_reference: text("ref_2"),
        duplication_check: None,
    }));
    let (state, request) = next(state, again);
    assert_eq!(
        request,
        SaveRequest::UpdatePaymentMethod {
            payment_method: existing(),
            payment_method_data: Some(vec![9]),
        }
    );
    let (state, request) = next(state, SaveReply::PaymentMethodUpdated(Ok(())));
    finishes(state, request);
}

#[test]
fn changed_entry_without_locker_name_is_known_by_its_identifier() {
    let mut entry = existing();
    entry.locker_id = None;
    let (state, _) = start(bank());
    let (state, _) = next(state, SaveReply::MethodEncrypted(Ok(Some(vec![1]))));
    let (state, _) = next(state, stored(Some(DataDuplicationCheck::MetaDataChanged)));
    let (state, request) = next(state, SaveReply::PaymentMethodFound(Ok(entry)));
    assert_eq!(
        request,
        SaveRequest::DeleteCardFromLocker {
            customer_id: text("cus_1"),
            merchant_id: text("mer_1"),
            card_reference: text("pm_old"),
        }
    );
    let (_, request) = next(state, SaveReply::CardDeletedFromLocker(Ok(())));
    assert_eq!(
        request,
        SaveRequest::CallLocker {
            request: StoreLockerReq::LockerGeneric(StoreGenericReq {
                merchant_id: text("mer_1"),
                merchant_customer_id: text("cus_1"),
                enc_data: text("01"),
                ttl: 3600,
            }),
            customer_id: text("cus_1"),
        }
    );
}

#[test]
fn lost_destination_loses_its_entry() {
    for (reply, error) in [
        (Ok(()), ApiErrorResponse::InternalServerError),
        (Err(StorageError::ValueNotFound), ApiErrorResponse::PaymentMethodNotFound),
        (Err(StorageError::Other), ApiErrorResponse::InternalServerError),
    ] {
        let (state, _) = changed_card();
        let (state, _) = next(state, SaveReply::CardDeletedFromLocker(Ok(())));
        let (state, request) = next(state, SaveReply::LockerCalled(Err(OperationFailed)));
        assert_eq!(
            request,
            SaveRequest::DeletePaymentMethod {
                merchant_id: text("mer_1"),
                payment_method_id: text("pm_old"),
            }
        );
        fails(state, SaveReply::PaymentMethodDeleted(reply), error);
    }
}

#[test]
fn later_failures_keep_the_payout() {
    let error = || ApiErrorResponse::Upstream { code: text("c"), message: text("m") };
    let (state, _) = changed_card();
    fails(state, SaveReply::CardDeletedFromLocker(Err(error())), error());

    let (state, _) = changed_card();
    let (state, _) = next(state, SaveReply::CardDeletedFromLocker(Ok(())));
    let (state, _) = next(state, stored(None));
    fails(
        state,
        SaveReply::PaymentMethodUpdated(Err(StorageError::Other)),
        ApiErrorResponse::InternalServerError,
    );

    let (state, _) = start(PayoutMethodData::Card(card()));
    let (state, _) = next(state, stored(None));
    let (state, request) = next(state, SaveReply::CardInfoFetched(Err(StorageError::Other)));
    match request {
        SaveRequest::EncryptCard { details } => assert_eq!(details.card_issuer, None),
        other => panic!("asked for {:?}", other),
    }
    fails(
        state,
        SaveReply::CardEncrypted(Err(OperationFailed)),
        ApiErrorResponse::InternalServerError,
    );

    let (state, _) = start(bank());
    let (state, _) = next(state, SaveReply::MethodEncrypted(Ok(Some(vec![1]))));
    let (state, _) = next(state, stored(None));
    fails(state, SaveReply::PaymentMethodCreated(Err(error())), error());

    let (state, _) = start(PayoutMethodData::Card(card()));
    let (state, _) = next(state, stored(Some(DataDuplicationCheck::Duplicated)));
    let (state, _) = next(state, SaveReply::PaymentMethodFound(Ok(existing())));
    fails(
        state,
        SaveReply::PayoutUpdated(Err(StorageError::Other)),
        ApiErrorResponse::InternalServerError,
    );
}

/// Runs the flow to its end and counts entries made, cards taken out, requests to
/// the locker, entries updated and entries deleted.
fn count_requests(
    method: PayoutMethodData,
    check: Option<DataDuplicationCheck>,
    entry: Option<StoredPaymentMethod>,
) -> [usize; 5] {
    let mut counts = [0usize; 5];
    let mut step = save_payout_data_to_locker(payout(), method, text("mer_1"), 3600);
    loop {
        match step {
            SaveStep::Done(outcome) => {
                assert_eq!(outcome.result, Ok(()));
                return counts;
            }
            SaveStep::Ask(state, request) => {
                let reply = match request {
                    SaveRequest::EncryptMethod { .. } => {
                        SaveReply::MethodEncrypted(Ok(Some(vec![1])))
                    }
                    SaveRequest::CallLocker { .. } => {
                        counts[2] += 1;
                        stored(check)
                    }
                    SaveRequest::FindPaymentMethod { .. } => not_found(),
                    SaveRequest::FindPaymentMethodByLockerId { .. } => {
                        SaveReply::PaymentMethodFound(
                            entry.clone().ok_or(StorageError::ValueNotFound),
                        )
                    }
                    SaveRequest::GetCardInfo { .. } => SaveReply::CardInfoFetched(Ok(None)),
                    SaveRequest::EncryptCard { .. } => SaveReply::CardEncrypted(Ok(vec![2])),
                    SaveRequest::CreatePaymentMethod { .. } => {
                        counts[0] += 1;
                        SaveReply::PaymentMethodCreated(Ok(()))
                    }
                    SaveRequest::DeleteCardFromLocker { .. } => {
                        counts[1] += 1;
                        SaveReply::CardDeletedFromLocker(Ok(()))
                    }
                    SaveRequest::DeletePaymentMethod { .. } => {
                        counts[4] += 1;
                        SaveReply::PaymentMethodDeleted(Ok(()))
                    }
                    SaveRequest::UpdatePaymentMethod { .. } => {
                        counts[3] += 1;
                        SaveReply::PaymentMethodUpdated(Ok(()))
                    }
                    SaveRequest::UpdatePayout { payouts, .. } => {
                        SaveReply::PayoutUpdated(Ok(payouts))
                    }
                };
                step = resume_save_payout_data_to_locker(state, reply);
            }
        }
    }
}

#[test]
fn new_destination_is_entered_exactly_once() {
    for method in [PayoutMethodData::Card(card()), bank()] {
        for check in [None, Some(DataDuplicationCheck::MetaDataChanged)] {
            assert_eq!(count_requests(method.clone(), check, None), [1, 0, 1, 0, 0]);
        }
    }
}

#[test]
fn changed_destination_is_replaced_exactly_once() {
    for method in [PayoutMethodData::Card(card()), bank()] {
        assert_eq!(
            count_requests(
                method,
                Some(DataDuplicationCheck::MetaDataChanged),
                Some(existing()),
            ),
            [0, 1, 2, 1, 0]
        );
    }
}
