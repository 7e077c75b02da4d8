use router_core::date_time::PrimitiveDateTime;
use router_core::enums::{PaymentMethod, PaymentMethodStatus, PaymentMethodType};
use router_core::errors::{ApiErrorResponse, OperationFailed, StorageError};
use router_core::payment_method_intents::{
    create_payment_method, payment_method_intent_confirm, payment_method_intent_create,
    resume_payment_method_intent, IntentReply, IntentRequest, IntentState, IntentStep,
    MethodUpdate, PaymentMethodIntentConfirm, PaymentMethodIntentCreate,
};
use router_core::payment_method_types::{
    CardDetail, PaymentMethodCreateData, StoredPaymentMethod,
};
use router_core::payment_method_v2::PaymentMethodCreate;
use router_core::payout_types::CardNumber;
use router_core::vault::AddVaultResponse;

fn text(t: &str) -> String {
    t.to_string()
}

fn json() -> serde_json::Value {
    serde_json::Value::Bool(true)
}

fn data() -> PaymentMethodCreateData {
    PaymentMethodCreateData::Card(CardDetail {
        card_number: CardNumber { digits: text("4242424242424242") },
        card_exp_month: text("10"),
        card_exp_year: text("30"),
        card_holder_name: None,
        nick_name: None,
        card_issuing_country: None,
        card_network: None,
        card_issuer: None,
        card_type: None,
    })
}

fn stored(status: PaymentMethodStatus) -> StoredPaymentMethod {
    StoredPaymentMethod {
        payment_method_id: text("pm_1"),
        customer_id: text("cus_1"),
        locker_id: None,
        status,
        created_at: PrimitiveDateTime { unix_nanos: 0 },
    }
}

fn create(billing: Option<serde_json::Value>) -> (IntentState, IntentRequest) {
    asked(create_payment_method(
        Ok(()),
        PaymentMethodCreate {
            payment_method: PaymentMethod::Card,
            payment_method_type: PaymentMethodType::Debit,
            metadata: Some(json()),
            customer_id: text("cus_1"),
            payment_method_data: data(),
            billing,
        },
        text("mer_1"),
    ))
}

fn confirm() -> (IntentState, IntentRequest) {
    asked(payment_method_intent_confirm(Ok(()), confirmation(), text("mer_1"), text("pm_1")))
}

fn confirmation() -> PaymentMethodIntentConfirm {
    PaymentMethodIntentConfirm {
        client_secret: text("secret"),
        payment_method: PaymentMethod::Card,
        payment_method_type: PaymentMethodType::Debit,
        payment_method_data: data(),
    }
}

fn asked(step: IntentStep) -> (IntentState, IntentRequest) {
    match step {
        IntentStep::Ask(state, request) => (state, request),
        IntentStep::Done(result) => panic!("ended with {:?}", result),
    }
}

fn next(state: IntentState, reply: IntentReply) -> (IntentState, IntentRequest) {
    asked(resume_payment_method_intent(state, reply))
}

fn fails(state: IntentState, reply: IntentReply, error: ApiErrorResponse) {
    assert_eq!(resume_payment_method_intent(state, reply), IntentStep::Done(Err(error)));
}

fn upstream() -> ApiErrorResponse {
    ApiErrorResponse::Upstream { code: text("c"), message: text("m") }
}

fn vaulted() -> IntentReply {
    IntentReply::Vaulted(Ok(AddVaultResponse {
        entity_id: text("mer_1"),
        vault_id: text("vault_1"),
        fingerprint_id: None,
    }))
}

/// A method that is created, up to the vault.
fn at_the_vault() -> IntentState {
    let (state, _) = create(None);
    let (state, _) = next(state, IntentReply::CustomerFound(Ok(())));
    let (state, request) =
        next(state, IntentReply::EntryCreated(Ok(stored(PaymentMethodStatus::AwaitingData))));
    assert_eq!(request, IntentRequest::VaultPaymentMethod { payment_method_data: data() });
    state
}

fn succeeds_from_the_vault(state: IntentState) {
    let (state, request) = next(state, vaulted());
    assert_eq!(
        request,
        IntentRequest::PrepareUpdate {
            payment_method_data: data(),
            vault_id: Some(text("vault_1")),
            payment_method_family: Some(PaymentMethod::Card),
            payment_method_type: Some(PaymentMethodType::Debit),
        }
    );
    let (state, request) = next(state, IntentReply::UpdatePrepared(Ok(json())));
    assert_eq!(
        request,
        IntentRequest::UpdatePaymentMethod {
            payment_method: stored(PaymentMethodStatus::AwaitingData),
            update: MethodUpdate::Additional(json()),
        }
    );
    let (state, request) =
        next(state, IntentReply::PaymentMethodUpdated(Ok(stored(PaymentMethodStatus::Active))));
    assert_eq!(
        request,
        IntentRequest::GenerateResponse { payment_method: stored(PaymentMethodStatus::Active) }
    );
    assert_eq!(
        resume_payment_method_intent(state, IntentReply::ResponseGenerated(Ok(json()))),
        IntentStep::Done(Ok(json()))
    );
}

#[test]
fn created_method_goes_into_the_vault() {
    let (state, request) = create(Some(serde_json::Value::Null));
    assert_eq!(
        request,
        IntentRequest::FindCustomer { customer_id: text("cus_1"), merchant_id: text("mer_1") }
    );
    let (state, request) = next(state, IntentReply::CustomerFound(Ok(())));
    assert_eq!(request, IntentRequest::EncryptBilling { billing: serde_json::Value::Null });
    let (state, request) = next(state, IntentReply::BillingEncrypted(Ok(vec![7])));
    match request {
        IntentRequest::CreateForIntent {
            metadata,
            customer_id,
            payment_method_id,
            merchant_id,
            billing_address,
        } => {
            assert_eq!(metadata, Some(json()));
            assert_eq!(customer_id, "cus_1");
            assert!(payment_method_id.starts_with("pm_"));
            assert_eq!(payment_method_id.len(), 23);
            assert_eq!(merchant_id, "mer_1");
            assert_eq!(billing_address, Some(vec![7]));
        }
        other => panic!("asked for {:?}", other),
    }
    let (state, _) =
        next(state, IntentReply::EntryCreated(Ok(stored(PaymentMethodStatus::AwaitingData))));
    succeeds_from_the_vault(state);
}

#[test]
fn refused_method_is_deactivated() {
    for (reply, error) in [
        (Ok(stored(PaymentMethodStatus::Inactive)), upstream()),
        (Err(StorageError::Other), ApiErrorResponse::InternalServerError),
    ] {
        let (state, request) = next(at_the_vault(), IntentReply::Vaulted(Err(upstream())));
        assert_eq!(
            request,
            IntentRequest::UpdatePaymentMethod {
                payment_method: stored(PaymentMethodStatus::AwaitingData),
                update: MethodUpdate::Status(PaymentMethodStatus::Inactive),
            }
        );
        fails(state, IntentReply::PaymentMethodUpdated(reply), error);
    }
}

#[test]
fn invalid_requests_end_at_once() {
    assert_eq!(
        payment_method_intent_confirm(
            Err(upstream()),
            confirmation(),
            text("mer_1"),
            text("pm_1"),
        ),
        IntentStep::Done(Err(upstream()))
    );
    let req = PaymentMethodCreate {
        payment_method: PaymentMethod::Card,
        payment_method_type: PaymentMethodType::Debit,
        metadata: None,
        customer_id: text("cus_1"),
        payment_method_data: data(),
        billing: None,
    };
    assert_eq!(
        create_payment_method(Err(upstream()), req, text("mer_1")),
        IntentStep::Done(Err(upstream()))
    );
}

#[test]
fn method_without_customer_is_not_created() {
    let (state, _) = create(None);
    fails(
        state,
        IntentReply::CustomerFound(Err(StorageError::ValueNotFound)),
        ApiErrorResponse::CustomerNotFound,
    );
    let (state, _) = create(None);
    fails(
        state,
        IntentReply::CustomerFound(Err(StorageError::Other)),
        ApiErrorResponse::InternalServerError,
    );
}

#[test]
fn creation_failures_are_answered() {
    let (state, _) = create(Some(json()));
    let (state, _) = next(state, IntentReply::CustomerFound(Ok(())));
    fails(
        state,
        IntentReply::BillingEncrypted(Err(OperationFailed)),
        ApiErrorResponse::InternalServerError,
    );
    let (state, _) = create(None);
    let (state, _) = next(state, IntentReply::CustomerFound(Ok(())));
    fails(state, IntentReply::EntryCreated(Err(upstream())), upstream());
    let (state, _) = next(at_the_vault(), vaulted());
    fails(state, IntentReply::UpdatePrepared(Err(upstream())), upstream());
    let (state, _) = next(at_the_vault(), vaulted());
    let (state, _) = next(state, IntentReply::UpdatePrepared(Ok(json())));
    fails(
        state,
        IntentReply::PaymentMethodUpdated(Err(StorageError::Other)),
        ApiErrorResponse::InternalServerError,
    );
}

#[test]
fn intent_is_created_without_the_vault() {
    let (state, request) = asked(payment_method_intent_create(
        PaymentMethodIntentCreate {
            metadata: None,
            billing: None,
            customer_id: text("cus_1"),
        },
        text("mer_1"),
    ));
    assert_eq!(
        request,
        IntentRequest::FindCustomer { customer_id: text("cus_1"), merchant_id: text("mer_1") }
    );
    let (state, request) = next(state, IntentReply::CustomerFound(Ok(())));
    match request {
        IntentRequest::CreateForIntent { billing_address, .. } => assert_eq!(billing_address, None),
        other => panic!("asked for {:?}", other),
    }
    let (state, request) =
        next(state, IntentReply::EntryCreated(Ok(stored(PaymentMethodStatus::AwaitingData))));
    assert_eq!(
        request,
        IntentRequest::GenerateResponse {
            payment_method: stored(PaymentMethodStatus::AwaitingData),
        }
    );
    fails(state, IntentReply::ResponseGenerated(Err(upstream())), upstream());
}

#[test]
fn waiting_method_is_confirmed() {
    let (state, request) = confirm();
    assert_eq!(request, IntentRequest::FindPaymentMethod { payment_method_id: text("pm_1") });
    let waiting = || stored(PaymentMethodStatus::AwaitingData);
    let (state, request) = next(state, IntentReply::PaymentMethodFound(Ok(waiting())));
    assert_eq!(
        request,
        IntentRequest::CheckClientSecret {
            client_secret: text("secret"),
            payment_method: waiting(),
        }
    );
    let (state, request) = next(state, IntentReply::ClientSecretChecked(Ok(false)));
    assert_eq!(
        request,
        IntentRequest::FindCustomer { customer_id: text("cus_1"), merchant_id: text("mer_1") }
    );
    let (state, request) = next(state, IntentReply::CustomerFound(Ok(())));
    assert_eq!(request, IntentRequest::VaultPaymentMethod { payment_method_data: data() });
    succeeds_from_the_vault(state);
}

#[test]
fn unconfirmable_methods_are_refused() {
    let (state, _) = confirm();
    fails(
        state,
        IntentReply::PaymentMethodFound(Err(StorageError::Other)),
        ApiErrorResponse::PaymentMethodNotFound,
    );
    let found = |status| {
        let (state, _) = confirm();
        next(state, IntentReply::PaymentMethodFound(Ok(stored(status)))).0
    };
    fails(
        found(PaymentMethodStatus::AwaitingData),
        IntentReply::ClientSecretChecked(Ok(true)),
        ApiErrorResponse::ClientSecretExpired,
    );
    fails(
        found(PaymentMethodStatus::AwaitingData),
        IntentReply::ClientSecretChecked(Err(upstream())),
        upstream(),
    );
    for status in [
        PaymentMethodStatus::Active,
        PaymentMethodStatus::Inactive,
        PaymentMethodStatus::Processing,
    ] {
        fails(
            found(status),
            IntentReply::ClientSecretChecked(Ok(false)),
            ApiErrorResponse::InvalidRequestData {
                message: text("Invalid pm_id provided: This Payment method cannot be confirmed"),
            },
        );
    }
    let (state, _) = next(
        found(PaymentMethodStatus::AwaitingData),
        IntentReply::ClientSecretChecked(Ok(false)),
    );
    fails(
        state,
        IntentReply::CustomerFound(Err(StorageError::CustomerRedacted)),
        ApiErrorResponse::CustomerRedacted,
    );
}
