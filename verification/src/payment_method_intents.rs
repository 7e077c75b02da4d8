//! Creating and confirming payment methods in the second generation of the API.
//!
//! The flows ask for one outside operation at a time and are resumed with the
//! reply, until they are done.

use vstd::prelude::*;
use vstd::pervasive::unreached;

use crate::enums::{PaymentMethod, PaymentMethodStatus, PaymentMethodType};
use crate::errors::{ApiErrorResponse, OperationFailed, StorageError};
use crate::ids::{generate_id, is_generated_id, ID_LENGTH};
use crate::payment_method_types::{PaymentMethodCreateData, StoredPaymentMethod};
use crate::payment_method_v2::PaymentMethodCreate;
use crate::payout_types::{CustomerId, MerchantId};
use crate::vault::AddVaultResponse;

verus! {

/// A payment method to create of which nothing but its customer is known yet.
#[derive(Debug, PartialEq, Eq)]
pub struct PaymentMethodIntentCreate {
    pub metadata: Option<serde_json::Value>,
    pub billing: Option<serde_json::Value>,
    pub customer_id: CustomerId,
}

/// What a payment method is that was created before.
#[derive(Debug, PartialEq, Eq)]
pub struct PaymentMethodIntentConfirm {
    pub client_secret: String,
    pub payment_method: PaymentMethod,
    pub payment_method_type: PaymentMethodType,
    pub payment_method_data: PaymentMethodCreateData,
}

/// What goes into the vault.
#[derive(Debug, PartialEq, Eq)]
pub struct VaultingPlan {
    pub payment_method_data: PaymentMethodCreateData,
    pub payment_method: PaymentMethod,
    pub payment_method_type: PaymentMethodType,
}

/// The entry that is created.
#[derive(Debug, PartialEq, Eq)]
pub struct NewEntry {
    pub customer_id: CustomerId,
    pub merchant_id: MerchantId,
    pub metadata: Option<serde_json::Value>,
    /// What goes into the vault once the entry is there. Nothing does for a
    /// method of which nothing is known yet.
    pub vaulting: Option<VaultingPlan>,
}

/// Where a flow waits for a reply.
#[derive(Debug, PartialEq, Eq)]
pub enum IntentState {
    FindingMethod { client_secret: String, merchant_id: MerchantId, plan: VaultingPlan },
    CheckingSecret {
        payment_method: StoredPaymentMethod,
        merchant_id: MerchantId,
        plan: VaultingPlan,
    },
    FindingOwner { payment_method: StoredPaymentMethod, plan: VaultingPlan },
    FindingCustomer { entry: NewEntry, billing: Option<serde_json::Value> },
    EncryptingBilling { entry: NewEntry },
    CreatingEntry { vaulting: Option<VaultingPlan> },
    Vaulting { payment_method: StoredPaymentMethod, plan: VaultingPlan },
    PreparingUpdate { payment_method: StoredPaymentMethod },
    UpdatingMethod,
    Deactivating { error: ApiErrorResponse },
    Responding,
}

/// How a stored payment method is changed.
#[derive(Debug, PartialEq, Eq)]
pub enum MethodUpdate {
    /// By what was prepared for it, as JSON.
    Additional(serde_json::Value),
    Status(PaymentMethodStatus),
}

/// An outside operation that a flow asks for.
#[derive(Debug, PartialEq, Eq)]
pub enum IntentRequest {
    FindPaymentMethod { payment_method_id: String },
    /// Check the secret against that of the method, and whether it has expired.
    CheckClientSecret { client_secret: String, payment_method: StoredPaymentMethod },
    FindCustomer { customer_id: CustomerId, merchant_id: MerchantId },
    /// Encrypt the address under the key of the merchant.
    EncryptBilling { billing: serde_json::Value },
    CreateForIntent {
        metadata: Option<serde_json::Value>,
        customer_id: CustomerId,
        payment_method_id: String,
        merchant_id: MerchantId,
        billing_address: Option<Vec<u8>>,
    },
    VaultPaymentMethod { payment_method_data: PaymentMethodCreateData },
    /// Prepare the update that records where the vault keeps the method.
    PrepareUpdate {
        payment_method_data: PaymentMethodCreateData,
        vault_id: Option<String>,
        payment_method_family: Option<PaymentMethod>,
        payment_method_type: Option<PaymentMethodType>,
    },
    UpdatePaymentMethod { payment_method: StoredPaymentMethod, update: MethodUpdate },
    /// Form the response from the method as it is stored.
    GenerateResponse { payment_method: StoredPaymentMethod },
}

/// The outcome of an outside operation.
#[derive(Debug, PartialEq, Eq)]
pub enum IntentReply {
    PaymentMethodFound(Result<StoredPaymentMethod, StorageError>),
    /// Whether the secret has expired.
    ClientSecretChecked(Result<bool, ApiErrorResponse>),
    CustomerFound(Result<(), StorageError>),
    BillingEncrypted(Result<Vec<u8>, OperationFailed>),
    EntryCreated(Result<StoredPaymentMethod, ApiErrorResponse>),
    Vaulted(Result<AddVaultResponse, ApiErrorResponse>),
    UpdatePrepared(Result<serde_json::Value, ApiErrorResponse>),
    PaymentMethodUpdated(Result<StoredPaymentMethod, StorageError>),
    ResponseGenerated(Result<serde_json::Value, ApiErrorResponse>),
}

/// What a flow does next. It ends with the response, as JSON.
#[derive(Debug, PartialEq, Eq)]
pub enum IntentStep {
    Ask(IntentState, IntentRequest),
    Done(Result<serde_json::Value, ApiErrorResponse>),
}

impl IntentState {
    /// Whether the reply is one to what the flow asked for in this state.
    pub open spec fn awaits(self, reply: IntentReply) -> bool {
        match self {
            IntentState::FindingMethod { .. } => reply is PaymentMethodFound,
            IntentState::CheckingSecret { .. } => reply is ClientSecretChecked,
            IntentState::FindingOwner { .. } => reply is CustomerFound,
            IntentState::FindingCustomer { .. } => reply is CustomerFound,
            IntentState::EncryptingBilling { .. } => reply is BillingEncrypted,
            IntentState::CreatingEntry { .. } => reply is EntryCreated,
            IntentState::Vaulting { .. } => reply is Vaulted,
            IntentState::PreparingUpdate { .. } => reply is UpdatePrepared,
            IntentState::UpdatingMethod => reply is PaymentMethodUpdated,
            IntentState::Deactivating { .. } => reply is PaymentMethodUpdated,
            IntentState::Responding => reply is ResponseGenerated,
        }
    }
}

/// The customer of an entry is looked for before it is created.
pub open spec fn entry_started(entry: NewEntry, billing: Option<serde_json::Value>) -> IntentStep {
    IntentStep::Ask(
        IntentState::FindingCustomer { entry, billing },
        IntentRequest::FindCustomer {
            customer_id: entry.customer_id,
            merchant_id: entry.merchant_id,
        },
    )
}

fn start_entry(entry: NewEntry, billing: Option<serde_json::Value>) -> (r: IntentStep)
    ensures
        r == entry_started(entry, billing),
{
    let request = IntentRequest::FindCustomer {
        customer_id: entry.customer_id.clone(),
        merchant_id: entry.merchant_id.clone(),
    };
    IntentStep::Ask(IntentState::FindingCustomer { entry, billing }, request)
}

/// The first step of creating a payment method.
pub open spec fn create_started(
    validation: Result<(), ApiErrorResponse>,
    req: PaymentMethodCreate,
    merchant_id: MerchantId,
) -> IntentStep {
    match validation {
        Err(error) => IntentStep::Done(Err(error)),
        Ok(_) => entry_started(
            NewEntry {
                customer_id: req.customer_id,
                merchant_id,
                metadata: req.metadata,
                vaulting: Some(
                    VaultingPlan {
                        payment_method_data: req.payment_method_data,
                        payment_method: req.payment_method,
                        payment_method_type: req.payment_method_type,
                    },
                ),
            },
            req.billing,
        ),
    }
}

/// Starts to create a payment method, given what came of checking the request.
pub fn create_payment_method(
    validation: Result<(), ApiErrorResponse>,
    req: PaymentMethodCreate,
    merchant_id: MerchantId,
) -> (r: IntentStep)
    ensures
        r == create_started(validation, req, merchant_id),
{
    match validation {
        Err(error) => IntentStep::Done(Err(error)),
        Ok(_) => start_entry(
            NewEntry {
                customer_id: req.customer_id,
                merchant_id,
                metadata: req.metadata,
                vaulting: Some(
                    VaultingPlan {
                        payment_method_data: req.payment_method_data,
                        payment_method: req.payment_method,
                        payment_method_type: req.payment_method_type,
                    },
                ),
            },
            req.billing,
        ),
    }
}

/// The first step of creating a payment method of which nothing is known yet.
pub open spec fn intent_create_started(
    req: PaymentMethodIntentCreate,
    merchant_id: MerchantId,
) -> IntentStep {
    entry_started(
        NewEntry {
            customer_id: req.customer_id,
            merchant_id,
            metadata: req.metadata,
            vaulting: None,
        },
        req.billing,
    )
}

/// Starts to create a payment method of which nothing is known yet.
pub fn payment_method_intent_create(
    req: PaymentMethodIntentCreate,
    merchant_id: MerchantId,
) -> (r: IntentStep)
    ensures
        r == intent_create_started(req, merchant_id),
{
    start_entry(
        NewEntry {
            customer_id: req.customer_id,
            merchant_id,
            metadata: req.metadata,
            vaulting: None,
        },
        req.billing,
    )
}

/// The first step of telling what a payment method is.
pub open spec fn confirm_started(
    validation: Result<(), ApiErrorResponse>,
    req: PaymentMethodIntentConfirm,
    merchant_id: MerchantId,
    pm_id: String,
) -> IntentStep {
    match validation {
        Err(error) => IntentStep::Done(Err(error)),
        Ok(_) => IntentStep::Ask(
            IntentState::FindingMethod {
                client_secret: req.client_secret,
                merchant_id,
                plan: VaultingPlan {
                    payment_method_data: req.payment_method_data,
                    payment_method: req.payment_method,
                    payment_method_type: req.payment_method_type,
                },
            },
            IntentRequest::FindPaymentMethod { payment_method_id: pm_id },
        ),
    }
}

/// Starts to tell what a payment method is that was created before, given what
/// came of checking the request.
pub fn payment_method_intent_confirm(
    validation: Result<(), ApiErrorResponse>,
    req: PaymentMethodIntentConfirm,
    merchant_id: MerchantId,
    pm_id: String,
) -> (r: IntentStep)
    ensures
        r == confirm_started(validation, req, merchant_id, pm_id),
{
    match validation {
        Err(error) => IntentStep::Done(Err(error)),
        Ok(_) => IntentStep::Ask(
            IntentState::FindingMethod {
                client_secret: req.client_secret,
                merchant_id,
                plan: VaultingPlan {
                    payment_method_data: req.payment_method_data,
                    payment_method: req.payment_method,
                    payment_method_type: req.payment_method_type,
                },
            },
            IntentRequest::FindPaymentMethod { payment_method_id: pm_id },
        ),
    }
}

/// Whether the step creates the entry. Which identifier it gets is left to
/// chance.
pub open spec fn is_creating(
    r: IntentStep,
    entry: NewEntry,
    billing_address: Option<Vec<u8>>,
) -> bool {
    r matches IntentStep::Ask(
        state,
        IntentRequest::CreateForIntent {
            metadata,
            customer_id,
            payment_method_id,
            merchant_id,
            billing_address: address,
        },
    ) && {
        &&& state == IntentState::CreatingEntry { vaulting: entry.vaulting }
        &&& metadata == entry.metadata
        &&& customer_id == entry.customer_id
        &&& merchant_id == entry.merchant_id
        &&& address == billing_address
        &&& is_generated_id(payment_method_id@, "pm"@, ID_LENGTH as nat)
    }
}

fn create_entry(entry: NewEntry, billing_address: Option<Vec<u8>>) -> (r: IntentStep)
    ensures
        is_creating(r, entry, billing_address),
{
    IntentStep::Ask(
        IntentState::CreatingEntry { vaulting: entry.vaulting },
        IntentRequest::CreateForIntent {
            metadata: entry.metadata,
            customer_id: entry.customer_id,
            payment_method_id: generate_id(ID_LENGTH, "pm"),
            merchant_id: entry.merchant_id,
            billing_address,
        },
    )
}

/// The method goes into the vault.
pub open spec fn vaulting(payment_method: StoredPaymentMethod, plan: VaultingPlan) -> IntentStep {
    IntentStep::Ask(
        IntentState::Vaulting { payment_method, plan },
        IntentRequest::VaultPaymentMethod { payment_method_data: plan.payment_method_data },
    )
}

fn put_into_vault(payment_method: StoredPaymentMethod, plan: VaultingPlan) -> (r: IntentStep)
    ensures
        r == vaulting(payment_method, plan),
{
    let payment_method_data = plan.payment_method_data.clone();
    IntentStep::Ask(
        IntentState::Vaulting { payment_method, plan },
        IntentRequest::VaultPaymentMethod { payment_method_data },
    )
}

/// What a client is told who confirms a method that does not wait for it.
pub open spec fn not_confirmable_message() -> Seq<char> {
    "Invalid pm_id provided: This Payment method cannot be confirmed"@
}

/// Only a method whose secret is still valid and that waits for its data is
/// confirmed.
pub open spec fn is_after_secret_check(
    r: IntentStep,
    payment_method: StoredPaymentMethod,
    merchant_id: MerchantId,
    plan: VaultingPlan,
    checked: Result<bool, ApiErrorResponse>,
) -> bool {
    match checked {
        Err(error) => r == IntentStep::Done(Err(error)),
        Ok(true) => r == IntentStep::Done(Err(ApiErrorResponse::ClientSecretExpired)),
        Ok(false) => if payment_method.status == PaymentMethodStatus::AwaitingData {
            r == IntentStep::Ask(
                IntentState::FindingOwner { payment_method, plan },
                IntentRequest::FindCustomer {
                    customer_id: payment_method.customer_id,
                    merchant_id,
                },
            )
        } else {
            r matches IntentStep::Done(Err(ApiErrorResponse::InvalidRequestData { message }))
                && message@ == not_confirmable_message()
        },
    }
}

fn after_secret_check(
    payment_method: StoredPaymentMethod,
    merchant_id: MerchantId,
    plan: VaultingPlan,
    checked: Result<bool, ApiErrorResponse>,
) -> (r: IntentStep)
    ensures
        is_after_secret_check(r, payment_method, merchant_id, plan, checked),
{
    match checked {
        Err(error) => IntentStep::Done(Err(error)),
        Ok(true) => IntentStep::Done(Err(ApiErrorResponse::ClientSecretExpired)),
        Ok(false) => if payment_method.status == PaymentMethodStatus::AwaitingData {
            let customer_id = payment_method.customer_id.clone();
            IntentStep::Ask(
                IntentState::FindingOwner { payment_method, plan },
                IntentRequest::FindCustomer { customer_id, merchant_id },
            )
        } else {
            IntentStep::Done(
                Err(
                    ApiErrorResponse::InvalidRequestData {
                        message: "Invalid pm_id provided: This Payment method cannot be confirmed".to_owned(),
                    },
                ),
            )
        },
    }
}

/// A method that the vault keeps is updated by where it is kept; one that the
/// vault refused is deactivated.
pub open spec fn after_vaulting(
    payment_method: StoredPaymentMethod,
    plan: VaultingPlan,
    vaulted: Result<AddVaultResponse, ApiErrorResponse>,
) -> IntentStep {
    match vaulted {
        Ok(response) => IntentStep::Ask(
            IntentState::PreparingUpdate { payment_method },
            IntentRequest::PrepareUpdate {
                payment_method_data: plan.payment_method_data,
                vault_id: Some(response.vault_id),
                payment_method_family: Some(plan.payment_method),
                payment_method_type: Some(plan.payment_method_type),
            },
        ),
        Err(error) => IntentStep::Ask(
            IntentState::Deactivating { error },
            IntentRequest::UpdatePaymentMethod {
                payment_method,
                update: MethodUpdate::Status(PaymentMethodStatus::Inactive),
            },
        ),
    }
}

fn settle_vaulting(
    payment_method: StoredPaymentMethod,
    plan: VaultingPlan,
    vaulted: Result<AddVaultResponse, ApiErrorResponse>,
) -> (r: IntentStep)
    ensures
        r == after_vaulting(payment_method, plan, vaulted),
{
    match vaulted {
        Ok(response) => IntentStep::Ask(
            IntentState::PreparingUpdate { payment_method },
            IntentRequest::PrepareUpdate {
                payment_method_data: plan.payment_method_data,
                vault_id: Some(response.vault_id),
                payment_method_family: Some(plan.payment_method),
                payment_method_type: Some(plan.payment_method_type),
            },
        ),
        Err(error) => IntentStep::Ask(
            IntentState::Deactivating { error },
            IntentRequest::UpdatePaymentMethod {
                payment_method,
                update: MethodUpdate::Status(PaymentMethodStatus::Inactive),
            },
        ),
    }
}

/// The response is formed.
pub open spec fn responding(payment_method: StoredPaymentMethod) -> IntentStep {
    IntentStep::Ask(
        IntentState::Responding,
        IntentRequest::GenerateResponse { payment_method },
    )
}

/// What a flow does in `state` on `reply`.
pub open spec fn intent_resumed(state: IntentState, reply: IntentReply, r: IntentStep) -> bool {
    match (state, reply) {
        (
            IntentState::FindingMethod { client_secret, merchant_id, plan },
            IntentReply::PaymentMethodFound(found),
        ) => r == (match found {
            Err(_) => IntentStep::Done(Err(ApiErrorResponse::PaymentMethodNotFound)),
            Ok(payment_method) => IntentStep::Ask(
                IntentState::CheckingSecret { payment_method, merchant_id, plan },
                IntentRequest::CheckClientSecret { client_secret, payment_method },
            ),
        }),
        (
            IntentState::CheckingSecret { payment_method, merchant_id, plan },
            IntentReply::ClientSecretChecked(checked),
        ) => is_after_secret_check(r, payment_method, merchant_id, plan, checked),
        (
            IntentState::FindingOwner { payment_method, plan },
            IntentReply::CustomerFound(found),
        ) => r == (match found {
            Err(error) => IntentStep::Done(
                Err(error.not_found_response(ApiErrorResponse::CustomerNotFound)),
            ),
            Ok(_) => vaulting(payment_method, plan),
        }),
        (
            IntentState::FindingCustomer { entry, billing },
            IntentReply::CustomerFound(found),
        ) => match found {
            Err(error) => r == IntentStep::Done(
                Err(error.not_found_response(ApiErrorResponse::CustomerNotFound)),
            ),
            Ok(_) => match billing {
                Some(billing) => r == IntentStep::Ask(
                    IntentState::EncryptingBilling { entry },
                    IntentRequest::EncryptBilling { billing },
                ),
                None => is_creating(r, entry, None),
            },
        },
        (
            IntentState::EncryptingBilling { entry },
            IntentReply::BillingEncrypted(encrypted),
        ) => match encrypted {
            Err(_) => r == IntentStep::Done(Err(ApiErrorResponse::InternalServerError)),
            Ok(bytes) => is_creating(r, entry, Some(bytes)),
        },
        (
            IntentState::CreatingEntry { vaulting: planned },
            IntentReply::EntryCreated(created),
        ) => r == (match created {
            Err(error) => IntentStep::Done(Err(error)),
            Ok(payment_method) => match planned {
                Some(plan) => vaulting(payment_method, plan),
                None => responding(payment_method),
            },
        }),
        (
            IntentState::Vaulting { payment_method, plan },
            IntentReply::Vaulted(vaulted),
        ) => r == after_vaulting(payment_method, plan, vaulted),
        (
            IntentState::PreparingUpdate { payment_method },
            IntentReply::UpdatePrepared(prepared),
        ) => r == (match prepared {
            Err(error) => IntentStep::Done(Err(error)),
            Ok(update) => IntentStep::Ask(
                IntentState::UpdatingMethod,
                IntentRequest::UpdatePaymentMethod {
                    payment_method,
                    update: MethodUpdate::Additional(update),
                },
            ),
        }),
        (IntentState::UpdatingMethod, IntentReply::PaymentMethodUpdated(updated)) => r == (
        match updated {
            Err(_) => IntentStep::Done(Err(ApiErrorResponse::InternalServerError)),
            Ok(payment_method) => responding(payment_method),
        }),
        (IntentState::Deactivating { error }, IntentReply::PaymentMethodUpdated(updated)) => r
            == IntentStep::Done(
            Err(
                match updated {
                    Err(_) => ApiErrorResponse::InternalServerError,
                    Ok(_) => error,
                },
            ),
        ),
        (IntentState::Responding, IntentReply::ResponseGenerated(generated)) => r
            == IntentStep::Done(generated),
        _ => false,
    }
}

/// Goes on with a flow once the reply to what it asked for is there.
pub fn resume_payment_method_intent(state: IntentState, reply: IntentReply) -> (r: IntentStep)
    requires
        state.awaits(reply),
    ensures
        intent_resumed(state, reply, r),
{
    match (state, reply) {
        (
            IntentState::FindingMethod { client_secret, merchant_id, plan },
            IntentReply::PaymentMethodFound(found),
        ) => match found {
            Err(_) => IntentStep::Done(Err(ApiErrorResponse::PaymentMethodNotFound)),
            Ok(payment_method) => {
                let request = IntentRequest::CheckClientSecret {
                    client_secret,
                    payment_method: payment_method.clone(),
                };
                IntentStep::Ask(
                    IntentState::CheckingSecret { payment_method, merchant_id, plan },
                    request,
                )
            },
        },
        (
            IntentState::CheckingSecret { payment_method, merchant_id, plan },
            IntentReply::ClientSecretChecked(checked),
        ) => after_secret_check(payment_method, merchant_id, plan, checked),
        (
            IntentState::FindingOwner { payment_method, plan },
            IntentReply::CustomerFound(found),
        ) => match found {
            Err(error) => IntentStep::Done(
                Err(error.to_not_found_response(ApiErrorResponse::CustomerNotFound)),
            ),
            Ok(_) => put_into_vault(payment_method, plan),
        },
        (
            IntentState::FindingCustomer { entry, billing },
            IntentReply::CustomerFound(found),
        ) => match found {
            Err(error) => IntentStep::Done(
                Err(error.to_not_found_response(ApiErrorResponse::CustomerNotFound)),
            ),
            Ok(_) => match billing {
                Some(billing) => IntentStep::Ask(
                    IntentState::EncryptingBilling { entry },
                    IntentRequest::EncryptBilling { billing },
                ),
                None => create_entry(entry, None),
            },
        },
        (
            IntentState::EncryptingBilling { entry },
            IntentReply::BillingEncrypted(encrypted),
        ) => match encrypted {
            Err(_) => IntentStep::Done(Err(ApiErrorResponse::InternalServerError)),
            Ok(bytes) => create_entry(entry, Some(bytes)),
        },
        (
            IntentState::CreatingEntry { vaulting: planned },
            IntentReply::EntryCreated(created),
        ) => match created {
            Err(error) => IntentStep::Done(Err(error)),
            Ok(payment_method) => match planned {
                Some(plan) => put_into_vault(payment_method, plan),
                None => IntentStep::Ask(
                    IntentState::Responding,
                    IntentRequest::GenerateResponse { payment_method },
                ),
            },
        },
        (
            IntentState::Vaulting { payment_method, plan },
            IntentReply::Vaulted(vaulted),
        ) => settle_vaulting(payment_method, plan, vaulted),
        (
            IntentState::PreparingUpdate { payment_method },
            IntentReply::UpdatePrepared(prepared),
        ) => match prepared {
            Err(error) => IntentStep::Done(Err(error)),
            Ok(update) => IntentStep::Ask(
                IntentState::UpdatingMethod,
                IntentRequest::UpdatePaymentMethod {
                    payment_method,
                    update: MethodUpdate::Additional(update),
                },
            ),
        },
        (IntentState::UpdatingMethod, IntentReply::PaymentMethodUpdated(updated)) => match updated {
            Err(_) => IntentStep::Done(Err(ApiErrorResponse::InternalServerError)),
            Ok(payment_method) => IntentStep::Ask(
                IntentState::Responding,
                IntentRequest::GenerateResponse { payment_method },
            ),
        },
        (IntentState::Deactivating { error }, IntentReply::PaymentMethodUpdated(updated)) =>
            match updated {
                Err(_) => IntentStep::Done(Err(ApiErrorResponse::InternalServerError)),
                Ok(_) => IntentStep::Done(Err(error)),
            },
        (IntentState::Responding, IntentReply::ResponseGenerated(generated)) => {
            IntentStep::Done(generated)
        },
        _ => unreached(),
    }
}

} // verus!
