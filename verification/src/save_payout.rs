//! Keeping the destination of a payout in the locker.
//!
//! The flow asks for one outside operation at a time and is resumed with the
//! reply, until it is done.

use vstd::prelude::*;
use vstd::pervasive::unreached;

use crate::errors::{ApiErrorResponse, OperationFailed, StorageError};
use crate::ids::{generate_id, is_generated_id, ID_LENGTH};
use crate::locker::{
    Card, DataDuplicationCheck, StoreCardReq, StoreCardRespPayload, StoreGenericReq, StoreLockerReq,
};
use crate::outside::{encode_hex, hex_of};
use crate::payment_method_types::{
    CardDetail, CardDetailsPaymentMethod, CardInfo, PaymentMethodCreate, StoredPaymentMethod,
};
use crate::payout_types::{CardPayout, CustomerId, MerchantId, PayoutAttempt, PayoutData,
    PayoutMethodData, Payouts};

verus! {

/// What the flow was started with.
#[derive(Debug, PartialEq, Eq)]
pub struct SaveContext {
    pub payout_data: PayoutData,
    pub payout_method_data: PayoutMethodData,
    pub merchant_id: MerchantId,
    /// For how many seconds the locker keeps what it is given.
    pub ttl_for_storage_in_secs: i64,
}

/// What the flow knows once the locker has kept the destination.
#[derive(Debug, PartialEq, Eq)]
pub struct SavedInLocker {
    pub context: SaveContext,
    pub locker_request: StoreLockerReq,
    pub card_reference: String,
}

/// What becomes of the table of payment methods.
#[derive(Debug, PartialEq, Eq)]
pub enum TablePlan {
    /// The destination is new and gets an entry.
    Insert,
    /// The destination has this entry, and what is kept beside it has changed.
    UpdateMetadata(StoredPaymentMethod),
    /// The destination has an entry that stays as it is.
    Keep,
}

/// Where the flow waits for a reply.
#[derive(Debug, PartialEq, Eq)]
pub enum SaveState {
    EncryptingMethod { context: SaveContext },
    Storing { context: SaveContext, locker_request: StoreLockerReq },
    FindingById { saved: SavedInLocker, check: DataDuplicationCheck },
    FindingByLockerId { saved: SavedInLocker, check: DataDuplicationCheck },
    FetchingCardInfo { saved: SavedInLocker, plan: TablePlan, card: CardPayout },
    EncryptingCard { saved: SavedInLocker, plan: TablePlan, entry: PaymentMethodCreate },
    CreatingEntry { saved: SavedInLocker },
    DeletingFromLocker {
        saved: SavedInLocker,
        existing: StoredPaymentMethod,
        encrypted: Option<Vec<u8>>,
    },
    StoringAgain {
        saved: SavedInLocker,
        existing: StoredPaymentMethod,
        encrypted: Option<Vec<u8>>,
    },
    DeletingEntry { context: SaveContext },
    UpdatingEntry { saved: SavedInLocker },
    UpdatingPayout { context: SaveContext },
}

/// An outside operation that the flow asks for.
#[derive(Debug, PartialEq, Eq)]
pub enum SaveRequest {
    /// Encrypt the destination, written as JSON, under the key of the merchant.
    EncryptMethod { payout_method_data: PayoutMethodData },
    /// Hand the request to the card vault.
    CallLocker { request: StoreLockerReq, customer_id: CustomerId },
    FindPaymentMethod { payment_method_id: String },
    FindPaymentMethodByLockerId { locker_ref: String },
    GetCardInfo { card_isin: String },
    /// Encrypt the details under the key of the merchant.
    EncryptCard { details: CardDetailsPaymentMethod },
    CreatePaymentMethod {
        entry: PaymentMethodCreate,
        customer_id: CustomerId,
        payment_method_id: String,
        locker_id: Option<String>,
        merchant_id: MerchantId,
        payment_method_data: Option<Vec<u8>>,
    },
    DeleteCardFromLocker {
        customer_id: CustomerId,
        merchant_id: MerchantId,
        card_reference: String,
    },
    DeletePaymentMethod { merchant_id: MerchantId, payment_method_id: String },
    UpdatePaymentMethod {
        payment_method: StoredPaymentMethod,
        payment_method_data: Option<Vec<u8>>,
    },
    UpdatePayout { payouts: Payouts, payout_method_id: String, payout_attempt: PayoutAttempt },
}

/// The outcome of an outside operation.
#[derive(Debug, PartialEq, Eq)]
pub enum SaveReply {
    /// Nothing where the destination could not be written as JSON.
    MethodEncrypted(Result<Option<Vec<u8>>, OperationFailed>),
    LockerCalled(Result<StoreCardRespPayload, OperationFailed>),
    PaymentMethodFound(Result<StoredPaymentMethod, StorageError>),
    CardInfoFetched(Result<Option<CardInfo>, StorageError>),
    CardEncrypted(Result<Vec<u8>, OperationFailed>),
    PaymentMethodCreated(Result<(), ApiErrorResponse>),
    CardDeletedFromLocker(Result<(), ApiErrorResponse>),
    PaymentMethodDeleted(Result<(), StorageError>),
    PaymentMethodUpdated(Result<(), StorageError>),
    PayoutUpdated(Result<Payouts, StorageError>),
}

/// How the flow ended, and the payout as it is then.
#[derive(Debug, PartialEq, Eq)]
pub struct SaveOutcome {
    pub payout_data: PayoutData,
    pub result: Result<(), ApiErrorResponse>,
}

/// What the flow does next.
#[derive(Debug, PartialEq, Eq)]
pub enum SaveStep {
    Ask(SaveState, SaveRequest),
    Done(SaveOutcome),
}

impl SaveState {
    /// Whether the reply is one to what the flow asked for in this state.
    pub open spec fn awaits(self, reply: SaveReply) -> bool {
        match self {
            SaveState::EncryptingMethod { .. } => reply is MethodEncrypted,
            SaveState::Storing { .. } => reply is LockerCalled,
            SaveState::FindingById { .. } => reply is PaymentMethodFound,
            SaveState::FindingByLockerId { .. } => reply is PaymentMethodFound,
            SaveState::FetchingCardInfo { .. } => reply is CardInfoFetched,
            SaveState::EncryptingCard { .. } => reply is CardEncrypted,
            SaveState::CreatingEntry { .. } => reply is PaymentMethodCreated,
            SaveState::DeletingFromLocker { .. } => reply is CardDeletedFromLocker,
            SaveState::StoringAgain { .. } => reply is LockerCalled,
            SaveState::DeletingEntry { .. } => reply is PaymentMethodDeleted,
            SaveState::UpdatingEntry { .. } => reply is PaymentMethodUpdated,
            SaveState::UpdatingPayout { .. } => reply is PayoutUpdated,
        }
    }

    /// What the flow was started with.
    pub open spec fn context(self) -> SaveContext {
        match self {
            SaveState::EncryptingMethod { context } => context,
            SaveState::Storing { context, .. } => context,
            SaveState::FindingById { saved, .. } => saved.context,
            SaveState::FindingByLockerId { saved, .. } => saved.context,
            SaveState::FetchingCardInfo { saved, .. } => saved.context,
            SaveState::EncryptingCard { saved, .. } => saved.context,
            SaveState::CreatingEntry { saved } => saved.context,
            SaveState::DeletingFromLocker { saved, .. } => saved.context,
            SaveState::StoringAgain { saved, .. } => saved.context,
            SaveState::DeletingEntry { context } => context,
            SaveState::UpdatingEntry { saved } => saved.context,
            SaveState::UpdatingPayout { context } => context,
        }
    }
}

impl SaveContext {
    /// The customer of the attempt that is under way.
    pub open spec fn customer_id(self) -> CustomerId {
        self.payout_data.payout_attempt.customer_id
    }
}

/// The flow gives up, and the payout stays as it was.
pub open spec fn failed_with(context: SaveContext, error: ApiErrorResponse) -> SaveStep {
    SaveStep::Done(SaveOutcome { payout_data: context.payout_data, result: Err(error) })
}

fn fail(context: SaveContext, error: ApiErrorResponse) -> (r: SaveStep)
    ensures
        r == failed_with(context, error),
{
    SaveStep::Done(SaveOutcome { payout_data: context.payout_data, result: Err(error) })
}

/// The locker is asked to keep the destination.
pub open spec fn storing(context: SaveContext, locker_request: StoreLockerReq) -> SaveStep {
    SaveStep::Ask(
        SaveState::Storing { context, locker_request },
        SaveRequest::CallLocker { request: locker_request, customer_id: context.customer_id() },
    )
}

fn store(context: SaveContext, locker_request: StoreLockerReq) -> (r: SaveStep)
    ensures
        r == storing(context, locker_request),
{
    let customer_id = context.payout_data.payout_attempt.customer_id.clone();
    let request = locker_request.clone();
    SaveStep::Ask(
        SaveState::Storing { context, locker_request },
        SaveRequest::CallLocker { request, customer_id },
    )
}

/// The request to keep a card: the card as it was handed in, for the customer
/// of the attempt.
pub open spec fn card_request(context: SaveContext, card: CardPayout) -> StoreLockerReq {
    StoreLockerReq::LockerCard(
        StoreCardReq {
            merchant_id: context.merchant_id,
            merchant_customer_id: context.customer_id(),
            requestor_card_reference: None,
            card: Card {
                card_number: card.card_number,
                name_on_card: card.card_holder_name,
                card_exp_month: card.expiry_month,
                card_exp_year: card.expiry_year,
                card_brand: None,
                card_isin: None,
                nick_name: None,
            },
            ttl: context.ttl_for_storage_in_secs,
        },
    )
}

/// Whether the request is to keep these encrypted bytes, in hexadecimal, for
/// the customer of the attempt.
pub open spec fn is_generic_request(
    request: StoreLockerReq,
    context: SaveContext,
    encrypted: Seq<u8>,
) -> bool {
    request matches StoreLockerReq::LockerGeneric(generic) && {
        &&& generic.merchant_id == context.merchant_id
        &&& generic.merchant_customer_id == context.customer_id()
        &&& generic.enc_data@ == hex_of(encrypted)
        &&& generic.ttl == context.ttl_for_storage_in_secs
    }
}

/// The first step: a card goes to the locker as it is, anything else is
/// encrypted first.
pub open spec fn save_started(context: SaveContext) -> SaveStep {
    match context.payout_method_data {
        PayoutMethodData::Card(card) => storing(context, card_request(context, card)),
        _ => SaveStep::Ask(
            SaveState::EncryptingMethod { context },
            SaveRequest::EncryptMethod { payout_method_data: context.payout_method_data },
        ),
    }
}

/// Starts to keep the destination of a payout in the locker.
pub fn save_payout_data_to_locker(
    payout_data: PayoutData,
    payout_method_data: PayoutMethodData,
    merchant_id: MerchantId,
    ttl_for_storage_in_secs: i64,
) -> (r: SaveStep)
    ensures
        r == save_started(
            SaveContext { payout_data, payout_method_data, merchant_id, ttl_for_storage_in_secs },
        ),
{
    let method = payout_method_data.clone();
    let context = SaveContext {
        payout_data,
        payout_method_data,
        merchant_id,
        ttl_for_storage_in_secs,
    };
    match method {
        PayoutMethodData::Card(card) => {
            let request = StoreLockerReq::LockerCard(
                StoreCardReq {
                    merchant_id: context.merchant_id.clone(),
                    merchant_customer_id: context.payout_data.payout_attempt.customer_id.clone(),
                    requestor_card_reference: None,
                    card: Card {
                        card_number: card.card_number,
                        name_on_card: card.card_holder_name,
                        card_exp_month: card.expiry_month,
                        card_exp_year: card.expiry_year,
                        card_brand: None,
                        card_isin: None,
                        nick_name: None,
                    },
                    ttl: context.ttl_for_storage_in_secs,
                },
            );
            store(context, request)
        },
        _ => SaveStep::Ask(
            SaveState::EncryptingMethod { context },
            SaveRequest::EncryptMethod { payout_method_data: method },
        ),
    }
}

/// The payout is told where its destination is kept. This is the last request
/// of every run that succeeds.
pub open spec fn finishing(saved: SavedInLocker) -> SaveStep {
    SaveStep::Ask(
        SaveState::UpdatingPayout { context: saved.context },
        SaveRequest::UpdatePayout {
            payouts: saved.context.payout_data.payouts,
            payout_method_id: saved.card_reference,
            payout_attempt: saved.context.payout_data.payout_attempt,
        },
    )
}

fn finish(saved: SavedInLocker) -> (r: SaveStep)
    ensures
        r == finishing(saved),
{
    let request = SaveRequest::UpdatePayout {
        payouts: saved.context.payout_data.payouts.clone(),
        payout_method_id: saved.card_reference,
        payout_attempt: saved.context.payout_data.payout_attempt.clone(),
    };
    SaveStep::Ask(SaveState::UpdatingPayout { context: saved.context }, request)
}

/// Whether the step brings the table of payment methods up to date. Which
/// identifier a new entry gets is left to chance.
pub open spec fn is_applied(
    r: SaveStep,
    saved: SavedInLocker,
    plan: TablePlan,
    entry: PaymentMethodCreate,
    encrypted: Option<Vec<u8>>,
) -> bool {
    match plan {
        TablePlan::Insert => {
            r matches SaveStep::Ask(_, SaveRequest::CreatePaymentMethod { payment_method_id, .. })
                && {
                &&& is_generated_id(payment_method_id@, "pm"@, ID_LENGTH as nat)
                &&& r == creating(saved, entry, encrypted, payment_method_id)
            }
        },
        TablePlan::UpdateMetadata(existing) => r == SaveStep::Ask(
            SaveState::DeletingFromLocker { saved, existing, encrypted },
            SaveRequest::DeleteCardFromLocker {
                customer_id: saved.context.customer_id(),
                merchant_id: saved.context.merchant_id,
                card_reference: existing.card_reference(),
            },
        ),
        TablePlan::Keep => r == finishing(saved),
    }
}

fn apply(
    saved: SavedInLocker,
    plan: TablePlan,
    entry: PaymentMethodCreate,
    encrypted: Option<Vec<u8>>,
) -> (r: SaveStep)
    ensures
        is_applied(r, saved, plan, entry, encrypted),
{
    match plan {
        TablePlan::Insert => create(saved, entry, encrypted, generate_id(ID_LENGTH, "pm")),
        TablePlan::UpdateMetadata(existing) => {
            let request = SaveRequest::DeleteCardFromLocker {
                customer_id: saved.context.payout_data.payout_attempt.customer_id.clone(),
                merchant_id: saved.context.merchant_id.clone(),
                card_reference: existing.to_card_reference(),
            };
            SaveStep::Ask(SaveState::DeletingFromLocker { saved, existing, encrypted }, request)
        },
        TablePlan::Keep => finish(saved),
    }
}

/// The entry of a destination that is not a card.
pub open spec fn plain_entry(context: SaveContext) -> PaymentMethodCreate {
    PaymentMethodCreate {
        payment_method: Some(context.payout_method_data.payment_method()),
        payment_method_type: Some(context.payout_method_data.payment_method_type()),
        payment_method_issuer: None,
        payment_method_issuer_code: None,
        bank_transfer: match context.payout_method_data {
            PayoutMethodData::Bank(bank) => Some(bank),
            _ => None,
        },
        card: None,
        wallet: match context.payout_method_data {
            PayoutMethodData::Wallet(wallet) => Some(wallet),
            _ => None,
        },
        metadata: None,
        customer_id: Some(context.customer_id()),
        card_network: None,
        client_secret: None,
        payment_method_data: None,
        billing: None,
        connector_mandate_details: None,
        network_transaction_id: None,
    }
}

fn make_plain_entry(context: &SaveContext) -> (r: PaymentMethodCreate)
    ensures
        r == plain_entry(*context),
{
    PaymentMethodCreate {
        payment_method: Some(context.payout_method_data.to_payment_method()),
        payment_method_type: Some(context.payout_method_data.to_payment_method_type()),
        payment_method_issuer: None,
        payment_method_issuer_code: None,
        bank_transfer: match &context.payout_method_data {
            PayoutMethodData::Bank(bank) => Some(bank.clone()),
            _ => None,
        },
        card: None,
        wallet: match &context.payout_method_data {
            PayoutMethodData::Wallet(wallet) => Some(wallet.clone()),
            _ => None,
        },
        metadata: None,
        customer_id: Some(context.payout_data.payout_attempt.customer_id.clone()),
        card_network: None,
        client_secret: None,
        payment_method_data: None,
        billing: None,
        connector_mandate_details: None,
        network_transaction_id: None,
    }
}

/// Whether the step goes on with the plan: a card that is to be entered, or
/// whose entry is to be updated, has its issuer looked up first.
pub open spec fn is_planned(r: SaveStep, saved: SavedInLocker, plan: TablePlan) -> bool {
    match (saved.context.payout_method_data, plan) {
        (PayoutMethodData::Card(card), TablePlan::Insert | TablePlan::UpdateMetadata(_)) => {
            r matches SaveStep::Ask(state, SaveRequest::GetCardInfo { card_isin }) && {
                &&& state == SaveState::FetchingCardInfo { saved, plan, card }
                &&& card_isin@ == card.card_number.isin()
            }
        },
        _ => is_applied(r, saved, plan, plain_entry(saved.context), None),
    }
}

fn proceed(saved: SavedInLocker, plan: TablePlan) -> (r: SaveStep)
    ensures
        is_planned(r, saved, plan),
{
    let table_changes = match &plan {
        TablePlan::Keep => false,
        _ => true,
    };
    match &saved.context.payout_method_data {
        PayoutMethodData::Card(card) if table_changes => {
            let card = card.clone();
            let card_isin = card.card_number.get_card_isin();
            SaveStep::Ask(
                SaveState::FetchingCardInfo { saved, plan, card },
                SaveRequest::GetCardInfo { card_isin },
            )
        },
        _ => {
            let entry = make_plain_entry(&saved.context);
            apply(saved, plan, entry, None)
        },
    }
}

/// The plan for a destination that the table knows under `existing`: the entry
/// is updated only where the locker reported a change.
pub open spec fn plan_for_existing(
    check: DataDuplicationCheck,
    existing: StoredPaymentMethod,
) -> TablePlan {
    if check == DataDuplicationCheck::MetaDataChanged {
        TablePlan::UpdateMetadata(existing)
    } else {
        TablePlan::Keep
    }
}

fn existing_plan(check: DataDuplicationCheck, existing: StoredPaymentMethod) -> (r: TablePlan)
    ensures
        r == plan_for_existing(check, existing),
{
    if check == DataDuplicationCheck::MetaDataChanged {
        TablePlan::UpdateMetadata(existing)
    } else {
        TablePlan::Keep
    }
}

/// Where the destination could be encrypted, the locker is asked to keep the
/// encrypted bytes.
pub open spec fn is_after_encryption(
    r: SaveStep,
    context: SaveContext,
    encrypted: Result<Option<Vec<u8>>, OperationFailed>,
) -> bool {
    match encrypted {
        Ok(Some(bytes)) => {
            r matches SaveStep::Ask(SaveState::Storing { locker_request, .. }, _) && {
                &&& r == storing(context, locker_request)
                &&& is_generic_request(locker_request, context, bytes@)
            }
        },
        _ => r == failed_with(context, ApiErrorResponse::InternalServerError),
    }
}

fn after_encryption(
    context: SaveContext,
    encrypted: Result<Option<Vec<u8>>, OperationFailed>,
) -> (r: SaveStep)
    ensures
        is_after_encryption(r, context, encrypted),
{
    match encrypted {
        Ok(Some(bytes)) => {
            let request = StoreLockerReq::LockerGeneric(
                StoreGenericReq {
                    merchant_id: context.merchant_id.clone(),
                    merchant_customer_id: context.payout_data.payout_attempt.customer_id.clone(),
                    enc_data: encode_hex(&bytes),
                    ttl: context.ttl_for_storage_in_secs,
                },
            );
            store(context, request)
        },
        _ => fail(context, ApiErrorResponse::InternalServerError),
    }
}

/// Where the locker kept something it did not have, the table gets an entry;
/// otherwise the table is searched for the entry it already has.
pub open spec fn is_after_storing(
    r: SaveStep,
    context: SaveContext,
    locker_request: StoreLockerReq,
    stored: Result<StoreCardRespPayload, OperationFailed>,
) -> bool {
    match stored {
        Err(_) => r == failed_with(context, ApiErrorResponse::InternalServerError),
        Ok(response) => {
            let saved = SavedInLocker {
                context,
                locker_request,
                card_reference: response.card_reference,
            };
            match response.duplication_check {
                None => is_planned(r, saved, TablePlan::Insert),
                Some(check) => r == SaveStep::Ask(
                    SaveState::FindingById { saved, check },
                    SaveRequest::FindPaymentMethod { payment_method_id: response.card_reference },
                ),
            }
        },
    }
}

fn after_storing(
    context: SaveContext,
    locker_request: StoreLockerReq,
    stored: Result<StoreCardRespPayload, OperationFailed>,
) -> (r: SaveStep)
    ensures
        is_after_storing(r, context, locker_request, stored),
{
    match stored {
        Err(_) => fail(context, ApiErrorResponse::InternalServerError),
        Ok(response) => {
            let payment_method_id = response.card_reference.clone();
            let saved = SavedInLocker {
                context,
                locker_request,
                card_reference: response.card_reference,
            };
            match response.duplication_check {
                None => proceed(saved, TablePlan::Insert),
                Some(check) => SaveStep::Ask(
                    SaveState::FindingById { saved, check },
                    SaveRequest::FindPaymentMethod { payment_method_id },
                ),
            }
        },
    }
}

/// Where the reference of the locker names no entry, it is tried as the name
/// that an entry has in the locker.
pub open spec fn is_after_finding_by_id(
    r: SaveStep,
    saved: SavedInLocker,
    check: DataDuplicationCheck,
    found: Result<StoredPaymentMethod, StorageError>,
) -> bool {
    match found {
        Ok(existing) => is_planned(r, saved, plan_for_existing(check, existing)),
        Err(StorageError::ValueNotFound) => r == SaveStep::Ask(
            SaveState::FindingByLockerId { saved, check },
            SaveRequest::FindPaymentMethodByLockerId { locker_ref: saved.card_reference },
        ),
        Err(_) => r == failed_with(saved.context, ApiErrorResponse::InternalServerError),
    }
}

fn after_finding_by_id(
    saved: SavedInLocker,
    check: DataDuplicationCheck,
    found: Result<StoredPaymentMethod, StorageError>,
) -> (r: SaveStep)
    ensures
        is_after_finding_by_id(r, saved, check, found),
{
    match found {
        Ok(existing) => proceed(saved, existing_plan(check, existing)),
        Err(error) => if error.is_db_not_found() {
            let locker_ref = saved.card_reference.clone();
            SaveStep::Ask(
                SaveState::FindingByLockerId { saved, check },
                SaveRequest::FindPaymentMethodByLockerId { locker_ref },
            )
        } else {
            fail(saved.context, ApiErrorResponse::InternalServerError)
        },
    }
}

/// Where the table knows the destination under neither name, it gets an entry.
pub open spec fn is_after_finding_by_locker_id(
    r: SaveStep,
    saved: SavedInLocker,
    check: DataDuplicationCheck,
    found: Result<StoredPaymentMethod, StorageError>,
) -> bool {
    match found {
        Ok(existing) => is_planned(r, saved, plan_for_existing(check, existing)),
        Err(StorageError::ValueNotFound) => is_planned(r, saved, TablePlan::Insert),
        Err(_) => r == failed_with(saved.context, ApiErrorResponse::InternalServerError),
    }
}

fn after_finding_by_locker_id(
    saved: SavedInLocker,
    check: DataDuplicationCheck,
    found: Result<StoredPaymentMethod, StorageError>,
) -> (r: SaveStep)
    ensures
        is_after_finding_by_locker_id(r, saved, check, found),
{
    match found {
        Ok(existing) => proceed(saved, existing_plan(check, existing)),
        Err(error) => if error.is_db_not_found() {
            proceed(saved, TablePlan::Insert)
        } else {
            fail(saved.context, ApiErrorResponse::InternalServerError)
        },
    }
}

/// What is known of the issuer of a card. A failed lookup counts as nothing
/// known.
pub open spec fn known_card_info(fetched: Result<Option<CardInfo>, StorageError>) -> Option<
    CardInfo,
> {
    match fetched {
        Ok(info) => info,
        Err(_) => None,
    }
}

/// The card in the form in which entries hold it.
pub open spec fn card_detail(card: CardPayout) -> CardDetail {
    CardDetail {
        card_number: card.card_number,
        card_exp_month: card.expiry_month,
        card_exp_year: card.expiry_year,
        card_holder_name: card.card_holder_name,
        nick_name: None,
        card_issuing_country: None,
        card_network: None,
        card_issuer: None,
        card_type: None,
    }
}

/// The entry of a card.
pub open spec fn card_entry(
    context: SaveContext,
    card: CardPayout,
    info: Option<CardInfo>,
) -> PaymentMethodCreate {
    PaymentMethodCreate {
        payment_method: Some(context.payout_method_data.payment_method()),
        payment_method_type: Some(context.payout_method_data.payment_method_type()),
        payment_method_issuer: match info {
            Some(known) => known.card_issuer,
            None => None,
        },
        payment_method_issuer_code: None,
        bank_transfer: None,
        card: Some(card_detail(card)),
        wallet: None,
        metadata: None,
        customer_id: Some(context.customer_id()),
        card_network: match info {
            Some(known) => known.card_network,
            None => None,
        },
        client_secret: None,
        payment_method_data: None,
        billing: None,
        connector_mandate_details: None,
        network_transaction_id: None,
    }
}

/// Whether the details are those of the card and of what is known of its
/// issuer. The full number is not among them.
pub open spec fn are_card_details(
    details: CardDetailsPaymentMethod,
    card: CardPayout,
    info: Option<CardInfo>,
) -> bool {
    &&& details.last4_digits matches Some(digits) && digits@ == card.card_number.last4()
    &&& details.card_isin matches Some(digits) && digits@ == card.card_number.isin()
    &&& details.expiry_month == Some(card.expiry_month)
    &&& details.expiry_year == Some(card.expiry_year)
    &&& details.card_holder_name == card.card_holder_name
    &&& details.nick_name is None
    &&& details.saved_to_locker
    &&& match info {
        Some(known) => {
            &&& details.issuer_country == known.card_issuing_country
            &&& details.card_issuer == known.card_issuer
            &&& details.card_network == known.card_network
            &&& details.card_type == known.card_type
        },
        None => {
            &&& details.issuer_country is None
            &&& details.card_issuer is None
            &&& details.card_network is None
            &&& details.card_type is None
        },
    }
}

/// The entry is formed, and the details that are kept beside it are encrypted.
pub open spec fn is_after_card_info(
    r: SaveStep,
    saved: SavedInLocker,
    plan: TablePlan,
    card: CardPayout,
    fetched: Result<Option<CardInfo>, StorageError>,
) -> bool {
    r matches SaveStep::Ask(state, SaveRequest::EncryptCard { details }) && {
        &&& state == SaveState::EncryptingCard {
            saved,
            plan,
            entry: card_entry(saved.context, card, known_card_info(fetched)),
        }
        &&& are_card_details(details, card, known_card_info(fetched))
    }
}

fn after_card_info(
    saved: SavedInLocker,
    plan: TablePlan,
    card: CardPayout,
    fetched: Result<Option<CardInfo>, StorageError>,
) -> (r: SaveStep)
    ensures
        is_after_card_info(r, saved, plan, card, fetched),
{
    let info = match fetched {
        Ok(info) => info,
        Err(_) => None,
    };
    let (card_issuer, card_network, issuer_country, card_type) = match info {
        Some(known) => (
            known.card_issuer,
            known.card_network,
            known.card_issuing_country,
            known.card_type,
        ),
        None => (None, None, None, None),
    };
    let entry = PaymentMethodCreate {
        payment_method: Some(saved.context.payout_method_data.to_payment_method()),
        payment_method_type: Some(saved.context.payout_method_data.to_payment_method_type()),
        payment_method_issuer: card_issuer.clone(),
        payment_method_issuer_code: None,
        bank_transfer: None,
        card: Some(
            CardDetail {
                card_number: card.card_number.clone(),
                card_exp_month: card.expiry_month.clone(),
                card_exp_year: card.expiry_year.clone(),
                card_holder_name: card.card_holder_name.clone(),
                nick_name: None,
                card_issuing_country: None,
                card_network: None,
                card_issuer: None,
                card_type: None,
            },
        ),
        wallet: None,
        metadata: None,
        customer_id: Some(saved.context.payout_data.payout_attempt.customer_id.clone()),
        card_network: card_network.clone(),
        client_secret: None,
        payment_method_data: None,
        billing: None,
        connector_mandate_details: None,
        network_transaction_id: None,
    };
    let details = CardDetailsPaymentMethod {
        last4_digits: Some(card.card_number.get_last4()),
        issuer_country,
        expiry_month: Some(card.expiry_month),
        expiry_year: Some(card.expiry_year),
        nick_name: None,
        card_holder_name: card.card_holder_name,
        card_isin: Some(card.card_number.get_card_isin()),
        card_issuer,
        card_network,
        card_type,
        saved_to_locker: true,
    };
    SaveStep::Ask(
        SaveState::EncryptingCard { saved, plan, entry },
        SaveRequest::EncryptCard { details },
    )
}

/// The entry is created under the identifier that was made up for it, with the
/// reference of the locker.
pub open spec fn creating(
    saved: SavedInLocker,
    entry: PaymentMethodCreate,
    encrypted: Option<Vec<u8>>,
    payment_method_id: String,
) -> SaveStep {
    SaveStep::Ask(
        SaveState::CreatingEntry { saved },
        SaveRequest::CreatePaymentMethod {
            entry,
            customer_id: saved.context.customer_id(),
            payment_method_id,
            locker_id: Some(saved.card_reference),
            merchant_id: saved.context.merchant_id,
            payment_method_data: encrypted,
        },
    )
}

fn create(
    saved: SavedInLocker,
    entry: PaymentMethodCreate,
    encrypted: Option<Vec<u8>>,
    payment_method_id: String,
) -> (r: SaveStep)
    ensures
        r == creating(saved, entry, encrypted, payment_method_id),
{
    let request = SaveRequest::CreatePaymentMethod {
        entry,
        customer_id: saved.context.payout_data.payout_attempt.customer_id.clone(),
        payment_method_id,
        locker_id: Some(saved.card_reference.clone()),
        merchant_id: saved.context.merchant_id.clone(),
        payment_method_data: encrypted,
    };
    SaveStep::Ask(SaveState::CreatingEntry { saved }, request)
}

/// The locker is asked once more to keep the destination, now under the name
/// that it had before.
pub open spec fn storing_again(
    saved: SavedInLocker,
    existing: StoredPaymentMethod,
    encrypted: Option<Vec<u8>>,
) -> SaveStep {
    let request = saved.locker_request.with_card_reference(Some(existing.card_reference()));
    SaveStep::Ask(
        SaveState::StoringAgain {
            saved: SavedInLocker { locker_request: request, ..saved },
            existing,
            encrypted,
        },
        SaveRequest::CallLocker { request, customer_id: saved.context.customer_id() },
    )
}

fn store_again(
    saved: SavedInLocker,
    existing: StoredPaymentMethod,
    encrypted: Option<Vec<u8>>,
) -> (r: SaveStep)
    ensures
        r == storing_again(saved, existing, encrypted),
{
    let mut locker_request = saved.locker_request;
    locker_request.update_requestor_card_reference(Some(existing.to_card_reference()));
    let request = locker_request.clone();
    let customer_id = saved.context.payout_data.payout_attempt.customer_id.clone();
    let saved = SavedInLocker {
        context: saved.context,
        locker_request,
        card_reference: saved.card_reference,
    };
    SaveStep::Ask(
        SaveState::StoringAgain { saved, existing, encrypted },
        SaveRequest::CallLocker { request, customer_id },
    )
}

/// Where the locker lost the destination, its entry is deleted; otherwise what
/// is kept beside the entry is brought up to date.
pub open spec fn after_storing_again(
    saved: SavedInLocker,
    existing: StoredPaymentMethod,
    encrypted: Option<Vec<u8>>,
    stored: Result<StoreCardRespPayload, OperationFailed>,
) -> SaveStep {
    match stored {
        Err(_) => SaveStep::Ask(
            SaveState::DeletingEntry { context: saved.context },
            SaveRequest::DeletePaymentMethod {
                merchant_id: saved.context.merchant_id,
                payment_method_id: existing.payment_method_id,
            },
        ),
        Ok(_) => SaveStep::Ask(
            SaveState::UpdatingEntry { saved },
            SaveRequest::UpdatePaymentMethod {
                payment_method: existing,
                payment_method_data: encrypted,
            },
        ),
    }
}

fn settle_second_store(
    saved: SavedInLocker,
    existing: StoredPaymentMethod,
    encrypted: Option<Vec<u8>>,
    stored: Result<StoreCardRespPayload, OperationFailed>,
) -> (r: SaveStep)
    ensures
        r == after_storing_again(saved, existing, encrypted, stored),
{
    match stored {
        Err(_) => {
            let merchant_id = saved.context.merchant_id.clone();
            SaveStep::Ask(
                SaveState::DeletingEntry { context: saved.context },
                SaveRequest::DeletePaymentMethod {
                    merchant_id,
                    payment_method_id: existing.payment_method_id,
                },
            )
        },
        Ok(_) => SaveStep::Ask(
            SaveState::UpdatingEntry { saved },
            SaveRequest::UpdatePaymentMethod {
                payment_method: existing,
                payment_method_data: encrypted,
            },
        ),
    }
}

/// The flow succeeded, with the payout as it was updated.
pub open spec fn is_saved(r: SaveStep, context: SaveContext, payouts: Payouts) -> bool {
    r matches SaveStep::Done(outcome) && {
        &&& outcome.result is Ok
        &&& outcome.payout_data == PayoutData {
            payouts,
            payout_attempt: context.payout_data.payout_attempt,
        }
    }
}

/// What the flow does in `state` on `reply`.
pub open spec fn save_resumed(state: SaveState, reply: SaveReply, r: SaveStep) -> bool {
    match (state, reply) {
        (SaveState::EncryptingMethod { context }, SaveReply::MethodEncrypted(encrypted)) =>
            is_after_encryption(r, context, encrypted),
        (SaveState::Storing { context, locker_request }, SaveReply::LockerCalled(stored)) =>
            is_after_storing(r, context, locker_request, stored),
        (SaveState::FindingById { saved, check }, SaveReply::PaymentMethodFound(found)) =>
            is_after_finding_by_id(r, saved, check, found),
        (SaveState::FindingByLockerId { saved, check }, SaveReply::PaymentMethodFound(found)) =>
            is_after_finding_by_locker_id(r, saved, check, found),
        (SaveState::FetchingCardInfo { saved, plan, card }, SaveReply::CardInfoFetched(fetched)) =>
            is_after_card_info(r, saved, plan, card, fetched),
        (SaveState::EncryptingCard { saved, plan, entry }, SaveReply::CardEncrypted(encrypted)) =>
            match encrypted {
                Ok(bytes) => is_applied(r, saved, plan, entry, Some(bytes)),
                Err(_) => r == failed_with(saved.context, ApiErrorResponse::InternalServerError),
            },
        (SaveState::CreatingEntry { saved }, SaveReply::PaymentMethodCreated(created)) =>
            r == (match created {
                Ok(_) => finishing(saved),
                Err(error) => failed_with(saved.context, error),
            }),
        (
            SaveState::DeletingFromLocker { saved, existing, encrypted },
            SaveReply::CardDeletedFromLocker(deleted),
        ) => r == (match deleted {
            Ok(_) => storing_again(saved, existing, encrypted),
            Err(error) => failed_with(saved.context, error),
        }),
        (
            SaveState::StoringAgain { saved, existing, encrypted },
            SaveReply::LockerCalled(stored),
        ) => r == after_storing_again(saved, existing, encrypted, stored),
        (SaveState::DeletingEntry { context }, SaveReply::PaymentMethodDeleted(deleted)) =>
            r == failed_with(
                context,
                match deleted {
                    Ok(_) => ApiErrorResponse::InternalServerError,
                    Err(error) => error.not_found_response(ApiErrorResponse::PaymentMethodNotFound),
                },
            ),
        (SaveState::UpdatingEntry { saved }, SaveReply::PaymentMethodUpdated(updated)) =>
            r == (match updated {
                Ok(_) => finishing(saved),
                Err(_) => failed_with(saved.context, ApiErrorResponse::InternalServerError),
            }),
        (SaveState::UpdatingPayout { context }, SaveReply::PayoutUpdated(updated)) =>
            match updated {
                Ok(payouts) => is_saved(r, context, payouts),
                Err(_) => r == failed_with(context, ApiErrorResponse::InternalServerError),
            },
        _ => false,
    }
}

/// Goes on with the flow once the reply to what it asked for is there.
pub fn resume_save_payout_data_to_locker(state: SaveState, reply: SaveReply) -> (r: SaveStep)
    requires
        state.awaits(reply),
    ensures
        save_resumed(state, reply, r),
{
    match (state, reply) {
        (SaveState::EncryptingMethod { context }, SaveReply::MethodEncrypted(encrypted)) => {
            after_encryption(context, encrypted)
        },
        (SaveState::Storing { context, locker_request }, SaveReply::LockerCalled(stored)) => {
            after_storing(context, locker_request, stored)
        },
        (SaveState::FindingById { saved, check }, SaveReply::PaymentMethodFound(found)) => {
            after_finding_by_id(saved, check, found)
        },
        (SaveState::FindingByLockerId { saved, check }, SaveReply::PaymentMethodFound(found)) => {
            after_finding_by_locker_id(saved, check, found)
        },
        (SaveState::FetchingCardInfo { saved, plan, card }, SaveReply::CardInfoFetched(fetched)) => {
            after_card_info(saved, plan, card, fetched)
        },
        (SaveState::EncryptingCard { saved, plan, entry }, SaveReply::CardEncrypted(encrypted)) => {
            match encrypted {
                Ok(bytes) => apply(saved, plan, entry, Some(bytes)),
                Err(_) => fail(saved.context, ApiErrorResponse::InternalServerError),
            }
        },
        (SaveState::CreatingEntry { saved }, SaveReply::PaymentMethodCreated(created)) => {
            match created {
                Ok(_) => finish(saved),
                Err(error) => fail(saved.context, error),
            }
        },
        (
            SaveState::DeletingFromLocker { saved, existing, encrypted },
            SaveReply::CardDeletedFromLocker(deleted),
        ) => match deleted {
            Ok(_) => store_again(saved, existing, encrypted),
            Err(error) => fail(saved.context, error),
        },
        (
            SaveState::StoringAgain { saved, existing, encrypted },
            SaveReply::LockerCalled(stored),
        ) => settle_second_store(saved, existing, encrypted, stored),
        (SaveState::DeletingEntry { context }, SaveReply::PaymentMethodDeleted(deleted)) => {
            match deleted {
                Ok(_) => fail(context, ApiErrorResponse::InternalServerError),
                Err(error) => {
                    let answer = error.to_not_found_response(
                        ApiErrorResponse::PaymentMethodNotFound,
                    );
                    fail(context, answer)
                },
            }
        },
        (SaveState::UpdatingEntry { saved }, SaveReply::PaymentMethodUpdated(updated)) => {
            match updated {
                Ok(_) => finish(saved),
                Err(_) => fail(saved.context, ApiErrorResponse::InternalServerError),
            }
        },
        (SaveState::UpdatingPayout { context }, SaveReply::PayoutUpdated(updated)) => {
            match updated {
                Ok(payouts) => SaveStep::Done(
                    SaveOutcome {
                        payout_data: PayoutData {
                            payouts,
                            payout_attempt: context.payout_data.payout_attempt,
                        },
                        result: Ok(()),
                    },
                ),
                Err(_) => fail(context, ApiErrorResponse::InternalServerError),
            }
        },
        _ => unreached(),
    }
}

} // verus!
