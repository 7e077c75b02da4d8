//! Payment methods, as merchants hand them in and as they are kept.

use vstd::prelude::*;

use crate::date_time::PrimitiveDateTime;
use crate::enums::{PaymentMethod, PaymentMethodStatus, PaymentMethodType};
use crate::payout_types::{Bank, CardNumber, CustomerId, Wallet};
use crate::text::{present_or, value_or};

verus! {

/// A card as merchants hand it in.
#[derive(Debug, PartialEq, Eq)]
pub struct CardDetail {
    pub card_number: CardNumber,
    pub card_exp_month: String,
    pub card_exp_year: String,
    pub card_holder_name: Option<String>,
    pub nick_name: Option<String>,
    pub card_issuing_country: Option<String>,
    pub card_network: Option<String>,
    pub card_issuer: Option<String>,
    pub card_type: Option<String>,
}

impl Clone for CardDetail {
    fn clone(&self) -> (r: Self)
        ensures
            r == *self,
    {
        CardDetail {
            card_number: self.card_number.clone(),
            card_exp_month: self.card_exp_month.clone(),
            card_exp_year: self.card_exp_year.clone(),
            card_holder_name: self.card_holder_name.clone(),
            nick_name: self.nick_name.clone(),
            card_issuing_country: self.card_issuing_country.clone(),
            card_network: self.card_network.clone(),
            card_issuer: self.card_issuer.clone(),
            card_type: self.card_type.clone(),
        }
    }
}

/// What a payment method to create is.
#[derive(Debug, PartialEq, Eq)]
pub enum PaymentMethodCreateData {
    Card(CardDetail),
}

impl Clone for PaymentMethodCreateData {
    fn clone(&self) -> (r: Self)
        ensures
            r == *self,
    {
        match self {
            PaymentMethodCreateData::Card(value) => PaymentMethodCreateData::Card(value.clone()),
        }
    }
}

/// A payment method to create.
#[derive(Debug, PartialEq, Eq)]
pub struct PaymentMethodCreate {
    pub payment_method: Option<PaymentMethod>,
    pub payment_method_type: Option<PaymentMethodType>,
    pub payment_method_issuer: Option<String>,
    pub payment_method_issuer_code: Option<String>,
    pub bank_transfer: Option<Bank>,
    pub card: Option<CardDetail>,
    pub wallet: Option<Wallet>,
    pub metadata: Option<serde_json::Value>,
    pub customer_id: Option<CustomerId>,
    pub card_network: Option<String>,
    pub client_secret: Option<String>,
    pub payment_method_data: Option<PaymentMethodCreateData>,
    pub billing: Option<serde_json::Value>,
    pub connector_mandate_details: Option<serde_json::Value>,
    pub network_transaction_id: Option<String>,
}

impl Clone for PaymentMethodCreate {
    fn clone(&self) -> (r: Self)
        ensures
            r == *self,
    {
        PaymentMethodCreate {
            payment_method: self.payment_method,
            payment_method_type: self.payment_method_type.clone(),
            payment_method_issuer: self.payment_method_issuer.clone(),
            payment_method_issuer_code: self.payment_method_issuer_code.clone(),
            bank_transfer: self.bank_transfer.clone(),
            card: self.card.clone(),
            wallet: self.wallet.clone(),
            metadata: self.metadata.clone(),
            customer_id: self.customer_id.clone(),
            card_network: self.card_network.clone(),
            client_secret: self.client_secret.clone(),
            payment_method_data: self.payment_method_data.clone(),
            billing: self.billing.clone(),
            connector_mandate_details: self.connector_mandate_details.clone(),
            network_transaction_id: self.network_transaction_id.clone(),
        }
    }
}

/// What is known of the cards that share an issuer number.
#[derive(Debug, PartialEq, Eq)]
pub struct CardInfo {
    pub card_issuer: Option<String>,
    pub card_network: Option<String>,
    pub card_issuing_country: Option<String>,
    pub card_type: Option<String>,
}

impl Clone for CardInfo {
    fn clone(&self) -> (r: Self)
        ensures
            r == *self,
    {
        CardInfo {
            card_issuer: self.card_issuer.clone(),
            card_network: self.card_network.clone(),
            card_issuing_country: self.card_issuing_country.clone(),
            card_type: self.card_type.clone(),
        }
    }
}

/// The part of a card that is kept, encrypted, beside its reference.
#[derive(Debug, PartialEq, Eq)]
pub struct CardDetailsPaymentMethod {
    pub last4_digits: Option<String>,
    pub issuer_country: Option<String>,
    pub expiry_month: Option<String>,
    pub expiry_year: Option<String>,
    pub nick_name: Option<String>,
    pub card_holder_name: Option<String>,
    pub card_isin: Option<String>,
    pub card_issuer: Option<String>,
    pub card_network: Option<String>,
    pub card_type: Option<String>,
    pub saved_to_locker: bool,
}

impl Clone for CardDetailsPaymentMethod {
    fn clone(&self) -> (r: Self)
        ensures
            r == *self,
    {
        CardDetailsPaymentMethod {
            last4_digits: self.last4_digits.clone(),
            issuer_country: self.issuer_country.clone(),
            expiry_month: self.expiry_month.clone(),
            expiry_year: self.expiry_year.clone(),
            nick_name: self.nick_name.clone(),
            card_holder_name: self.card_holder_name.clone(),
            card_isin: self.card_isin.clone(),
            card_issuer: self.card_issuer.clone(),
            card_network: self.card_network.clone(),
            card_type: self.card_type.clone(),
            saved_to_locker: self.saved_to_locker,
        }
    }
}

/// A payment method as it is kept.
#[derive(Debug, PartialEq, Eq)]
pub struct StoredPaymentMethod {
    pub payment_method_id: String,
    pub customer_id: CustomerId,
    pub locker_id: Option<String>,
    pub status: PaymentMethodStatus,
    pub created_at: PrimitiveDateTime,
}

impl Clone for StoredPaymentMethod {
    fn clone(&self) -> (r: Self)
        ensures
            r == *self,
    {
        StoredPaymentMethod {
            payment_method_id: self.payment_method_id.clone(),
            customer_id: self.customer_id.clone(),
            locker_id: self.locker_id.clone(),
            status: self.status,
            created_at: self.created_at,
        }
    }
}

impl StoredPaymentMethod {
    /// The name under which the locker keeps the payment method. Without a name
    /// of its own it is kept under its identifier.
    pub open spec fn card_reference(self) -> String {
        present_or(self.locker_id, self.payment_method_id)
    }

    /// Computes [`StoredPaymentMethod::card_reference`].
    pub fn to_card_reference(&self) -> (r: String)
        ensures
            r == self.card_reference(),
    {
        value_or(self.locker_id.clone(), self.payment_method_id.clone())
    }
}

/// A stored method is named by the locker's own name for it where it has one,
/// else by its identifier.
pub proof fn methods_are_named_by_the_locker(method: StoredPaymentMethod, name: String)
    requires
        call_ensures(StoredPaymentMethod::to_card_reference, (&method,), name),
    ensures
        method.locker_id matches Some(locker_id) ==> name == locker_id,
        method.locker_id is None ==> name == method.payment_method_id,
{
}

} // verus!
