//! Payouts, their attempts and where they go.

use vstd::prelude::*;

use crate::enums::{PaymentMethod, PaymentMethodType, PayoutEntityType, PayoutStatus, PayoutType};
use crate::text::{first_chars, last_chars, take_first, take_last};

verus! {

/// An amount in the smallest unit of its currency.
#[derive(Clone, Copy, Debug, PartialEq, Eq, Structural)]
pub struct MinorUnit {
    pub value: i64,
}

/// A customer of a merchant.
pub type CustomerId = String;

/// A merchant.
pub type MerchantId = String;

/// A business profile of a merchant.
pub type ProfileId = String;

/// An account that a merchant holds with a connector.
pub type MerchantConnectorAccountId = String;

/// A currency, by its three-letter code.
pub type Currency = String;

/// A country, by its two-letter code.
pub type CountryAlpha2 = String;

/// The number of a card.
#[derive(Debug, PartialEq, Eq)]
pub struct CardNumber {
    pub digits: String,
}

impl Clone for CardNumber {
    fn clone(&self) -> (r: Self)
        ensures
            r == *self,
    {
        CardNumber {
            digits: self.digits.clone(),
        }
    }
}

impl CardNumber {
    /// The part of the number that tells the issuer: its first six digits.
    pub open spec fn isin(self) -> Seq<char> {
        first_chars(self.digits@, 6)
    }

    /// Computes [`CardNumber::isin`].
    pub fn get_card_isin(&self) -> (r: String)
        ensures
            r@ == self.isin(),
    {
        take_first(self.digits.as_str(), 6)
    }

    /// The part of the number that may be shown: its last four digits.
    pub open spec fn last4(self) -> Seq<char> {
        last_chars(self.digits@, 4)
    }

    /// Computes [`CardNumber::last4`].
    pub fn get_last4(&self) -> (r: String)
        ensures
            r@ == self.last4(),
    {
        take_last(self.digits.as_str(), 4)
    }
}

/// A card that a payout goes to.
#[derive(Debug, PartialEq, Eq)]
pub struct CardPayout {
    pub card_number: CardNumber,
    pub expiry_month: String,
    pub expiry_year: String,
    pub card_holder_name: Option<String>,
}

impl Clone for CardPayout {
    fn clone(&self) -> (r: Self)
        ensures
            r == *self,
    {
        CardPayout {
            card_number: self.card_number.clone(),
            expiry_month: self.expiry_month.clone(),
            expiry_year: self.expiry_year.clone(),
            card_holder_name: self.card_holder_name.clone(),
        }
    }
}

/// A bank account that a payout goes to, with its details as JSON.
#[derive(Debug, PartialEq, Eq)]
pub enum Bank {
    Ach(serde_json::Value),
    Bacs(serde_json::Value),
    Sepa(serde_json::Value),
    Pix(serde_json::Value),
}

impl Clone for Bank {
    fn clone(&self) -> (r: Self)
        ensures
            r == *self,
    {
        match self {
            Bank::Ach(value) => Bank::Ach(value.clone()),
            Bank::Bacs(value) => Bank::Bacs(value.clone()),
            Bank::Sepa(value) => Bank::Sepa(value.clone()),
            Bank::Pix(value) => Bank::Pix(value.clone()),
        }
    }
}

/// A wallet that a payout goes to, with its details as JSON.
#[derive(Debug, PartialEq, Eq)]
pub enum Wallet {
    Paypal(serde_json::Value),
    Venmo(serde_json::Value),
}

impl Clone for Wallet {
    fn clone(&self) -> (r: Self)
        ensures
            r == *self,
    {
        match self {
            Wallet::Paypal(value) => Wallet::Paypal(value.clone()),
            Wallet::Venmo(value) => Wallet::Venmo(value.clone()),
        }
    }
}

/// What a payout goes to.
#[derive(Debug, PartialEq, Eq)]
pub enum PayoutMethodData {
    Card(CardPayout),
    Bank(Bank),
    Wallet(Wallet),
}

impl Clone for PayoutMethodData {
    fn clone(&self) -> (r: Self)
        ensures
            r == *self,
    {
        match self {
            PayoutMethodData::Card(value) => PayoutMethodData::Card(value.clone()),
            PayoutMethodData::Bank(value) => PayoutMethodData::Bank(value.clone()),
            PayoutMethodData::Wallet(value) => PayoutMethodData::Wallet(value.clone()),
        }
    }
}

impl PayoutMethodData {
    /// The payment method that carries a payout to this destination.
    pub open spec fn payment_method(self) -> PaymentMethod {
        match self {
            PayoutMethodData::Card(_) => PaymentMethod::Card,
            PayoutMethodData::Bank(_) => PaymentMethod::BankTransfer,
            PayoutMethodData::Wallet(_) => PaymentMethod::Wallet,
        }
    }

    /// Computes [`PayoutMethodData::payment_method`].
    pub fn to_payment_method(&self) -> (r: PaymentMethod)
        ensures
            r == self.payment_method(),
    {
        match self {
            PayoutMethodData::Card(_) => PaymentMethod::Card,
            PayoutMethodData::Bank(_) => PaymentMethod::BankTransfer,
            PayoutMethodData::Wallet(_) => PaymentMethod::Wallet,
        }
    }

    /// The kind of payment by which a payout reaches this destination. Cards
    /// are paid out to as debit cards.
    pub open spec fn payment_method_type(self) -> PaymentMethodType {
        match self {
            PayoutMethodData::Card(_) => PaymentMethodType::Debit,
            PayoutMethodData::Bank(Bank::Ach(_)) => PaymentMethodType::Ach,
            PayoutMethodData::Bank(Bank::Bacs(_)) => PaymentMethodType::Bacs,
            PayoutMethodData::Bank(Bank::Sepa(_)) => PaymentMethodType::Sepa,
            PayoutMethodData::Bank(Bank::Pix(_)) => PaymentMethodType::Pix,
            PayoutMethodData::Wallet(Wallet::Paypal(_)) => PaymentMethodType::Paypal,
            PayoutMethodData::Wallet(Wallet::Venmo(_)) => PaymentMethodType::Venmo,
        }
    }

    /// Computes [`PayoutMethodData::payment_method_type`].
    pub fn to_payment_method_type(&self) -> (r: PaymentMethodType)
        ensures
            r == self.payment_method_type(),
    {
        match self {
            PayoutMethodData::Card(_) => PaymentMethodType::Debit,
            PayoutMethodData::Bank(Bank::Ach(_)) => PaymentMethodType::Ach,
            PayoutMethodData::Bank(Bank::Bacs(_)) => PaymentMethodType::Bacs,
            PayoutMethodData::Bank(Bank::Sepa(_)) => PaymentMethodType::Sepa,
            PayoutMethodData::Bank(Bank::Pix(_)) => PaymentMethodType::Pix,
            PayoutMethodData::Wallet(Wallet::Paypal(_)) => PaymentMethodType::Paypal,
            PayoutMethodData::Wallet(Wallet::Venmo(_)) => PaymentMethodType::Venmo,
        }
    }
}

/// One attempt to carry out a payout.
#[derive(Debug, PartialEq, Eq)]
pub struct PayoutAttempt {
    pub payout_attempt_id: String,
    pub payout_id: String,
    pub customer_id: CustomerId,
    pub profile_id: ProfileId,
    pub connector: Option<String>,
    pub merchant_connector_id: Option<MerchantConnectorAccountId>,
    pub payout_token: Option<String>,
    pub status: PayoutStatus,
    pub business_country: Option<CountryAlpha2>,
    pub business_label: Option<String>,
}

impl Clone for PayoutAttempt {
    fn clone(&self) -> (r: Self)
        ensures
            r == *self,
    {
        PayoutAttempt {
            payout_attempt_id: self.payout_attempt_id.clone(),
            payout_id: self.payout_id.clone(),
            customer_id: self.customer_id.clone(),
            profile_id: self.profile_id.clone(),
            connector: self.connector.clone(),
            merchant_connector_id: self.merchant_connector_id.clone(),
            payout_token: self.payout_token.clone(),
            status: self.status,
            business_country: self.business_country.clone(),
            business_label: self.business_label.clone(),
        }
    }
}

/// A payout.
#[derive(Debug, PartialEq, Eq)]
pub struct Payouts {
    pub payout_id: String,
    pub payout_method_id: Option<String>,
    pub amount: MinorUnit,
    pub destination_currency: Currency,
    pub source_currency: Currency,
    pub description: Option<String>,
    pub recurring: bool,
    pub auto_fulfill: bool,
    pub return_url: Option<String>,
    pub entity_type: PayoutEntityType,
    pub metadata: Option<serde_json::Value>,
    pub payout_type: Option<PayoutType>,
}

impl Clone for Payouts {
    fn clone(&self) -> (r: Self)
        ensures
            r == *self,
    {
        Payouts {
            payout_id: self.payout_id.clone(),
            payout_method_id: self.payout_method_id.clone(),
            amount: self.amount,
            destination_currency: self.destination_currency.clone(),
            source_currency: self.source_currency.clone(),
            description: self.description.clone(),
            recurring: self.recurring,
            auto_fulfill: self.auto_fulfill,
            return_url: self.return_url.clone(),
            entity_type: self.entity_type,
            metadata: self.metadata.clone(),
            payout_type: self.payout_type,
        }
    }
}

/// A payout with the attempt that is under way.
#[derive(Debug, PartialEq, Eq)]
pub struct PayoutData {
    pub payout_attempt: PayoutAttempt,
    pub payouts: Payouts,
}

impl Clone for PayoutData {
    fn clone(&self) -> (r: Self)
        ensures
            r == *self,
    {
        PayoutData {
            payout_attempt: self.payout_attempt.clone(),
            payouts: self.payouts.clone(),
        }
    }
}

/// The issuer part of a card number is its first six digits and what is shown of
/// it its last four; a shorter number has all of its digits there.
pub proof fn parts_of_a_card_number(number: CardNumber, isin: String, last4: String)
    requires
        call_ensures(CardNumber::get_card_isin, (&number,), isin),
        call_ensures(CardNumber::get_last4, (&number,), last4),
    ensures
        isin@.is_prefix_of(number.digits@),
        last4@.is_suffix_of(number.digits@),
        number.digits@.len() >= 6 ==> isin@.len() == 6,
        number.digits@.len() >= 4 ==> last4@.len() == 4,
        number.digits@.len() < 6 ==> isin@ == number.digits@,
        number.digits@.len() < 4 ==> last4@ == number.digits@,
{
    assert(number.digits@.subrange(0, number.digits@.len() as int) =~= number.digits@);
}

/// A destination is reached by the family and the kind that belong to it.
pub proof fn destinations_are_reached_by_their_kind(
    destination: PayoutMethodData,
    family: PaymentMethod,
    kind: PaymentMethodType,
)
    requires
        call_ensures(PayoutMethodData::to_payment_method, (&destination,), family),
        call_ensures(PayoutMethodData::to_payment_method_type, (&destination,), kind),
    ensures
        family is Card <==> destination is Card,
        family is BankTransfer <==> destination is Bank,
        family is Wallet <==> destination is Wallet,
        kind is Debit <==> destination is Card,
        kind is Ach <==> destination is Bank && destination->Bank_0 is Ach,
        kind is Bacs <==> destination is Bank && destination->Bank_0 is Bacs,
        kind is Sepa <==> destination is Bank && destination->Bank_0 is Sepa,
        kind is Pix <==> destination is Bank && destination->Bank_0 is Pix,
        kind is Paypal <==> destination is Wallet && destination->Wallet_0 is Paypal,
        kind is Venmo <==> destination is Wallet && destination->Wallet_0 is Venmo,
{
}

} // verus!
