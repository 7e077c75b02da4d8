//! What payments are made with.

use vstd::prelude::*;

use crate::enums::PaymentMethod;
use crate::payout_types::CardNumber;

verus! {

/// A card that is paid with.
#[derive(Debug, PartialEq, Eq)]
pub struct PaymentCard {
    pub card_number: CardNumber,
    pub card_exp_month: String,
    pub card_exp_year: String,
    pub card_cvc: String,
    pub card_issuer: Option<String>,
    pub card_network: Option<String>,
    pub card_type: Option<String>,
    pub card_issuing_country: Option<String>,
    pub bank_code: Option<String>,
    pub nick_name: Option<String>,
}

impl Clone for PaymentCard {
    fn clone(&self) -> (r: Self)
        ensures
            r == *self,
    {
        PaymentCard {
            card_number: self.card_number.clone(),
            card_exp_month: self.card_exp_month.clone(),
            card_exp_year: self.card_exp_year.clone(),
            card_cvc: self.card_cvc.clone(),
            card_issuer: self.card_issuer.clone(),
            card_network: self.card_network.clone(),
            card_type: self.card_type.clone(),
            card_issuing_country: self.card_issuing_country.clone(),
            bank_code: self.bank_code.clone(),
            nick_name: self.nick_name.clone(),
        }
    }
}

/// What is handed in anew for a stored card.
#[derive(Debug, PartialEq, Eq)]
pub struct CardToken {
    pub card_holder_name: Option<String>,
    pub card_cvc: Option<String>,
}

impl Clone for CardToken {
    fn clone(&self) -> (r: Self)
        ensures
            r == *self,
    {
        CardToken {
            card_holder_name: self.card_holder_name.clone(),
            card_cvc: self.card_cvc.clone(),
        }
    }
}

/// What a payment is made with. Anything but cards is carried as JSON.
#[derive(Debug, PartialEq, Eq)]
pub enum PaymentMethodData {
    Card(PaymentCard),
    CardRedirect(serde_json::Value),
    Wallet(serde_json::Value),
    PayLater(serde_json::Value),
    BankRedirect(serde_json::Value),
    BankDebit(serde_json::Value),
    BankTransfer(serde_json::Value),
    Crypto(serde_json::Value),
    MandatePayment,
    Reward,
    RealTimePayment(serde_json::Value),
    Upi(serde_json::Value),
    Voucher(serde_json::Value),
    GiftCard(serde_json::Value),
    CardToken(CardToken),
    OpenBanking(serde_json::Value),
}

impl Clone for PaymentMethodData {
    fn clone(&self) -> (r: Self)
        ensures
            r == *self,
    {
        match self {
            PaymentMethodData::Card(value) => PaymentMethodData::Card(value.clone()),
            PaymentMethodData::CardRedirect(value) => PaymentMethodData::CardRedirect(value.clone()),
            PaymentMethodData::Wallet(value) => PaymentMethodData::Wallet(value.clone()),
            PaymentMethodData::PayLater(value) => PaymentMethodData::PayLater(value.clone()),
            PaymentMethodData::BankRedirect(value) => PaymentMethodData::BankRedirect(value.clone()),
            PaymentMethodData::BankDebit(value) => PaymentMethodData::BankDebit(value.clone()),
            PaymentMethodData::BankTransfer(value) => PaymentMethodData::BankTransfer(value.clone()),
            PaymentMethodData::Crypto(value) => PaymentMethodData::Crypto(value.clone()),
            PaymentMethodData::MandatePayment => PaymentMethodData::MandatePayment,
            PaymentMethodData::Reward => PaymentMethodData::Reward,
            PaymentMethodData::RealTimePayment(value) => PaymentMethodData::RealTimePayment(value.clone()),
            PaymentMethodData::Upi(value) => PaymentMethodData::Upi(value.clone()),
            PaymentMethodData::Voucher(value) => PaymentMethodData::Voucher(value.clone()),
            PaymentMethodData::GiftCard(value) => PaymentMethodData::GiftCard(value.clone()),
            PaymentMethodData::CardToken(value) => PaymentMethodData::CardToken(value.clone()),
            PaymentMethodData::OpenBanking(value) => PaymentMethodData::OpenBanking(value.clone()),
        }
    }
}

impl PaymentMethodData {
    /// The family under which the vault keeps the method. Only some families are
    /// kept there.
    pub open spec fn vaulted_as(self) -> Option<PaymentMethod> {
        match self {
            PaymentMethodData::Card(_) => Some(PaymentMethod::Card),
            PaymentMethodData::BankTransfer(_) => Some(PaymentMethod::BankTransfer),
            PaymentMethodData::Wallet(_) => Some(PaymentMethod::Wallet),
            PaymentMethodData::BankRedirect(_) => Some(PaymentMethod::BankRedirect),
            _ => None,
        }
    }

    /// Computes [`PaymentMethodData::vaulted_as`].
    pub fn to_vaulted_as(&self) -> (r: Option<PaymentMethod>)
        ensures
            r == self.vaulted_as(),
    {
        match self {
            PaymentMethodData::Card(_) => Some(PaymentMethod::Card),
            PaymentMethodData::BankTransfer(_) => Some(PaymentMethod::BankTransfer),
            PaymentMethodData::Wallet(_) => Some(PaymentMethod::Wallet),
            PaymentMethodData::BankRedirect(_) => Some(PaymentMethod::BankRedirect),
            _ => None,
        }
    }

    /// Whether the method only stands for one that is kept elsewhere.
    pub open spec fn is_reference(self) -> bool {
        self is MandatePayment || self is CardToken
    }

    /// Computes [`PaymentMethodData::is_reference`].
    pub fn refers_elsewhere(&self) -> (r: bool)
        ensures
            r == self.is_reference(),
    {
        match self {
            PaymentMethodData::MandatePayment | PaymentMethodData::CardToken(_) => true,
            _ => false,
        }
    }
}

/// A method of payment that was found, with its identifier where it has one.
#[derive(Debug, PartialEq, Eq)]
pub struct PaymentMethodDataWithId {
    pub payment_method: Option<PaymentMethod>,
    pub payment_method_data: Option<PaymentMethodData>,
    pub payment_method_id: Option<String>,
}

/// The vault keeps cards, bank transfers, wallets and bank redirects, each under
/// its own family, and nothing else; what stands for another method is a mandate
/// or a token for a card, which the vault does not keep.
pub proof fn the_vault_keeps_its_families(
    data: PaymentMethodData,
    family: Option<PaymentMethod>,
    is_elsewhere: bool,
)
    requires
        call_ensures(PaymentMethodData::to_vaulted_as, (&data,), family),
        call_ensures(PaymentMethodData::refers_elsewhere, (&data,), is_elsewhere),
    ensures
        family == data.vaulted_as(),
        is_elsewhere == data.is_reference(),
        family == Some(PaymentMethod::Card) <==> data is Card,
        family == Some(PaymentMethod::BankTransfer) <==> data is BankTransfer,
        family == Some(PaymentMethod::Wallet) <==> data is Wallet,
        family == Some(PaymentMethod::BankRedirect) <==> data is BankRedirect,
        family is None <==> !(data is Card) && !(data is BankTransfer) && !(data is Wallet) && !(
        data is BankRedirect),
        is_elsewhere <==> data is MandatePayment || data is CardToken,
        is_elsewhere ==> family is None,
{
}

} // verus!
