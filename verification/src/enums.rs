//! The enumerations that the flows decide on, with their wire names.

use vstd::prelude::*;

verus! {

/// Where a payout stands.
#[derive(Clone, Copy, Debug, PartialEq, Eq, Structural)]
pub enum PayoutStatus {
    Success,
    Failed,
    Cancelled,
    Initiated,
    Expired,
    Reversed,
    Pending,
    Ineligible,
    RequiresCreation,
    RequiresConfirmation,
    RequiresPayoutMethodData,
    RequiresFulfillment,
    RequiresVendorAccountCreation,
}

impl PayoutStatus {
    /// The status in snake case, as it stands in messages.
    pub open spec fn text(self) -> Seq<char> {
        match self {
            PayoutStatus::Success => "success"@,
            PayoutStatus::Failed => "failed"@,
            PayoutStatus::Cancelled => "cancelled"@,
            PayoutStatus::Initiated => "initiated"@,
            PayoutStatus::Expired => "expired"@,
            PayoutStatus::Reversed => "reversed"@,
            PayoutStatus::Pending => "pending"@,
            PayoutStatus::Ineligible => "ineligible"@,
            PayoutStatus::RequiresCreation => "requires_creation"@,
            PayoutStatus::RequiresConfirmation => "requires_confirmation"@,
            PayoutStatus::RequiresPayoutMethodData => "requires_payout_method_data"@,
            PayoutStatus::RequiresFulfillment => "requires_fulfillment"@,
            PayoutStatus::RequiresVendorAccountCreation => "requires_vendor_account_creation"@,
        }
    }

    /// Computes [`PayoutStatus::text`].
    pub fn as_str(&self) -> (r: &'static str)
        ensures
            r@ == self.text(),
    {
        match self {
            PayoutStatus::Success => "success",
            PayoutStatus::Failed => "failed",
            PayoutStatus::Cancelled => "cancelled",
            PayoutStatus::Initiated => "initiated",
            PayoutStatus::Expired => "expired",
            PayoutStatus::Reversed => "reversed",
            PayoutStatus::Pending => "pending",
            PayoutStatus::Ineligible => "ineligible",
            PayoutStatus::RequiresCreation => "requires_creation",
            PayoutStatus::RequiresConfirmation => "requires_confirmation",
            PayoutStatus::RequiresPayoutMethodData => "requires_payout_method_data",
            PayoutStatus::RequiresFulfillment => "requires_fulfillment",
            PayoutStatus::RequiresVendorAccountCreation => "requires_vendor_account_creation",
        }
    }
}

/// The means by which a payout reaches its recipient.
#[derive(Clone, Copy, Debug, PartialEq, Eq, Structural)]
pub enum PayoutType {
    Card,
    Bank,
    Wallet,
}

/// The families of payment methods.
#[derive(Clone, Copy, Debug, PartialEq, Eq, Structural)]
pub enum PaymentMethod {
    Card,
    CardRedirect,
    PayLater,
    Wallet,
    BankRedirect,
    BankTransfer,
    Crypto,
    BankDebit,
    Reward,
    RealTimePayment,
    Upi,
    Voucher,
    GiftCard,
    OpenBanking,
}

impl PaymentMethod {
    /// The payment method that carries a payout of the given type.
    pub open spec fn of_payout_type(payout_type: PayoutType) -> PaymentMethod {
        match payout_type {
            PayoutType::Card => PaymentMethod::Card,
            PayoutType::Bank => PaymentMethod::BankTransfer,
            PayoutType::Wallet => PaymentMethod::Wallet,
        }
    }

    /// Computes [`PaymentMethod::of_payout_type`].
    pub fn from_payout_type(payout_type: PayoutType) -> (r: PaymentMethod)
        ensures
            r == PaymentMethod::of_payout_type(payout_type),
    {
        match payout_type {
            PayoutType::Card => PaymentMethod::Card,
            PayoutType::Bank => PaymentMethod::BankTransfer,
            PayoutType::Wallet => PaymentMethod::Wallet,
        }
    }

    /// The payment method in snake case, as it stands in keys.
    pub open spec fn text(self) -> Seq<char> {
        match self {
            PaymentMethod::Card => "card"@,
            PaymentMethod::CardRedirect => "card_redirect"@,
            PaymentMethod::PayLater => "pay_later"@,
            PaymentMethod::Wallet => "wallet"@,
            PaymentMethod::BankRedirect => "bank_redirect"@,
            PaymentMethod::BankTransfer => "bank_transfer"@,
            PaymentMethod::Crypto => "crypto"@,
            PaymentMethod::BankDebit => "bank_debit"@,
            PaymentMethod::Reward => "reward"@,
            PaymentMethod::RealTimePayment => "real_time_payment"@,
            PaymentMethod::Upi => "upi"@,
            PaymentMethod::Voucher => "voucher"@,
            PaymentMethod::GiftCard => "gift_card"@,
            PaymentMethod::OpenBanking => "open_banking"@,
        }
    }

    /// Computes [`PaymentMethod::text`].
    pub fn as_str(&self) -> (r: &'static str)
        ensures
            r@ == self.text(),
    {
        match self {
            PaymentMethod::Card => "card",
            PaymentMethod::CardRedirect => "card_redirect",
            PaymentMethod::PayLater => "pay_later",
            PaymentMethod::Wallet => "wallet",
            PaymentMethod::BankRedirect => "bank_redirect",
            PaymentMethod::BankTransfer => "bank_transfer",
            PaymentMethod::Crypto => "crypto",
            PaymentMethod::BankDebit => "bank_debit",
            PaymentMethod::Reward => "reward",
            PaymentMethod::RealTimePayment => "real_time_payment",
            PaymentMethod::Upi => "upi",
            PaymentMethod::Voucher => "voucher",
            PaymentMethod::GiftCard => "gift_card",
            PaymentMethod::OpenBanking => "open_banking",
        }
    }
}

/// The kinds of payment within a family. The ones that payouts produce have a
/// variant of their own; any other is carried by its name.
#[derive(Debug, PartialEq, Eq)]
pub enum PaymentMethodType {
    Ach,
    Bacs,
    Debit,
    Paypal,
    Pix,
    Sepa,
    Venmo,
    Other(String),
}

impl Clone for PaymentMethodType {
    fn clone(&self) -> (r: Self)
        ensures
            r == *self,
    {
        match self {
            PaymentMethodType::Ach => PaymentMethodType::Ach,
            PaymentMethodType::Bacs => PaymentMethodType::Bacs,
            PaymentMethodType::Debit => PaymentMethodType::Debit,
            PaymentMethodType::Paypal => PaymentMethodType::Paypal,
            PaymentMethodType::Pix => PaymentMethodType::Pix,
            PaymentMethodType::Sepa => PaymentMethodType::Sepa,
            PaymentMethodType::Venmo => PaymentMethodType::Venmo,
            PaymentMethodType::Other(name) => PaymentMethodType::Other(name.clone()),
        }
    }
}

/// The life cycle of a stored payment method.
#[derive(Clone, Copy, Debug, PartialEq, Eq, Structural)]
pub enum PaymentMethodStatus {
    Active,
    Inactive,
    Processing,
    AwaitingData,
}

/// Who receives a payout.
#[derive(Clone, Copy, Debug, PartialEq, Eq, Structural)]
pub enum PayoutEntityType {
    Individual,
    Company,
    NonProfit,
    PublicSector,
    NaturalPerson,
    Business,
    Personal,
}

/// A payout to a card goes by a card, one to a bank by a bank transfer, one to a
/// wallet by a wallet, and no two types of payouts go the same way.
pub proof fn payout_types_go_their_own_way(
    payout_type: PayoutType,
    other_type: PayoutType,
    method: PaymentMethod,
    other_method: PaymentMethod,
)
    requires
        call_ensures(PaymentMethod::from_payout_type, (payout_type,), method),
        call_ensures(PaymentMethod::from_payout_type, (other_type,), other_method),
    ensures
        method == PaymentMethod::of_payout_type(payout_type),
        method is Card <==> payout_type is Card,
        method is BankTransfer <==> payout_type is Bank,
        method is Wallet <==> payout_type is Wallet,
        method == other_method ==> payout_type == other_type,
{
}

/// A family of payment methods reads as its name does, in small letters with `_`
/// between the words.
pub proof fn payment_methods_read_as_their_names(method: PaymentMethod, text: &'static str)
    requires
        call_ensures(PaymentMethod::as_str, (&method,), text),
    ensures
        text@ == method.text(),
        method is Card ==> text@ == "card"@,
        method is CardRedirect ==> text@ == "card_redirect"@,
        method is PayLater ==> text@ == "pay_later"@,
        method is Wallet ==> text@ == "wallet"@,
        method is BankRedirect ==> text@ == "bank_redirect"@,
        method is BankTransfer ==> text@ == "bank_transfer"@,
        method is Crypto ==> text@ == "crypto"@,
        method is BankDebit ==> text@ == "bank_debit"@,
        method is Reward ==> text@ == "reward"@,
        method is RealTimePayment ==> text@ == "real_time_payment"@,
        method is Upi ==> text@ == "upi"@,
        method is Voucher ==> text@ == "voucher"@,
        method is GiftCard ==> text@ == "gift_card"@,
        method is OpenBanking ==> text@ == "open_banking"@,
{
}

} // verus!
