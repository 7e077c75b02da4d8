//! What a payment token stands for.

use vstd::prelude::*;

use crate::text::{present_or, value_or};

verus! {

/// A token that names data of any kind.
#[derive(Debug, PartialEq, Eq)]
pub struct GenericTokenData {
    pub token: String,
}

/// A token that names a stored card.
#[derive(Debug, PartialEq, Eq)]
pub struct CardTokenData {
    pub payment_method_id: Option<String>,
    pub locker_id: Option<String>,
    pub token: String,
}

impl CardTokenData {
    /// The name under which the locker keeps the card: its own name for it where
    /// it has one, else the token.
    pub open spec fn locker_reference(self) -> String {
        present_or(self.locker_id, self.token)
    }

    /// Computes [`CardTokenData::locker_reference`].
    pub fn to_locker_reference(&self) -> (r: String)
        ensures
            r == self.locker_reference(),
    {
        value_or(self.locker_id.clone(), self.token.clone())
    }

    /// The payment method that the card is: the one the token tells, else the
    /// token itself.
    pub open spec fn method_reference(self) -> String {
        present_or(self.payment_method_id, self.token)
    }

    /// Computes [`CardTokenData::method_reference`].
    pub fn to_method_reference(&self) -> (r: String)
        ensures
            r == self.method_reference(),
    {
        value_or(self.payment_method_id.clone(), self.token.clone())
    }
}

/// What a payment token stands for. The details of bank debits and wallets are
/// carried as JSON.
#[derive(Debug, PartialEq, Eq)]
pub enum PaymentTokenData {
    TemporaryGeneric(GenericTokenData),
    Temporary(GenericTokenData),
    Permanent(CardTokenData),
    PermanentCard(CardTokenData),
    AuthBankDebit(serde_json::Value),
    WalletToken(serde_json::Value),
}

/// A stored card is named by the locker's own name for it and by its payment
/// method, each where the token tells it, and by the token where it does not.
pub proof fn tokens_name_their_card(card: CardTokenData, in_locker: String, as_method: String)
    requires
        call_ensures(CardTokenData::to_locker_reference, (&card,), in_locker),
        call_ensures(CardTokenData::to_method_reference, (&card,), as_method),
    ensures
        card.locker_id matches Some(name) ==> in_locker == name,
        card.locker_id is None ==> in_locker == card.token,
        card.payment_method_id matches Some(name) ==> as_method == name,
        card.payment_method_id is None ==> as_method == card.token,
        in_locker == card.locker_reference(),
        as_method == card.method_reference(),
{
}

} // verus!
