//! The messages exchanged with the locker that keeps cards and account details.

use vstd::prelude::*;

use crate::payout_types::{CardNumber, CustomerId, MerchantId};

verus! {

/// A card as the locker keeps it.
#[derive(Debug, PartialEq, Eq)]
pub struct Card {
    pub card_number: CardNumber,
    pub name_on_card: Option<String>,
    pub card_exp_month: String,
    pub card_exp_year: String,
    pub card_brand: Option<String>,
    pub card_isin: Option<String>,
    pub nick_name: Option<String>,
}

impl Clone for Card {
    fn clone(&self) -> (r: Self)
        ensures
            r == *self,
    {
        Card {
            card_number: self.card_number.clone(),
            name_on_card: self.name_on_card.clone(),
            card_exp_month: self.card_exp_month.clone(),
            card_exp_year: self.card_exp_year.clone(),
            card_brand: self.card_brand.clone(),
            card_isin: self.card_isin.clone(),
            nick_name: self.nick_name.clone(),
        }
    }
}

/// Asks the locker to keep a card.
#[derive(Debug, PartialEq, Eq)]
pub struct StoreCardReq {
    pub merchant_id: MerchantId,
    pub merchant_customer_id: CustomerId,
    /// The name to keep the card under, where it replaces one.
    pub requestor_card_reference: Option<String>,
    pub card: Card,
    pub ttl: i64,
}

impl Clone for StoreCardReq {
    fn clone(&self) -> (r: Self)
        ensures
            r == *self,
    {
        StoreCardReq {
            merchant_id: self.merchant_id.clone(),
            merchant_customer_id: self.merchant_customer_id.clone(),
            requestor_card_reference: self.requestor_card_reference.clone(),
            card: self.card.clone(),
            ttl: self.ttl,
        }
    }
}

/// Asks the locker to keep encrypted data.
#[derive(Debug, PartialEq, Eq)]
pub struct StoreGenericReq {
    pub merchant_id: MerchantId,
    pub merchant_customer_id: CustomerId,
    /// The data in hexadecimal.
    pub enc_data: String,
    pub ttl: i64,
}

impl Clone for StoreGenericReq {
    fn clone(&self) -> (r: Self)
        ensures
            r == *self,
    {
        StoreGenericReq {
            merchant_id: self.merchant_id.clone(),
            merchant_customer_id: self.merchant_customer_id.clone(),
            enc_data: self.enc_data.clone(),
            ttl: self.ttl,
        }
    }
}

/// Asks the locker to keep something.
#[derive(Debug, PartialEq, Eq)]
pub enum StoreLockerReq {
    LockerCard(StoreCardReq),
    LockerGeneric(StoreGenericReq),
}

impl Clone for StoreLockerReq {
    fn clone(&self) -> (r: Self)
        ensures
            r == *self,
    {
        match self {
            StoreLockerReq::LockerCard(value) => StoreLockerReq::LockerCard(value.clone()),
            StoreLockerReq::LockerGeneric(value) => StoreLockerReq::LockerGeneric(value.clone()),
        }
    }
}

impl StoreLockerReq {
    /// The request with the reference of a card that it replaces. Encrypted data
    /// has no such reference.
    pub open spec fn with_card_reference(self, card_reference: Option<String>) -> StoreLockerReq {
        match self {
            StoreLockerReq::LockerCard(card_request) => StoreLockerReq::LockerCard(
                StoreCardReq { requestor_card_reference: card_reference, ..card_request },
            ),
            StoreLockerReq::LockerGeneric(_) => self,
        }
    }

    /// Puts in the reference of a card that the request replaces.
    pub fn update_requestor_card_reference(&mut self, card_reference: Option<String>)
        ensures
            *final(self) == old(self).with_card_reference(card_reference),
    {
        match self {
            StoreLockerReq::LockerCard(card_request) => {
                card_request.requestor_card_reference = card_reference;
            },
            StoreLockerReq::LockerGeneric(_) => {},
        }
    }
}

/// How what the locker was asked to keep compares with what it kept before.
#[derive(Clone, Copy, Debug, PartialEq, Eq, Structural)]
pub enum DataDuplicationCheck {
    Duplicated,
    MetaDataChanged,
}

/// What the locker answers where it kept something.
#[derive(Debug, PartialEq, Eq)]
pub struct StoreCardRespPayload {
    pub card_reference: String,
    pub duplication_check: Option<DataDuplicationCheck>,
}

/// The reference of a card that is replaced is the one that was put in, the rest
/// of the request stays as it was, and encrypted data stays the same as a whole.
pub proof fn only_the_reference_is_put_in(request: StoreLockerReq, card_reference: Option<String>)
    ensures
        ({
            let changed = request.with_card_reference(card_reference);
            &&& request is LockerGeneric ==> changed == request
            &&& request matches StoreLockerReq::LockerCard(before) ==> changed is LockerCard && {
                let after = changed->LockerCard_0;
                &&& after.requestor_card_reference == card_reference
                &&& after.merchant_id == before.merchant_id
                &&& after.merchant_customer_id == before.merchant_customer_id
                &&& after.card == before.card
                &&& after.ttl == before.ttl
            }
        }),
{
}

} // verus!
