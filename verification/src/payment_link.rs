//! Links at which payments can be made.

use vstd::prelude::*;

use crate::date_time::PrimitiveDateTime;
use crate::payout_types::{Currency, MerchantId, MinorUnit, ProfileId};

verus! {

/// A link at which a payment can be made, as it is kept.
#[derive(Debug, PartialEq, Eq)]
pub struct PaymentLink {
    pub payment_link_id: String,
    pub payment_id: String,
    pub link_to_pay: String,
    pub merchant_id: MerchantId,
    pub amount: MinorUnit,
    pub currency: Option<Currency>,
    pub created_at: PrimitiveDateTime,
    pub last_modified_at: PrimitiveDateTime,
    pub fulfilment_time: Option<PrimitiveDateTime>,
    pub custom_merchant_name: Option<String>,
    pub payment_link_config: Option<serde_json::Value>,
    pub description: Option<String>,
    pub profile_id: Option<ProfileId>,
    pub secure_link: Option<String>,
}

impl Clone for PaymentLink {
    fn clone(&self) -> (r: Self)
        ensures
            r == *self,
    {
        PaymentLink {
            payment_link_id: self.payment_link_id.clone(),
            payment_id: self.payment_id.clone(),
            link_to_pay: self.link_to_pay.clone(),
            merchant_id: self.merchant_id.clone(),
            amount: self.amount,
            currency: self.currency.clone(),
            created_at: self.created_at,
            last_modified_at: self.last_modified_at,
            fulfilment_time: self.fulfilment_time,
            custom_merchant_name: self.custom_merchant_name.clone(),
            payment_link_config: self.payment_link_config.clone(),
            description: self.description.clone(),
            profile_id: self.profile_id.clone(),
            secure_link: self.secure_link.clone(),
        }
    }
}

/// A link at which a payment can be made, to be kept. The times that are absent are
/// those of its insertion.
#[derive(Debug, PartialEq, Eq)]
pub struct PaymentLinkNew {
    pub payment_link_id: String,
    pub payment_id: String,
    pub link_to_pay: String,
    pub merchant_id: MerchantId,
    pub amount: MinorUnit,
    pub currency: Option<Currency>,
    pub created_at: Option<PrimitiveDateTime>,
    pub last_modified_at: Option<PrimitiveDateTime>,
    pub fulfilment_time: Option<PrimitiveDateTime>,
    pub custom_merchant_name: Option<String>,
    pub payment_link_config: Option<serde_json::Value>,
    pub description: Option<String>,
    pub profile_id: Option<ProfileId>,
    pub secure_link: Option<String>,
}

impl Clone for PaymentLinkNew {
    fn clone(&self) -> (r: Self)
        ensures
            r == *self,
    {
        PaymentLinkNew {
            payment_link_id: self.payment_link_id.clone(),
            payment_id: self.payment_id.clone(),
            link_to_pay: self.link_to_pay.clone(),
            merchant_id: self.merchant_id.clone(),
            amount: self.amount,
            currency: self.currency.clone(),
            created_at: self.created_at,
            last_modified_at: self.last_modified_at,
            fulfilment_time: self.fulfilment_time,
            custom_merchant_name: self.custom_merchant_name.clone(),
            payment_link_config: self.payment_link_config.clone(),
            description: self.description.clone(),
            profile_id: self.profile_id.clone(),
            secure_link: self.secure_link.clone(),
        }
    }
}

} // verus!
