//! Forming the entry for a method of payment.

use vstd::prelude::*;

use crate::enums::{PaymentMethod, PaymentMethodType};
use crate::errors::ApiErrorResponse;
use crate::payment_method_data::{PaymentCard, PaymentMethodData};
use crate::payment_method_types::{CardDetail, PaymentMethodCreate};
use crate::payout_types::CustomerId;

verus! {

/// The card in the form in which entries hold it, under the name that it is
/// billed to.
pub open spec fn billed_card(card: PaymentCard, billing_name: Option<String>) -> CardDetail {
    CardDetail {
        card_number: card.card_number,
        card_exp_month: card.card_exp_month,
        card_exp_year: card.card_exp_year,
        card_holder_name: billing_name,
        nick_name: card.nick_name,
        card_issuing_country: card.card_issuing_country,
        card_network: card.card_network,
        card_issuer: card.card_issuer,
        card_type: card.card_type,
    }
}

/// The entry for a method of payment. What is known of a card is put in; of any
/// other method nothing is.
pub open spec fn create_request(
    payment_method_data: PaymentMethodData,
    payment_method: PaymentMethod,
    payment_method_type: Option<PaymentMethodType>,
    customer_id: Option<CustomerId>,
    billing_name: Option<String>,
) -> PaymentMethodCreate {
    PaymentMethodCreate {
        payment_method: Some(payment_method),
        payment_method_type,
        payment_method_issuer: match payment_method_data {
            PaymentMethodData::Card(card) => card.card_issuer,
            _ => None,
        },
        payment_method_issuer_code: None,
        bank_transfer: None,
        card: match payment_method_data {
            PaymentMethodData::Card(card) => Some(billed_card(card, billing_name)),
            _ => None,
        },
        wallet: None,
        metadata: None,
        customer_id,
        card_network: match payment_method_data {
            PaymentMethodData::Card(card) => card.card_network,
            _ => None,
        },
        client_secret: None,
        payment_method_data: None,
        billing: None,
        connector_mandate_details: None,
        network_transaction_id: None,
    }
}

/// Forms the entry for a method of payment.
pub fn get_payment_method_create_request(
    payment_method_data: Option<&PaymentMethodData>,
    payment_method: Option<PaymentMethod>,
    payment_method_type: Option<PaymentMethodType>,
    customer_id: &Option<CustomerId>,
    billing_name: Option<String>,
) -> (r: Result<PaymentMethodCreate, ApiErrorResponse>)
    ensures
        r == (match (payment_method_data, payment_method) {
            (None, _) => Err(
                ApiErrorResponse::MissingRequiredField { field_name: "payment_method_data" },
            ),
            (Some(_), None) => Err(
                ApiErrorResponse::MissingRequiredField { field_name: "payment_method_type" },
            ),
            (Some(data), Some(method)) => Ok(
                create_request(*data, method, payment_method_type, *customer_id, billing_name),
            ),
        }),
{
    match payment_method_data {
        Some(pm_data) => match payment_method {
            Some(payment_method) => {
                let (card, payment_method_issuer, card_network) = match pm_data {
                    PaymentMethodData::Card(card) => {
                        let card_detail = CardDetail {
                            card_number: card.card_number.clone(),
                            card_exp_month: card.card_exp_month.clone(),
                            card_exp_year: card.card_exp_year.clone(),
                            card_holder_name: billing_name,
                            nick_name: card.nick_name.clone(),
                            card_issuing_country: card.card_issuing_country.clone(),
                            card_network: card.card_network.clone(),
                            card_issuer: card.card_issuer.clone(),
                            card_type: card.card_type.clone(),
                        };
                        (Some(card_detail), card.card_issuer.clone(), card.card_network.clone())
                    },
                    _ => (None, None, None),
                };
                Ok(
                    PaymentMethodCreate {
                        payment_method: Some(payment_method),
                        payment_method_type,
                        payment_method_issuer,
                        payment_method_issuer_code: None,
                        bank_transfer: None,
                        card,
                        wallet: None,
                        metadata: None,
                        customer_id: customer_id.clone(),
                        card_network,
                        client_secret: None,
                        payment_method_data: None,
                        billing: None,
                        connector_mandate_details: None,
                        network_transaction_id: None,
                    },
                )
            },
            None => Err(
                ApiErrorResponse::MissingRequiredField { field_name: "payment_method_type" },
            ),
        },
        None => Err(ApiErrorResponse::MissingRequiredField { field_name: "payment_method_data" }),
    }
}

/// The code of the card never becomes part of an entry: two cards that differ in
/// their codes alone have the same one.
pub proof fn card_codes_are_not_kept(
    card: PaymentCard,
    other: PaymentCard,
    payment_method: PaymentMethod,
    payment_method_type: Option<PaymentMethodType>,
    customer_id: Option<CustomerId>,
    billing_name: Option<String>,
)
    requires
        other == (PaymentCard { card_cvc: other.card_cvc, ..card }),
    ensures
        create_request(
            PaymentMethodData::Card(card),
            payment_method,
            payment_method_type,
            customer_id,
            billing_name,
        ) == create_request(
            PaymentMethodData::Card(other),
            payment_method,
            payment_method_type,
            customer_id,
            billing_name,
        ),
{
}

/// An entry is formed exactly where the data and the family are there, and
/// whoever asked is told what is missing; the data is asked for first.
pub proof fn missing_parts_are_told(
    payment_method_data: Option<&PaymentMethodData>,
    payment_method: Option<PaymentMethod>,
    payment_method_type: Option<PaymentMethodType>,
    customer_id: &Option<CustomerId>,
    billing_name: Option<String>,
    r: Result<PaymentMethodCreate, ApiErrorResponse>,
)
    requires
        call_ensures(
            get_payment_method_create_request,
            (payment_method_data, payment_method, payment_method_type, customer_id, billing_name),
            r,
        ),
    ensures
        r is Ok <==> payment_method_data is Some && payment_method is Some,
        payment_method_data is None ==> r is Err && r->Err_0
            == (ApiErrorResponse::MissingRequiredField { field_name: "payment_method_data" }),
        payment_method_data is Some && payment_method is None ==> r is Err && r->Err_0
            == (ApiErrorResponse::MissingRequiredField { field_name: "payment_method_type" }),
{
}

/// An entry holds what was handed in, each in its own place: of a card its
/// number, its expiry, its names, its issuer and its network, under the name that
/// is billed; of any other method nothing.
pub proof fn entries_hold_what_was_handed_in(
    payment_method_data: Option<&PaymentMethodData>,
    payment_method: Option<PaymentMethod>,
    payment_method_type: Option<PaymentMethodType>,
    customer_id: &Option<CustomerId>,
    billing_name: Option<String>,
    r: Result<PaymentMethodCreate, ApiErrorResponse>,
)
    requires
        call_ensures(
            get_payment_method_create_request,
            (payment_method_data, payment_method, payment_method_type, customer_id, billing_name),
            r,
        ),
        r is Ok,
    ensures
        ({
            let entry = r->Ok_0;
            &&& entry.payment_method == payment_method
            &&& entry.payment_method_type == payment_method_type
            &&& entry.customer_id == *customer_id
            &&& entry.payment_method_issuer_code is None
            &&& entry.bank_transfer is None
            &&& entry.wallet is None
            &&& entry.metadata is None
            &&& entry.client_secret is None
            &&& entry.payment_method_data is None
            &&& entry.billing is None
            &&& entry.connector_mandate_details is None
            &&& entry.network_transaction_id is None
            &&& match *payment_method_data->0 {
                PaymentMethodData::Card(card) => {
                    &&& entry.payment_method_issuer == card.card_issuer
                    &&& entry.card_network == card.card_network
                    &&& entry.card is Some
                    &&& entry.card->0.card_number == card.card_number
                    &&& entry.card->0.card_exp_month == card.card_exp_month
                    &&& entry.card->0.card_exp_year == card.card_exp_year
                    &&& entry.card->0.card_holder_name == billing_name
                    &&& entry.card->0.nick_name == card.nick_name
                    &&& entry.card->0.card_issuing_country == card.card_issuing_country
                    &&& entry.card->0.card_network == card.card_network
                    &&& entry.card->0.card_issuer == card.card_issuer
                    &&& entry.card->0.card_type == card.card_type
                },
                _ => {
                    &&& entry.payment_method_issuer is None
                    &&& entry.card_network is None
                    &&& entry.card is None
                },
            }
        }),
{
}

} // verus!
