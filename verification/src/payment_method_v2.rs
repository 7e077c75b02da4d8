//! Payment methods in the second generation of the API: forming the request to
//! create one from a card.

use vstd::prelude::*;

use crate::enums::{PaymentMethod, PaymentMethodType};
use crate::errors::{ApiErrorResponse, OperationFailed};
use crate::payment_method_data::{PaymentCard, PaymentMethodData};
use crate::payment_method_entry::billed_card;
use crate::payment_method_types::{CardDetail, PaymentMethodCreateData};
use crate::payout_types::CustomerId;

verus! {

/// A payment method to create.
#[derive(Debug, PartialEq, Eq)]
pub struct PaymentMethodCreate {
    pub payment_method: PaymentMethod,
    pub payment_method_type: PaymentMethodType,
    pub metadata: Option<serde_json::Value>,
    pub customer_id: CustomerId,
    pub payment_method_data: PaymentMethodCreateData,
    pub billing: Option<serde_json::Value>,
}

/// What a text of a card was read as. A card without the text gives nothing, and
/// so does a text that could not be read.
pub open spec fn if_readable(
    text: Option<String>,
    read: Option<Result<String, OperationFailed>>,
) -> Option<String> {
    match (text, read) {
        (Some(_), Some(Ok(value))) => Some(value),
        _ => None,
    }
}

fn keep_readable(text: &Option<String>, read: Option<Result<String, OperationFailed>>) -> (r:
    Option<String>)
    ensures
        r == if_readable(*text, read),
{
    match (text, read) {
        (Some(_), Some(Ok(value))) => Some(value),
        _ => None,
    }
}

/// Whether the request is the one for this card. The country and the type of
/// the card are kept where the card has them and they could be read.
pub open spec fn is_request_for(
    request: PaymentMethodCreate,
    card: PaymentCard,
    country: Option<Result<String, OperationFailed>>,
    card_type: Option<Result<String, OperationFailed>>,
    payment_method: PaymentMethod,
    payment_method_type: PaymentMethodType,
    customer_id: CustomerId,
    billing_name: Option<String>,
) -> bool {
    request == PaymentMethodCreate {
        payment_method,
        payment_method_type,
        metadata: None,
        customer_id,
        payment_method_data: PaymentMethodCreateData::Card(
            CardDetail {
                card_issuing_country: if_readable(card.card_issuing_country, country),
                card_type: if_readable(card.card_type, card_type),
                ..billed_card(card, billing_name)
            },
        ),
        billing: None,
    }
}

/// The required field that is missing from a request, where one is. The fields
/// are asked for one after the other.
pub open spec fn missing_field(
    payment_method_data: Option<&PaymentMethodData>,
    payment_method: Option<PaymentMethod>,
    payment_method_type: Option<PaymentMethodType>,
    customer_id: Option<CustomerId>,
) -> Option<&'static str> {
    match payment_method_data {
        None => Some("payment_method_data"),
        Some(data) => if payment_method is None {
            Some("payment_method_type")
        } else if !(data is Card) || payment_method_type is None {
            Some("payment_method_data")
        } else if customer_id is None {
            Some("customer_id")
        } else {
            None
        },
    }
}

/// Forms the request to create a payment method from a card. Its country and its
/// type are handed in as they were read from the texts of the card.
pub fn get_payment_method_create_request(
    payment_method_data: Option<&PaymentMethodData>,
    country: Option<Result<String, OperationFailed>>,
    card_type: Option<Result<String, OperationFailed>>,
    payment_method: Option<PaymentMethod>,
    payment_method_type: Option<PaymentMethodType>,
    customer_id: &Option<CustomerId>,
    billing_name: Option<String>,
) -> (r: Result<PaymentMethodCreate, ApiErrorResponse>)
    ensures
        match missing_field(payment_method_data, payment_method, payment_method_type, *customer_id) {
            Some(field_name) => r == Err::<PaymentMethodCreate, ApiErrorResponse>(
                ApiErrorResponse::MissingRequiredField { field_name },
            ),
            None => r is Ok && is_request_for(
                r->Ok_0,
                payment_method_data->0->Card_0,
                country,
                card_type,
                payment_method->0,
                payment_method_type->0,
                customer_id->0,
                billing_name,
            ),
        },
{
    match payment_method_data {
        Some(pm_data) => match payment_method {
            Some(payment_method) => match pm_data {
                PaymentMethodData::Card(card) => {
                    let card_detail = CardDetail {
                        card_number: card.card_number.clone(),
                        card_exp_month: card.card_exp_month.clone(),
                        card_exp_year: card.card_exp_year.clone(),
                        card_holder_name: billing_name,
                        nick_name: card.nick_name.clone(),
                        card_issuing_country: keep_readable(&card.card_issuing_country, country),
                        card_network: card.card_network.clone(),
                        card_issuer: card.card_issuer.clone(),
                        card_type: keep_readable(&card.card_type, card_type),
                    };
                    let payment_method_type = match payment_method_type {
                        Some(payment_method_type) => payment_method_type,
                        None => {
                            return Err(
                                ApiErrorResponse::MissingRequiredField {
                                    field_name: "payment_method_data",
                                },
                            );
                        },
                    };
                    let customer_id = match customer_id {
                        Some(customer_id) => customer_id.clone(),
                        None => {
                            return Err(
                                ApiErrorResponse::MissingRequiredField { field_name: "customer_id" },
                            );
                        },
                    };
                    Ok(
                        PaymentMethodCreate {
                            payment_method,
                            payment_method_type,
                            metadata: None,
                            customer_id,
                            payment_method_data: PaymentMethodCreateData::Card(card_detail),
                            billing: None,
                        },
                    )
                },
                _ => Err(
                    ApiErrorResponse::MissingRequiredField { field_name: "payment_method_data" },
                ),
            },
            None => Err(
                ApiErrorResponse::MissingRequiredField { field_name: "payment_method_type" },
            ),
        },
        None => Err(ApiErrorResponse::MissingRequiredField { field_name: "payment_method_data" }),
    }
}

/// A request is formed exactly for a card with its family, its kind and its
/// customer; whoever asked is told the first of these that is missing.
pub proof fn missing_parts_are_told(
    payment_method_data: Option<&PaymentMethodData>,
    country: Option<Result<String, OperationFailed>>,
    card_type: Option<Result<String, OperationFailed>>,
    payment_method: Option<PaymentMethod>,
    payment_method_type: Option<PaymentMethodType>,
    customer_id: &Option<CustomerId>,
    billing_name: Option<String>,
    r: Result<PaymentMethodCreate, ApiErrorResponse>,
)
    requires
        call_ensures(
            get_payment_method_create_request,
            (
                payment_method_data,
                country,
                card_type,
                payment_method,
                payment_method_type,
                customer_id,
                billing_name,
            ),
            r,
        ),
    ensures
        r is Ok <==> {
            &&& payment_method_data is Some
            &&& payment_method_data->0 is Card
            &&& payment_method is Some
            &&& payment_method_type is Some
            &&& customer_id is Some
        },
        r matches Err(error) ==> error is MissingRequiredField && {
            let field_name = error->MissingRequiredField_field_name;
            if payment_method_data is Some && payment_method is None {
                field_name == "payment_method_type"
            } else if payment_method_data is Some && payment_method_data->0 is Card
                && payment_method_type is Some {
                field_name == "customer_id"
            } else {
                field_name == "payment_method_data"
            }
        },
{
}

/// A request holds what was handed in, each in its own place: the card with its
/// number, its expiry, its names, its issuer and its network, under the name that
/// is billed. The country and the type are what was read of the card's own texts.
pub proof fn requests_hold_what_was_handed_in(
    payment_method_data: Option<&PaymentMethodData>,
    country: Option<Result<String, OperationFailed>>,
    card_type: Option<Result<String, OperationFailed>>,
    payment_method: Option<PaymentMethod>,
    payment_method_type: Option<PaymentMethodType>,
    customer_id: &Option<CustomerId>,
    billing_name: Option<String>,
    r: Result<PaymentMethodCreate, ApiErrorResponse>,
)
    requires
        call_ensures(
            get_payment_method_create_request,
            (
                payment_method_data,
                country,
                card_type,
                payment_method,
                payment_method_type,
                customer_id,
                billing_name,
            ),
            r,
        ),
        r is Ok,
    ensures
        ({
            let request = r->Ok_0;
            let card = payment_method_data->0->Card_0;
            let kept = request.payment_method_data->Card_0;
            &&& request.payment_method == payment_method->0
            &&& request.payment_method_type == payment_method_type->0
            &&& request.customer_id == customer_id->0
            &&& request.metadata is None
            &&& request.billing is None
            &&& request.payment_method_data is Card
            &&& kept.card_number == card.card_number
            &&& kept.card_exp_month == card.card_exp_month
            &&& kept.card_exp_year == card.card_exp_year
            &&& kept.card_holder_name == billing_name
            &&& kept.nick_name == card.nick_name
            &&& kept.card_network == card.card_network
            &&& kept.card_issuer == card.card_issuer
            &&& kept.card_issuing_country is Some <==> {
                &&& card.card_issuing_country is Some
                &&& country is Some
                &&& country->0 is Ok
            }
            &&& kept.card_issuing_country matches Some(text) ==> text == country->0->Ok_0
            &&& kept.card_type is Some <==> {
                &&& card.card_type is Some
                &&& card_type is Some
                &&& card_type->0 is Ok
            }
            &&& kept.card_type matches Some(text) ==> text == card_type->0->Ok_0
        }),
{
}

} // verus!
