//! The customer of a payout: finding or creating them here, and deciding
//! whether a connector has to be told of them.
//!
//! The flow asks for one outside operation at a time and is resumed with the
//! reply, until it is done.

use vstd::prelude::*;
use vstd::pervasive::unreached;

use crate::date_time::PrimitiveDateTime;
use crate::errors::{ApiErrorResponse, OperationFailed, StorageError};
use crate::payout_types::{CustomerId, MerchantId};
use crate::text::same_text;

verus! {

/// The generations of the API that a record can stem from.
#[derive(Clone, Copy, Debug, PartialEq, Eq, Structural)]
pub enum ApiVersion {
    V1,
    V2,
}

/// What a connector knows a customer as. There is no text where the record of
/// the connector is of another kind.
#[derive(Debug, PartialEq, Eq)]
pub struct ConnectorCustomer {
    pub connector_label: String,
    pub connector_customer_id: Option<String>,
}

/// A customer, as they are kept. Name, email and phone are encrypted.
#[derive(Debug, PartialEq, Eq)]
pub struct Customer {
    pub customer_id: CustomerId,
    pub merchant_id: MerchantId,
    pub name: Option<Vec<u8>>,
    pub email: Option<Vec<u8>>,
    pub phone: Option<Vec<u8>>,
    pub description: Option<String>,
    pub phone_country_code: Option<String>,
    pub metadata: Option<serde_json::Value>,
    pub connector_customer: Option<Vec<ConnectorCustomer>>,
    pub created_at: PrimitiveDateTime,
    pub modified_at: PrimitiveDateTime,
    pub address_id: Option<String>,
    pub default_payment_method_id: Option<String>,
    pub updated_by: Option<String>,
    pub version: ApiVersion,
}

/// A customer, as a merchant hands them in.
#[derive(Debug, PartialEq, Eq)]
pub struct CustomerDetails {
    pub customer_id: Option<CustomerId>,
    pub name: Option<String>,
    pub email: Option<String>,
    pub phone: Option<String>,
    pub phone_country_code: Option<String>,
}

/// Name, email and phone of a customer, encrypted.
#[derive(Debug, PartialEq, Eq)]
pub struct EncryptedCustomer {
    pub name: Option<Vec<u8>>,
    pub email: Option<Vec<u8>>,
    pub phone: Option<Vec<u8>>,
}

/// Where the flow waits for a reply.
#[derive(Debug, PartialEq, Eq)]
pub enum CustomerState {
    Naming { details: CustomerDetails, merchant_id: MerchantId },
    Finding { details: CustomerDetails, customer_id: CustomerId, merchant_id: MerchantId },
    Encrypting {
        phone_country_code: Option<String>,
        customer_id: CustomerId,
        merchant_id: MerchantId,
    },
    ReadingClock {
        phone_country_code: Option<String>,
        customer_id: CustomerId,
        merchant_id: MerchantId,
        encrypted: EncryptedCustomer,
    },
    Inserting,
}

/// An outside operation that the flow asks for.
#[derive(Debug, PartialEq, Eq)]
pub enum CustomerRequest {
    /// Make up an identifier for a customer.
    GenerateCustomerId,
    FindCustomer { customer_id: CustomerId, merchant_id: MerchantId },
    /// Encrypt the texts under the key of the merchant.
    EncryptCustomer { name: Option<String>, email: Option<String>, phone: Option<String> },
    /// Read the clock twice.
    ReadClock,
    InsertCustomer { customer: Customer },
}

/// The outcome of an outside operation.
#[derive(Debug, PartialEq, Eq)]
pub enum CustomerReply {
    CustomerIdGenerated(CustomerId),
    CustomerFound(Result<Option<Customer>, StorageError>),
    CustomerEncrypted(Result<EncryptedCustomer, OperationFailed>),
    ClockRead { created_at: PrimitiveDateTime, modified_at: PrimitiveDateTime },
    CustomerInserted(Result<Customer, StorageError>),
}

/// What the flow does next.
#[derive(Debug, PartialEq, Eq)]
pub enum CustomerStep {
    Ask(CustomerState, CustomerRequest),
    Done(Result<Option<Customer>, ApiErrorResponse>),
}

impl CustomerState {
    /// Whether the reply is one to what the flow asked for in this state.
    pub open spec fn awaits(self, reply: CustomerReply) -> bool {
        match self {
            CustomerState::Naming { .. } => reply is CustomerIdGenerated,
            CustomerState::Finding { .. } => reply is CustomerFound,
            CustomerState::Encrypting { .. } => reply is CustomerEncrypted,
            CustomerState::ReadingClock { .. } => reply is ClockRead,
            CustomerState::Inserting => reply is CustomerInserted,
        }
    }
}

/// The customer is looked for.
pub open spec fn finding(
    details: CustomerDetails,
    customer_id: CustomerId,
    merchant_id: MerchantId,
) -> CustomerStep {
    CustomerStep::Ask(
        CustomerState::Finding { details, customer_id, merchant_id },
        CustomerRequest::FindCustomer { customer_id, merchant_id },
    )
}

fn find(details: CustomerDetails, customer_id: CustomerId, merchant_id: MerchantId) -> (r:
    CustomerStep)
    ensures
        r == finding(details, customer_id, merchant_id),
{
    let request = CustomerRequest::FindCustomer {
        customer_id: customer_id.clone(),
        merchant_id: merchant_id.clone(),
    };
    CustomerStep::Ask(CustomerState::Finding { details, customer_id, merchant_id }, request)
}

/// The first step: a customer without an identifier gets one.
pub open spec fn customer_started(
    details: CustomerDetails,
    merchant_id: MerchantId,
) -> CustomerStep {
    match details.customer_id {
        Some(customer_id) => finding(details, customer_id, merchant_id),
        None => CustomerStep::Ask(
            CustomerState::Naming { details, merchant_id },
            CustomerRequest::GenerateCustomerId,
        ),
    }
}

/// Starts to find a customer, or to create them where there is no such one.
pub fn get_or_create_customer_details(
    customer_details: CustomerDetails,
    merchant_id: MerchantId,
) -> (r: CustomerStep)
    ensures
        r == customer_started(customer_details, merchant_id),
{
    match customer_details.customer_id.clone() {
        Some(customer_id) => find(customer_details, customer_id, merchant_id),
        None => CustomerStep::Ask(
            CustomerState::Naming { details: customer_details, merchant_id },
            CustomerRequest::GenerateCustomerId,
        ),
    }
}

/// A customer who is created, with what was encrypted of them.
pub open spec fn new_customer(
    customer_id: CustomerId,
    merchant_id: MerchantId,
    encrypted: EncryptedCustomer,
    phone_country_code: Option<String>,
    created_at: PrimitiveDateTime,
    modified_at: PrimitiveDateTime,
) -> Customer {
    Customer {
        customer_id,
        merchant_id,
        name: encrypted.name,
        email: encrypted.email,
        phone: encrypted.phone,
        description: None,
        phone_country_code,
        metadata: None,
        connector_customer: None,
        created_at,
        modified_at,
        address_id: None,
        default_payment_method_id: None,
        updated_by: None,
        version: ApiVersion::V1,
    }
}

/// What the flow does in `state` on `reply`.
pub open spec fn customer_resumed(
    state: CustomerState,
    reply: CustomerReply,
    r: CustomerStep,
) -> bool {
    match (state, reply) {
        (
            CustomerState::Naming { details, merchant_id },
            CustomerReply::CustomerIdGenerated(customer_id),
        ) => r == finding(details, customer_id, merchant_id),
        (
            CustomerState::Finding { details, customer_id, merchant_id },
            CustomerReply::CustomerFound(found),
        ) => r == (match found {
            Err(_) => CustomerStep::Done(Err(ApiErrorResponse::InternalServerError)),
            Ok(Some(customer)) => CustomerStep::Done(Ok(Some(customer))),
            Ok(None) => CustomerStep::Ask(
                CustomerState::Encrypting {
                    phone_country_code: details.phone_country_code,
                    customer_id,
                    merchant_id,
                },
                CustomerRequest::EncryptCustomer {
                    name: details.name,
                    email: details.email,
                    phone: details.phone,
                },
            ),
        }),
        (
            CustomerState::Encrypting { phone_country_code, customer_id, merchant_id },
            CustomerReply::CustomerEncrypted(encrypted),
        ) => r == (match encrypted {
            Err(_) => CustomerStep::Done(Err(ApiErrorResponse::InternalServerError)),
            Ok(encrypted) => CustomerStep::Ask(
                CustomerState::ReadingClock {
                    phone_country_code,
                    customer_id,
                    merchant_id,
                    encrypted,
                },
                CustomerRequest::ReadClock,
            ),
        }),
        (
            CustomerState::ReadingClock { phone_country_code, customer_id, merchant_id, encrypted },
            CustomerReply::ClockRead { created_at, modified_at },
        ) => r == CustomerStep::Ask(
            CustomerState::Inserting,
            CustomerRequest::InsertCustomer {
                customer: new_customer(
                    customer_id,
                    merchant_id,
                    encrypted,
                    phone_country_code,
                    created_at,
                    modified_at,
                ),
            },
        ),
        (CustomerState::Inserting, CustomerReply::CustomerInserted(inserted)) => r
            == CustomerStep::Done(
            match inserted {
                Err(_) => Err(ApiErrorResponse::InternalServerError),
                Ok(customer) => Ok(Some(customer)),
            },
        ),
        _ => false,
    }
}

/// Goes on with the flow once the reply to what it asked for is there.
pub fn resume_get_or_create_customer_details(state: CustomerState, reply: CustomerReply) -> (r:
    CustomerStep)
    requires
        state.awaits(reply),
    ensures
        customer_resumed(state, reply, r),
{
    match (state, reply) {
        (
            CustomerState::Naming { details, merchant_id },
            CustomerReply::CustomerIdGenerated(customer_id),
        ) => find(details, customer_id, merchant_id),
        (
            CustomerState::Finding { details, customer_id, merchant_id },
            CustomerReply::CustomerFound(found),
        ) => match found {
            Err(_) => CustomerStep::Done(Err(ApiErrorResponse::InternalServerError)),
            Ok(Some(customer)) => CustomerStep::Done(Ok(Some(customer))),
            Ok(None) => CustomerStep::Ask(
                CustomerState::Encrypting {
                    phone_country_code: details.phone_country_code,
                    customer_id,
                    merchant_id,
                },
                CustomerRequest::EncryptCustomer {
                    name: details.name,
                    email: details.email,
                    phone: details.phone,
                },
            ),
        },
        (
            CustomerState::Encrypting { phone_country_code, customer_id, merchant_id },
            CustomerReply::CustomerEncrypted(encrypted),
        ) => match encrypted {
            Err(_) => CustomerStep::Done(Err(ApiErrorResponse::InternalServerError)),
            Ok(encrypted) => CustomerStep::Ask(
                CustomerState::ReadingClock {
                    phone_country_code,
                    customer_id,
                    merchant_id,
                    encrypted,
                },
                CustomerRequest::ReadClock,
            ),
        },
        (
            CustomerState::ReadingClock { phone_country_code, customer_id, merchant_id, encrypted },
            CustomerReply::ClockRead { created_at, modified_at },
        ) => {
            let customer = Customer {
                customer_id,
                merchant_id,
                name: encrypted.name,
                email: encrypted.email,
                phone: encrypted.phone,
                description: None,
                phone_country_code,
                metadata: None,
                connector_customer: None,
                created_at,
                modified_at,
                address_id: None,
                default_payment_method_id: None,
                updated_by: None,
                version: ApiVersion::V1,
            };
            CustomerStep::Ask(
                CustomerState::Inserting,
                CustomerRequest::InsertCustomer { customer },
            )
        },
        (CustomerState::Inserting, CustomerReply::CustomerInserted(inserted)) => match inserted {
            Err(_) => CustomerStep::Done(Err(ApiErrorResponse::InternalServerError)),
            Ok(customer) => CustomerStep::Done(Ok(Some(customer))),
        },
        _ => unreached(),
    }
}

/// What the connector with this label knows a customer as, by the first entry
/// that it has.
pub open spec fn connector_customer_id(
    entries: Seq<ConnectorCustomer>,
    connector_label: Seq<char>,
) -> Option<Seq<char>>
    decreases entries.len(),
{
    if entries.len() == 0 {
        None
    } else if entries[0].connector_label@ == connector_label {
        match entries[0].connector_customer_id {
            Some(id) => Some(id@),
            None => None,
        }
    } else {
        connector_customer_id(entries.drop_first(), connector_label)
    }
}

/// What the connector with this label knows the customer as.
pub open spec fn known_as(customer: Option<Customer>, connector_label: Seq<char>) -> Option<
    Seq<char>,
> {
    match customer {
        Some(customer) => match customer.connector_customer {
            Some(entries) => connector_customer_id(entries@, connector_label),
            None => None,
        },
        None => None,
    }
}

fn find_connector_customer<'a>(
    entries: &'a Vec<ConnectorCustomer>,
    connector_label: &str,
) -> (r: Option<&'a str>)
    ensures
        connector_customer_id(entries@, connector_label@) == (match r {
            Some(id) => Some(id@),
            None => None,
        }),
{
    let mut i: usize = 0;
    proof {
        assert(entries@.skip(0) =~= entries@);
    }
    while i < entries.len()
        invariant
            i <= entries@.len(),
            connector_customer_id(entries@, connector_label@) == connector_customer_id(
                entries@.skip(i as int),
                connector_label@,
            ),
        decreases entries@.len() - i,
    {
        proof {
            assert(entries@.skip(i as int).drop_first() =~= entries@.skip(i + 1));
        }
        if same_text(entries[i].connector_label.as_str(), connector_label) {
            return match &entries[i].connector_customer_id {
                Some(id) => Some(id.as_str()),
                None => None,
            };
        }
        i = i + 1;
    }
    None
}

/// Whether a name is among those listed.
pub open spec fn is_listed(names: Seq<String>, name: Seq<char>) -> bool {
    exists|i: int| 0 <= i < names.len() && (#[trigger] names[i])@ == name
}

fn is_in_list(names: &Vec<String>, name: &str) -> (r: bool)
    ensures
        r == is_listed(names@, name@),
{
    let mut i: usize = 0;
    while i < names.len()
        invariant
            i <= names@.len(),
            forall|j: int| 0 <= j < i ==> (#[trigger] names@[j])@ != name@,
        decreases names@.len() - i,
    {
        if same_text(names[i].as_str(), name) {
            return true;
        }
        i = i + 1;
    }
    false
}

/// Whether payouts through the connector take a customer of its own. One that
/// does not carry payouts has no name here.
pub open spec fn needs_customer(
    payout_connector: Option<String>,
    payout_connector_list: Seq<String>,
) -> bool {
    payout_connector matches Some(connector) && is_listed(payout_connector_list, connector@)
}

/// Whether a customer has to be created with the connector before a payout, and
/// what the connector knows them as already. The connector is named where it
/// carries payouts.
pub fn should_call_payout_connector_create_customer<'a>(
    payout_connector: &Option<String>,
    payout_connector_list: &Vec<String>,
    customer: &'a Option<Customer>,
    connector_label: &str,
) -> (r: (bool, Option<&'a str>))
    ensures
        r.0 == (needs_customer(*payout_connector, payout_connector_list@) && known_as(
            *customer,
            connector_label@,
        ) is None),
        (match r.1 {
            Some(id) => Some(id@),
            None => None,
        }) == (if needs_customer(*payout_connector, payout_connector_list@) {
            known_as(*customer, connector_label@)
        } else {
            None
        }),
{
    let connector_needs_customer = match payout_connector {
        Some(connector) => is_in_list(payout_connector_list, connector.as_str()),
        None => false,
    };
    if connector_needs_customer {
        let details = match customer {
            Some(customer) => match &customer.connector_customer {
                Some(entries) => find_connector_customer(entries, connector_label),
                None => None,
            },
            None => None,
        };
        (details.is_none(), details)
    } else {
        (false, None)
    }
}

/// A connector that has no entry for a customer knows them, once an entry is
/// added, as that entry says.
pub proof fn an_added_entry_is_found(entries: Seq<ConnectorCustomer>, added: ConnectorCustomer)
    requires
        forall|i: int|
            0 <= i < entries.len() ==> (#[trigger] entries[i]).connector_label@
                != added.connector_label@,
    ensures
        connector_customer_id(entries, added.connector_label@) is None,
        connector_customer_id(entries.push(added), added.connector_label@) == (
        match added.connector_customer_id {
            Some(id) => Some(id@),
            None => None,
        }),
    decreases entries.len(),
{
    if entries.len() > 0 {
        assert(entries.push(added).drop_first() =~= entries.drop_first().push(added));
        an_added_entry_is_found(entries.drop_first(), added);
    }
}

/// An entry for one connector does not change what another connector knows a
/// customer as.
pub proof fn entries_do_not_interfere(
    entries: Seq<ConnectorCustomer>,
    added: ConnectorCustomer,
    connector_label: Seq<char>,
)
    requires
        added.connector_label@ != connector_label,
    ensures
        connector_customer_id(entries.push(added), connector_label) == connector_customer_id(
            entries,
            connector_label,
        ),
    decreases entries.len(),
{
    if entries.len() > 0 {
        assert(entries.push(added).drop_first() =~= entries.drop_first().push(added));
        entries_do_not_interfere(entries.drop_first(), added, connector_label);
    } else {
        assert(entries.push(added).drop_first() =~= entries);
    }
}

/// Whether these are the first steps of the flow, with the reply to each of
/// them but the last.
pub open spec fn is_run(
    details: CustomerDetails,
    merchant_id: MerchantId,
    replies: Seq<CustomerReply>,
    steps: Seq<CustomerStep>,
) -> bool {
    &&& steps.len() == replies.len() + 1
    &&& steps[0] == customer_started(details, merchant_id)
    &&& forall|i: int|
        #![trigger replies[i]]
        0 <= i < replies.len() ==> {
            &&& steps[i] is Ask
            &&& steps[i]->Ask_0.awaits(replies[i])
            &&& customer_resumed(steps[i]->Ask_0, replies[i], steps[i + 1])
        }
}

/// The position at which the search for the customer is replied to: a customer
/// without an identifier gets one first.
pub open spec fn find_reply(details: CustomerDetails) -> int {
    if details.customer_id is Some {
        0
    } else {
        1
    }
}

/// The identifier that the customer is looked for under.
pub open spec fn sought_id(details: CustomerDetails, replies: Seq<CustomerReply>) -> CustomerId {
    match details.customer_id {
        Some(customer_id) => customer_id,
        None => replies[0]->CustomerIdGenerated_0,
    }
}

/// What a step of a run owes to the replies before it.
spec fn step_is_sound(
    details: CustomerDetails,
    merchant_id: MerchantId,
    replies: Seq<CustomerReply>,
    step: CustomerStep,
) -> bool {
    let n = replies.len() as int;
    let k = find_reply(details);
    match step {
        CustomerStep::Ask(state, request) => match state {
            CustomerState::Naming { details: held, merchant_id: held_merchant } => {
                &&& n == 0
                &&& k == 1
                &&& held == details
                &&& held_merchant == merchant_id
                &&& request is GenerateCustomerId
            },
            CustomerState::Finding { details: held, customer_id, merchant_id: held_merchant } => {
                &&& n == k
                &&& held == details
                &&& held_merchant == merchant_id
                &&& customer_id == sought_id(details, replies)
                &&& request == CustomerRequest::FindCustomer { customer_id, merchant_id }
            },
            CustomerState::Encrypting {
                phone_country_code,
                customer_id,
                merchant_id: held_merchant,
            } => {
                &&& n == k + 1
                &&& held_merchant == merchant_id
                &&& customer_id == sought_id(details, replies)
                &&& phone_country_code == details.phone_country_code
                &&& replies[k] == CustomerReply::CustomerFound(Ok(None))
                &&& request is EncryptCustomer
            },
            CustomerState::ReadingClock {
                phone_country_code,
                customer_id,
                merchant_id: held_merchant,
                ..
            } => {
                &&& n == k + 2
                &&& held_merchant == merchant_id
                &&& customer_id == sought_id(details, replies)
                &&& phone_country_code == details.phone_country_code
                &&& replies[k] == CustomerReply::CustomerFound(Ok(None))
                &&& request is ReadClock
            },
            CustomerState::Inserting => {
                &&& n == k + 3
                &&& replies[k] == CustomerReply::CustomerFound(Ok(None))
                &&& request matches CustomerRequest::InsertCustomer { customer } && {
                    &&& customer.customer_id == sought_id(details, replies)
                    &&& customer.merchant_id == merchant_id
                    &&& customer.phone_country_code == details.phone_country_code
                    &&& customer.connector_customer is None
                }
            },
        },
        CustomerStep::Done(result) => {
            &&& n > k
            &&& result matches Ok(found) ==> found matches Some(customer) && {
                ||| replies.last() == CustomerReply::CustomerFound(Ok(Some(customer)))
                ||| {
                    &&& replies[k] == CustomerReply::CustomerFound(Ok(None))
                    &&& replies.last() == CustomerReply::CustomerInserted(Ok(customer))
                }
            }
            &&& result is Err ==> result == Err::<Option<Customer>, ApiErrorResponse>(
                ApiErrorResponse::InternalServerError,
            )
        },
    }
}

proof fn steps_are_sound(
    details: CustomerDetails,
    merchant_id: MerchantId,
    replies: Seq<CustomerReply>,
    steps: Seq<CustomerStep>,
    i: int,
)
    requires
        is_run(details, merchant_id, replies, steps),
        0 <= i <= replies.len(),
    ensures
        step_is_sound(details, merchant_id, replies.take(i), steps[i]),
        i <= find_reply(details) + 4,
    decreases i,
{
    if i > 0 {
        steps_are_sound(details, merchant_id, replies, steps, i - 1);
        let before = replies.take(i - 1);
        let after = replies.take(i);
        assert(customer_resumed(steps[i - 1]->Ask_0, replies[i - 1], steps[i - 1 + 1]));
        assert(after.last() == replies[i - 1]);
        assert(forall|j: int| 0 <= j < i - 1 ==> before[j] == after[j]);
    }
}

/// The flow ends: whatever the replies, it makes five requests at most.
pub proof fn every_run_ends(
    details: CustomerDetails,
    merchant_id: MerchantId,
    replies: Seq<CustomerReply>,
    steps: Seq<CustomerStep>,
)
    requires
        is_run(details, merchant_id, replies, steps),
    ensures
        replies.len() <= 5,
        replies.len() == 5 ==> steps.last() is Done,
{
    steps_are_sound(details, merchant_id, replies, steps, replies.len() as int);
}

/// A run that succeeds ends with a customer: the one that was found, or the one
/// that was inserted since none was found.
pub proof fn success_yields_a_customer(
    details: CustomerDetails,
    merchant_id: MerchantId,
    replies: Seq<CustomerReply>,
    steps: Seq<CustomerStep>,
)
    requires
        is_run(details, merchant_id, replies, steps),
        steps.last() is Done,
        steps.last()->Done_0 is Ok,
    ensures
        steps.last()->Done_0->Ok_0 is Some,
        ({
            let customer = steps.last()->Done_0->Ok_0->0;
            ||| replies.last() == CustomerReply::CustomerFound(Ok(Some(customer)))
            ||| {
                &&& replies[find_reply(details)] == CustomerReply::CustomerFound(Ok(None))
                &&& replies.last() == CustomerReply::CustomerInserted(Ok(customer))
            }
        }),
{
    let n = replies.len() as int;
    steps_are_sound(details, merchant_id, replies, steps, n);
    assert(replies.take(n) =~= replies);
}

/// A customer is inserted only where none was found, and under the identifier
/// and for the merchant that were searched.
pub proof fn only_missing_customers_are_inserted(
    details: CustomerDetails,
    merchant_id: MerchantId,
    replies: Seq<CustomerReply>,
    steps: Seq<CustomerStep>,
    i: int,
)
    requires
        is_run(details, merchant_id, replies, steps),
        0 <= i < steps.len(),
        steps[i] matches CustomerStep::Ask(_, request) && request is InsertCustomer,
    ensures
        replies[find_reply(details)] == CustomerReply::CustomerFound(Ok(None)),
        steps[i] matches CustomerStep::Ask(_, CustomerRequest::InsertCustomer { customer })
            && customer.customer_id == sought_id(details, replies) && customer.merchant_id
            == merchant_id,
{
    steps_are_sound(details, merchant_id, replies, steps, i);
    assert(replies.take(i)[0] == replies[0]);
    assert(replies.take(i)[find_reply(details)] == replies[find_reply(details)]);
}

/// A customer who is inserted is the one whose name, email and phone were
/// encrypted for this: each of the three is what its own text was encrypted to.
/// The dates are those that the clock told, and nothing else is known of them.
pub proof fn inserted_customers_are_those_encrypted(
    details: CustomerDetails,
    merchant_id: MerchantId,
    replies: Seq<CustomerReply>,
    steps: Seq<CustomerStep>,
    i: int,
)
    requires
        is_run(details, merchant_id, replies, steps),
        0 <= i < steps.len(),
        steps[i] is Ask,
        steps[i]->Ask_1 is InsertCustomer,
    ensures
        i >= 2,
        steps[i - 2] is Ask,
        steps[i - 2]->Ask_1 == (CustomerRequest::EncryptCustomer {
            name: details.name,
            email: details.email,
            phone: details.phone,
        }),
        ({
            let customer = steps[i]->Ask_1->InsertCustomer_customer;
            &&& replies[i - 2] matches CustomerReply::CustomerEncrypted(Ok(encrypted)) && {
                &&& customer.name == encrypted.name
                &&& customer.email == encrypted.email
                &&& customer.phone == encrypted.phone
            }
            &&& replies[i - 1] == CustomerReply::ClockRead {
                created_at: customer.created_at,
                modified_at: customer.modified_at,
            }
            &&& customer.customer_id == sought_id(details, replies)
            &&& customer.merchant_id == merchant_id
            &&& customer.phone_country_code == details.phone_country_code
            &&& customer.description is None
            &&& customer.metadata is None
            &&& customer.connector_customer is None
            &&& customer.address_id is None
            &&& customer.default_payment_method_id is None
            &&& customer.updated_by is None
            &&& customer.version == ApiVersion::V1
        }),
{
    steps_are_sound(details, merchant_id, replies, steps, i);
    assert(replies.take(i)[0] == replies[0]);
    let k = find_reply(details);
    steps_are_sound(details, merchant_id, replies, steps, k);
    steps_are_sound(details, merchant_id, replies, steps, k + 1);
    steps_are_sound(details, merchant_id, replies, steps, k + 2);
    assert(customer_resumed(steps[k]->Ask_0, replies[k], steps[k + 1]));
    assert(customer_resumed(steps[k + 1]->Ask_0, replies[k + 1], steps[k + 1 + 1]));
    assert(customer_resumed(steps[k + 2]->Ask_0, replies[k + 2], steps[k + 2 + 1]));
}

/// What a run asks for in turn: an identifier where none was handed in, then the
/// customer under that identifier, then what it takes to create one.
pub proof fn a_customer_is_sought_and_created(
    details: CustomerDetails,
    merchant_id: MerchantId,
    replies: Seq<CustomerReply>,
    steps: Seq<CustomerStep>,
    i: int,
)
    requires
        is_run(details, merchant_id, replies, steps),
        0 <= i < steps.len(),
    ensures
        i < find_reply(details) ==> steps[i] is Ask && steps[i]->Ask_1 is GenerateCustomerId,
        i == find_reply(details) ==> steps[i] is Ask && steps[i]->Ask_1 == (
        CustomerRequest::FindCustomer {
            customer_id: match details.customer_id {
                Some(customer_id) => customer_id,
                None => replies[0]->CustomerIdGenerated_0,
            },
            merchant_id,
        }),
        i == find_reply(details) + 1 ==> match replies[i - 1]->CustomerFound_0 {
            Err(_) => steps[i] == CustomerStep::Done(Err(ApiErrorResponse::InternalServerError)),
            Ok(Some(customer)) => steps[i] == CustomerStep::Done(Ok(Some(customer))),
            Ok(None) => steps[i] is Ask && steps[i]->Ask_1 == (CustomerRequest::EncryptCustomer {
                name: details.name,
                email: details.email,
                phone: details.phone,
            }),
        },
        i == find_reply(details) + 2 ==> match replies[i - 1]->CustomerEncrypted_0 {
            Err(_) => steps[i] == CustomerStep::Done(Err(ApiErrorResponse::InternalServerError)),
            Ok(_) => steps[i] is Ask && steps[i]->Ask_1 is ReadClock,
        },
        i == find_reply(details) + 3 ==> steps[i] is Ask && steps[i]->Ask_1 is InsertCustomer,
        i == find_reply(details) + 4 ==> match replies[i - 1]->CustomerInserted_0 {
            Err(_) => steps[i] == CustomerStep::Done(Err(ApiErrorResponse::InternalServerError)),
            Ok(customer) => steps[i] == CustomerStep::Done(Ok(Some(customer))),
        },
        i <= find_reply(details) + 4,
{
    steps_are_sound(details, merchant_id, replies, steps, i);
    if i > 0 {
        assert(replies.take(i)[0] == replies[0]);
        steps_are_sound(details, merchant_id, replies, steps, i - 1);
        assert(customer_resumed(steps[i - 1]->Ask_0, replies[i - 1], steps[i - 1 + 1]));
    }
}

/// The functions that carry out the flow make the steps that its laws speak of.
pub proof fn the_flow_is_carried_out(
    details: CustomerDetails,
    merchant_id: MerchantId,
    first: CustomerStep,
    state: CustomerState,
    reply: CustomerReply,
    next: CustomerStep,
)
    requires
        call_ensures(get_or_create_customer_details, (details, merchant_id), first),
        state.awaits(reply),
        call_ensures(resume_get_or_create_customer_details, (state, reply), next),
    ensures
        is_run(details, merchant_id, Seq::empty(), seq![first]),
        customer_resumed(state, reply, next),
{
}

/// A connector that is not listed, or that carries no payouts, is told of nobody.
pub proof fn unlisted_connectors_are_told_of_nobody(
    payout_connector: &Option<String>,
    payout_connector_list: &Vec<String>,
    customer: &Option<Customer>,
    connector_label: &str,
    r: (bool, Option<&str>),
)
    requires
        call_ensures(
            should_call_payout_connector_create_customer,
            (payout_connector, payout_connector_list, customer, connector_label),
            r,
        ),
        payout_connector matches Some(connector) ==> forall|i: int|
            0 <= i < payout_connector_list@.len() ==> (#[trigger] payout_connector_list@[i])@
                != connector@,
    ensures
        !r.0,
        r.1 is None,
{
}

/// A listed connector that has an entry for the customer is told of them exactly
/// where that entry, the first with its label, tells no identifier; and one that
/// has no entry is told of them.
pub proof fn listed_connectors_are_told_once(
    payout_connector: &Option<String>,
    payout_connector_list: &Vec<String>,
    customer: &Option<Customer>,
    connector_label: &str,
    r: (bool, Option<&str>),
    i: int,
    j: int,
)
    requires
        call_ensures(
            should_call_payout_connector_create_customer,
            (payout_connector, payout_connector_list, customer, connector_label),
            r,
        ),
        payout_connector is Some,
        0 <= i < payout_connector_list@.len(),
        payout_connector_list@[i]@ == payout_connector->0@,
        customer matches Some(known) ==> (known.connector_customer matches Some(entries) ==> {
            &&& 0 <= j <= entries@.len()
            &&& forall|m: int|
                0 <= m < j ==> (#[trigger] entries@[m]).connector_label@ != connector_label@
            &&& j < entries@.len() ==> entries@[j].connector_label@ == connector_label@
        }),
    ensures
        r.0 == r.1 is None,
        match customer {
            Some(known) => match known.connector_customer {
                Some(entries) => if j < entries@.len() {
                    match entries@[j].connector_customer_id {
                        Some(id) => r.1 is Some && r.1->0@ == id@,
                        None => r.1 is None,
                    }
                } else {
                    r.1 is None
                },
                None => r.1 is None,
            },
            None => r.1 is None,
        },
{
    assert(is_listed(payout_connector_list@, payout_connector->0@));
    match customer {
        Some(known) => match known.connector_customer {
            Some(entries) => {
                the_first_entry_counts(entries@, connector_label@, j);
            },
            None => {},
        },
        None => {},
    }
}

proof fn the_first_entry_counts(
    entries: Seq<ConnectorCustomer>,
    connector_label: Seq<char>,
    j: int,
)
    requires
        0 <= j <= entries.len(),
        forall|m: int|
            0 <= m < j ==> (#[trigger] entries[m]).connector_label@ != connector_label,
        j < entries.len() ==> entries[j].connector_label@ == connector_label,
    ensures
        j == entries.len() ==> connector_customer_id(entries, connector_label) is None,
        j < entries.len() ==> connector_customer_id(entries, connector_label) == (
        match entries[j].connector_customer_id {
            Some(id) => Some(id@),
            None => None,
        }),
    decreases entries.len(),
{
    if entries.len() > 0 && j > 0 {
        assert(entries[0].connector_label@ != connector_label);
        assert forall|m: int| 0 <= m < j - 1 implies (
        #[trigger] entries.drop_first()[m]).connector_label@ != connector_label by {
            assert(entries[m + 1].connector_label@ != connector_label);
        }
        the_first_entry_counts(entries.drop_first(), connector_label, j - 1);
    }
}

} // verus!
