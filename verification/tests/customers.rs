use router_core::customers::{
    get_or_create_customer_details, resume_get_or_create_customer_details,
    should_call_payout_connector_create_customer, ApiVersion, ConnectorCustomer, Customer,
    CustomerDetails, CustomerReply, CustomerRequest, CustomerState, CustomerStep,
    EncryptedCustomer,
};
use router_core::date_time::PrimitiveDateTime;
use router_core::errors::{ApiErrorResponse, OperationFailed, StorageError};

fn text(t: &str) -> String {
    t.to_string()
}

fn details(id: Option<&str>) -> CustomerDetails {
    CustomerDetails {
        customer_id: id.map(text),
        name: Some(text("Jo")),
        email: None,
        phone: Some(text("123")),
        phone_country_code: Some(text("+49")),
    }
}

fn customer(id: &str, entries: Option<Vec<ConnectorCustomer>>) -> Customer {
    Customer {
        customer_id: text(id),
        merchant_id: text("mer_1"),
        name: Some(vec![1]),
        email: None,
        phone: Some(vec![2]),
        description: None,
        phone_country_code: Some(text("+49")),
        metadata: None,
        connector_customer: entries,
        created_at: PrimitiveDateTime { unix_nanos: 10 },
        modified_at: PrimitiveDateTime { unix_nanos: 11 },
        address_id: None,
        default_payment_method_id: None,
        updated_by: None,
        version: ApiVersion::V1,
    }
}

fn entry(label: &str, id: Option<&str>) -> ConnectorCustomer {
    ConnectorCustomer { connector_label: text(label), connector_customer_id: id.map(text) }
}

fn asked(step: CustomerStep) -> (CustomerState, CustomerRequest) {
    match step {
        CustomerStep::Ask(state, request) => (state, request),
        CustomerStep::Done(result) => panic!("ended with {:?}", result),
    }
}

fn start(id: Option<&str>) -> (CustomerState, CustomerRequest) {
    asked(get_or_create_customer_details(details(id), text("mer_1")))
}

fn next(state: CustomerState, reply: CustomerReply) -> (CustomerState, CustomerRequest) {
    asked(resume_get_or_create_customer_details(state, reply))
}

#[test]
fn known_customer_is_found() {
    let (state, request) = start(Some("cus_1"));
    assert_eq!(
        request,
        CustomerRequest::FindCustomer { customer_id: text("cus_1"), merchant_id: text("mer_1") }
    );
    assert_eq!(
        resume_get_or_create_customer_details(
            state,
            CustomerReply::CustomerFound(Ok(Some(customer("cus_1", None)))),
        ),
        CustomerStep::Done(Ok(Some(customer("cus_1", None))))
    );
}

#[test]
fn missing_customer_is_created() {
    let (state, request) = start(None);
    assert_eq!(request, CustomerRequest::GenerateCustomerId);
    let (state, request) = next(state, CustomerReply::CustomerIdGenerated(text("cus_new")));
    assert_eq!(
        request,
        CustomerRequest::FindCustomer { customer_id: text("cus_new"), merchant_id: text("mer_1") }
    );
    let (state, request) = next(state, CustomerReply::CustomerFound(Ok(None)));
    assert_eq!(
        request,
        CustomerRequest::EncryptCustomer {
            name: Some(text("Jo")),
            email: None,
            phone: Some(text("123")),
        }
    );
    let encrypted =
        EncryptedCustomer { name: Some(vec![1]), email: None, phone: Some(vec![2]) };
    let (state, request) = next(state, CustomerReply::CustomerEncrypted(Ok(encrypted)));
    assert_eq!(request, CustomerRequest::ReadClock);
    let (state, request) = next(
        state,
        CustomerReply::ClockRead {
            created_at: PrimitiveDateTime { unix_nanos: 10 },
            modified_at: PrimitiveDateTime { unix_nanos: 11 },
        },
    );
    assert_eq!(
        request,
        CustomerRequest::InsertCustomer { customer: customer("cus_new", None) }
    );
    assert_eq!(
        resume_get_or_create_customer_details(
            state,
            CustomerReply::CustomerInserted(Ok(customer("cus_new", None))),
        ),
        CustomerStep::Done(Ok(Some(customer("cus_new", None))))
    );
}

#[test]
fn customer_failures_are_internal() {
    let internal = || CustomerStep::Done(Err(ApiErrorResponse::InternalServerError));
    let (state, _) = start(Some("cus_1"));
    assert_eq!(
        resume_get_or_create_customer_details(
            state,
            CustomerReply::CustomerFound(Err(StorageError::CustomerRedacted)),
        ),
        internal()
    );
    let (state, _) = start(Some("cus_1"));
    let (state, _) = next(state, CustomerReply::CustomerFound(Ok(None)));
    assert_eq!(
        resume_get_or_create_customer_details(
            state,
            CustomerReply::CustomerEncrypted(Err(OperationFailed)),
        ),
        internal()
    );
    let (state, _) = start(Some("cus_1"));
    let (state, _) = next(state, CustomerReply::CustomerFound(Ok(None)));
    let empty = EncryptedCustomer { name: None, email: None, phone: None };
    let (state, _) = next(state, CustomerReply::CustomerEncrypted(Ok(empty)));
    let now = PrimitiveDateTime { unix_nanos: 0 };
    let (state, _) =
        next(state, CustomerReply::ClockRead { created_at: now, modified_at: now });
    assert_eq!(
        resume_get_or_create_customer_details(
            state,
            CustomerReply::CustomerInserted(Err(StorageError::DuplicateValue)),
        ),
        internal()
    );
}

#[test]
fn connector_customer_is_created_where_it_is_missing() {
    let list = vec![text("stripe"), text("wise")];
    let known = Some(customer(
        "cus_1",
        Some(vec![entry("a", Some("id_a")), entry("b", None), entry("a", Some("id_2"))]),
    ));
    let stripe = Some(text("stripe"));
    assert_eq!(
        should_call_payout_connector_create_customer(&stripe, &list, &known, "a"),
        (false, Some("id_a"))
    );
    assert_eq!(
        should_call_payout_connector_create_customer(&stripe, &list, &known, "b"),
        (true, None)
    );
    assert_eq!(
        should_call_payout_connector_create_customer(&stripe, &list, &known, "c"),
        (true, None)
    );
    assert_eq!(
        should_call_payout_connector_create_customer(&stripe, &list, &None, "a"),
        (true, None)
    );
    let without_entries = Some(customer("cus_1", None));
    assert_eq!(
        should_call_payout_connector_create_customer(&stripe, &list, &without_entries, "a"),
        (true, None)
    );
}

#[test]
fn other_connectors_need_no_customer() {
    let list = vec![text("stripe")];
    let known = Some(customer("cus_1", Some(vec![entry("a", Some("id_a"))])));
    assert_eq!(
        should_call_payout_connector_create_customer(&Some(text("adyen")), &list, &known, "a"),
        (false, None)
    );
    assert_eq!(
        should_call_payout_connector_create_customer(&None, &list, &known, "a"),
        (false, None)
    );
}

#[test]
fn added_entry_ends_the_creation() {
    let list = vec![text("stripe")];
    let stripe = Some(text("stripe"));
    let before = Some(customer("cus_1", Some(vec![entry("x", Some("id_x"))])));
    assert_eq!(
        should_call_payout_connector_create_customer(&stripe, &list, &before, "a"),
        (true, None)
    );
    let after = Some(customer(
        "cus_1",
        Some(vec![entry("x", Some("id_x")), entry("a", Some("id_a"))]),
    ));
    assert_eq!(
        should_call_payout_connector_create_customer(&stripe, &list, &after, "a"),
        (false, Some("id_a"))
    );
    assert_eq!(
        should_call_payout_connector_create_customer(&stripe, &list, &after, "x"),
        (false, Some("id_x"))
    );
}
