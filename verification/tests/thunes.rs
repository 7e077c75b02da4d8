use router_core::errors::OperationFailed;
use router_core::payout_types::MinorUnit;
use router_core::thunes::{
    BodyPlan, BuildStep, ConnectorError, Connectors, CurrencyUnit, ErrorResponse, EventRecord,
    Flow, HandleReply, HandleRequest, HandleState, HandleStep, Header, Maskable, Method, Request,
    Response, ResponseKind, Thunes, ThunesAuthType, ThunesErrorResponse, ThunesRequestData,
};

const PAYMENTS: [Flow; 5] =
    [Flow::Authorize, Flow::PSync, Flow::Capture, Flow::Execute, Flow::RSync];
const PAYOUTS: [Flow; 4] = [Flow::PoQuote, Flow::PoCreate, Flow::PoFulfill, Flow::PoCancel];

fn text(t: &str) -> String {
    t.to_string()
}

fn json() -> serde_json::Value {
    serde_json::Value::Bool(true)
}

fn connectors() -> Connectors {
    Connectors { thunes_base_url: text("https://api.example/") }
}

fn about(id: Option<&str>) -> ThunesRequestData {
    ThunesRequestData {
        connector_payout_id: id.map(text),
        minor_amount: MinorUnit { value: 1234 },
        minor_refund_amount: MinorUnit { value: -5 },
    }
}

fn access() -> Result<ThunesAuthType, OperationFailed> {
    Ok(ThunesAuthType { api_key: text("key") })
}

fn headers() -> Vec<Header> {
    vec![
        Header {
            name: text("Content-Type"),
            value: Maskable::Normal(text("application/json")),
        },
        Header { name: text("Authorization"), value: Maskable::Masked(text("key")) },
    ]
}

#[test]
fn connector_describes_itself() {
    let thunes = Thunes::new();
    assert_eq!(thunes.id(), "thunes");
    assert_eq!(thunes.get_currency_unit(), CurrencyUnit::Base);
    assert_eq!(thunes.common_get_content_type(), "application/json");
    assert_eq!(thunes.get_content_type(Flow::PoQuote), "application/json");
    assert_eq!(thunes.base_url(&connectors()), "https://api.example/");
}

#[test]
fn access_is_masked() {
    let thunes = Thunes::new();
    assert_eq!(
        thunes.get_auth_header(access()),
        Ok(vec![Header { name: text("Authorization"), value: Maskable::Masked(text("key")) }])
    );
    assert_eq!(thunes.build_headers(access()), Ok(headers()));
    assert_eq!(thunes.get_headers(Flow::PoCancel, access()), Ok(headers()));
    assert_eq!(
        thunes.build_headers(Err(OperationFailed)),
        Err(ConnectorError::FailedToObtainAuthType)
    );
    assert_eq!(
        thunes.get_auth_header(Err(OperationFailed)),
        Err(ConnectorError::FailedToObtainAuthType)
    );
}

#[test]
fn payout_addresses() {
    let thunes = Thunes::new();
    let url = |flow| thunes.get_url(flow, &Some(text("42")), &connectors());
    assert_eq!(
        url(Flow::PoQuote),
        Ok(text("https://api.example/v2/money-transfer/quotations"))
    );
    assert_eq!(
        url(Flow::PoCreate),
        Ok(text("https://api.example/v2/money-transfer/quotations/42/transactions"))
    );
    assert_eq!(
        url(Flow::PoFulfill),
        Ok(text("https://api.example/v2/money-transfer/transactions/42/confirm"))
    );
    assert_eq!(
        url(Flow::PoCancel),
        Ok(text("https://api.example/v2/money-transfer/transactions/42/cancel"))
    );
    for (i, flow) in PAYOUTS.iter().enumerate() {
        for other in &PAYOUTS[i + 1..] {
            assert_ne!(url(*flow), url(*other));
        }
    }
}

#[test]
fn addresses_take_what_the_payout_is_known_as() {
    let thunes = Thunes::new();
    for flow in [Flow::PoCreate, Flow::PoFulfill, Flow::PoCancel] {
        assert_eq!(
            thunes.get_url(flow, &None, &connectors()),
            Err(ConnectorError::MissingRequiredField { field_name: "id" })
        );
    }
    assert!(thunes.get_url(Flow::PoQuote, &None, &connectors()).is_ok());
}

#[test]
fn payments_have_no_address() {
    let thunes = Thunes::new();
    for flow in PAYMENTS {
        assert_eq!(
            thunes.get_url(flow, &Some(text("42")), &connectors()),
            Err(ConnectorError::NotImplemented(text("get_url method")))
        );
        assert_eq!(
            thunes.build_request(flow, &about(Some("42")), &connectors(), Err(OperationFailed)),
            BuildStep::Done(Err(ConnectorError::NotImplemented(text("get_url method"))))
        );
    }
}

#[test]
fn bodies_are_planned() {
    let thunes = Thunes::new();
    let body = |flow| thunes.get_request_body(flow, &about(None));
    assert_eq!(body(Flow::Authorize), Ok(BodyPlan::Payment { amount: text("1234") }));
    assert_eq!(body(Flow::Execute), Ok(BodyPlan::Refund { amount: text("-5") }));
    assert_eq!(
        body(Flow::Capture),
        Err(ConnectorError::NotImplemented(text("get_request_body method")))
    );
    assert_eq!(body(Flow::PoQuote), Ok(BodyPlan::PayoutQuotation));
    assert_eq!(body(Flow::PoCreate), Ok(BodyPlan::PayoutQuotation));
    assert_eq!(body(Flow::PoFulfill), Ok(BodyPlan::PayoutTransaction));
    assert_eq!(body(Flow::PoCancel), Ok(BodyPlan::Unspecified));
}

#[test]
fn request_is_made() {
    let thunes = Thunes::new();
    let draft = match thunes.build_request(
        Flow::PoFulfill,
        &about(Some("42")),
        &connectors(),
        access(),
    ) {
        BuildStep::Ask(draft, plan) => {
            assert_eq!(plan, BodyPlan::PayoutTransaction);
            draft
        }
        other => panic!("{:?}", other),
    };
    assert_eq!(
        thunes.resume_build_request(draft, Ok(json())),
        Ok(Some(Request {
            method: Method::Post,
            url: text("https://api.example/v2/money-transfer/transactions/42/confirm"),
            headers: headers(),
            body: Some(json()),
        }))
    );
}

#[test]
fn cancellation_has_no_body() {
    assert_eq!(
        Thunes::new().build_request(Flow::PoCancel, &about(Some("42")), &connectors(), access()),
        BuildStep::Done(Ok(Some(Request {
            method: Method::Post,
            url: text("https://api.example/v2/money-transfer/transactions/42/cancel"),
            headers: headers(),
            body: None,
        })))
    );
}

#[test]
fn request_failures_come_in_order() {
    let thunes = Thunes::new();
    assert_eq!(
        thunes.build_request(Flow::PoCreate, &about(None), &connectors(), Err(OperationFailed)),
        BuildStep::Done(Err(ConnectorError::MissingRequiredField { field_name: "id" }))
    );
    assert_eq!(
        thunes.build_request(Flow::PoQuote, &about(None), &connectors(), Err(OperationFailed)),
        BuildStep::Done(Err(ConnectorError::FailedToObtainAuthType))
    );
    match thunes.build_request(Flow::PoQuote, &about(None), &connectors(), access()) {
        BuildStep::Ask(draft, _) => assert_eq!(
            thunes.resume_build_request(
                draft,
                Err(ConnectorError::ConversionFailed(text("no currency"))),
            ),
            Err(ConnectorError::ConversionFailed(text("no currency")))
        ),
        other => panic!("{:?}", other),
    }
}

#[test]
fn responses_are_read_by_their_kind() {
    let thunes = Thunes::new();
    for (flow, kind) in [
        (Flow::Authorize, ResponseKind::Payment),
        (Flow::PSync, ResponseKind::Payment),
        (Flow::Capture, ResponseKind::Payment),
        (Flow::Execute, ResponseKind::Refund),
        (Flow::RSync, ResponseKind::Refund),
        (Flow::PoQuote, ResponseKind::PayoutQuotation),
        (Flow::PoCreate, ResponseKind::PayoutTransaction),
        (Flow::PoFulfill, ResponseKind::PayoutTransaction),
        (Flow::PoCancel, ResponseKind::PayoutTransaction),
    ] {
        let state = match thunes
            .handle_response(flow, Response { response: vec![1, 2], status_code: 201 })
        {
            HandleStep::Ask(state, request) => {
                assert_eq!(request, HandleRequest::Parse { kind, bytes: vec![1, 2] });
                state
            }
            other => panic!("{:?}", other),
        };
        let record = if flow == Flow::PoFulfill {
            EventRecord::ErrorResponse
        } else {
            EventRecord::Response
        };
        match thunes.resume_handle_response(state, HandleReply::Parsed(Ok(json()))) {
            HandleStep::Ask(state, request) => {
                assert_eq!(
                    request,
                    HandleRequest::Convert { record, message: json(), http_code: 201 }
                );
                assert_eq!(
                    thunes.resume_handle_response(state, HandleReply::Converted(Ok(json()))),
                    HandleStep::Done(Ok(json()))
                );
            }
            other => panic!("{:?}", other),
        }
    }
}

#[test]
fn unreadable_response_is_told() {
    let thunes = Thunes::new();
    assert_eq!(
        thunes.resume_handle_response(
            HandleState::Parsing { flow: Flow::PoQuote, status_code: 200 },
            HandleReply::Parsed(Err(OperationFailed)),
        ),
        HandleStep::Done(Err(ConnectorError::ResponseDeserializationFailed))
    );
    assert_eq!(
        thunes.get_error_response(Flow::PoQuote, Err(OperationFailed), 500),
        Err(ConnectorError::ResponseDeserializationFailed)
    );
}

#[test]
fn errors_keep_their_words() {
    let thunes = Thunes::new();
    let told = || {
        Ok(ThunesErrorResponse {
            code: text("1000"),
            message: text("bad"),
            reason: Some(text("why")),
        })
    };
    let expected = || {
        Ok(ErrorResponse {
            status_code: 422,
            code: text("1000"),
            message: text("bad"),
            reason: Some(text("why")),
            attempt_status: None,
            connector_transaction_id: None,
        })
    };
    assert_eq!(thunes.build_error_response(told(), 422), expected());
    assert_eq!(thunes.get_error_response(Flow::PoCancel, told(), 422), expected());
}

#[test]
fn there_are_no_notices() {
    let thunes = Thunes::new();
    assert_eq!(
        thunes.get_webhook_object_reference_id(),
        Err(ConnectorError::WebhooksNotImplemented)
    );
    assert_eq!(thunes.get_webhook_event_type(), Err(ConnectorError::WebhooksNotImplemented));
    assert_eq!(
        thunes.get_webhook_resource_object(),
        Err(ConnectorError::WebhooksNotImplemented)
    );
}
