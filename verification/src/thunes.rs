//! The connector to Thunes: which requests it makes, and how it reads what
//! comes back.
//!
//! What is specific to the messages of Thunes, their fields and their JSON, is
//! read and written outside; the results are handed in.

use vstd::prelude::*;

use crate::decimal::{decimal, write_decimal};
use crate::errors::OperationFailed;
use crate::payout_types::MinorUnit;

verus! {

/// Why a connector cannot carry out what is asked of it.
#[derive(Debug, PartialEq, Eq)]
pub enum ConnectorError {
    NotImplemented(String),
    MissingRequiredField { field_name: &'static str },
    FailedToObtainAuthType,
    ResponseDeserializationFailed,
    WebhooksNotImplemented,
    /// The message of a request or a response could not be converted.
    ConversionFailed(String),
}

/// The unit in which a connector counts amounts.
#[derive(Clone, Copy, Debug, PartialEq, Eq, Structural)]
pub enum CurrencyUnit {
    Base,
    Minor,
}

/// How a connector writes amounts.
#[derive(Clone, Copy, Debug, PartialEq, Eq, Structural)]
pub enum AmountConvertor {
    /// As a text, in the smallest unit of the currency.
    StringMinorUnitForConnector,
}

/// What a connector can be asked to do.
#[derive(Clone, Copy, Debug, PartialEq, Eq, Structural)]
pub enum Flow {
    Authorize,
    PSync,
    Capture,
    /// Refund a payment.
    Execute,
    /// Ask how a refund stands.
    RSync,
    PoQuote,
    PoCreate,
    PoFulfill,
    PoCancel,
}

impl Flow {
    /// Whether the flow is part of a payout.
    pub open spec fn is_payout(self) -> bool {
        self is PoQuote || self is PoCreate || self is PoFulfill || self is PoCancel
    }
}

/// The value of a header.
#[derive(Debug, PartialEq, Eq)]
pub enum Maskable {
    Normal(String),
    /// One that must not show in logs.
    Masked(String),
}

/// A header of a request.
#[derive(Debug, PartialEq, Eq)]
pub struct Header {
    pub name: String,
    pub value: Maskable,
}

/// The methods of requests.
#[derive(Clone, Copy, Debug, PartialEq, Eq, Structural)]
pub enum Method {
    Get,
    Post,
}

/// A request to a connector. It carries the headers that all requests do, and
/// these.
#[derive(Debug, PartialEq, Eq)]
pub struct Request {
    pub method: Method,
    pub url: String,
    pub headers: Vec<Header>,
    /// The body, as JSON.
    pub body: Option<serde_json::Value>,
}

/// What a request is about.
#[derive(Debug, PartialEq, Eq)]
pub struct ThunesRequestData {
    /// What the connector knows the payout as.
    pub connector_payout_id: Option<String>,
    pub minor_amount: MinorUnit,
    pub minor_refund_amount: MinorUnit,
}

/// The access to an account.
#[derive(Debug, PartialEq, Eq)]
pub struct ThunesAuthType {
    pub api_key: String,
}

/// Where connectors are reached.
#[derive(Debug, PartialEq, Eq)]
pub struct Connectors {
    pub thunes_base_url: String,
}

/// A body to write.
#[derive(Debug, PartialEq, Eq)]
pub enum BodyPlan {
    /// A payment of this amount.
    Payment { amount: String },
    /// A refund of this amount.
    Refund { amount: String },
    PayoutQuotation,
    PayoutTransaction,
    /// The body of a request of which the flow says nothing.
    Unspecified,
}

/// A request that waits for its body.
#[derive(Debug, PartialEq, Eq)]
pub struct RequestDraft {
    pub method: Method,
    pub url: String,
    pub headers: Vec<Header>,
}

/// What the making of a request does next.
#[derive(Debug, PartialEq, Eq)]
pub enum BuildStep {
    /// The body is to be written.
    Ask(RequestDraft, BodyPlan),
    Done(Result<Option<Request>, ConnectorError>),
}

/// What a connector answered.
#[derive(Debug, PartialEq, Eq)]
pub struct Response {
    pub response: Vec<u8>,
    pub status_code: u16,
}

/// The messages that responses carry.
#[derive(Clone, Copy, Debug, PartialEq, Eq, Structural)]
pub enum ResponseKind {
    Payment,
    Refund,
    PayoutQuotation,
    PayoutTransaction,
}

/// As what a message is recorded.
#[derive(Clone, Copy, Debug, PartialEq, Eq, Structural)]
pub enum EventRecord {
    Response,
    ErrorResponse,
}

/// Where the reading of a response waits for a reply.
#[derive(Debug, PartialEq, Eq)]
pub enum HandleState {
    Parsing { flow: Flow, status_code: u16 },
    Converting,
}

/// An outside operation that the reading of a response asks for.
#[derive(Debug, PartialEq, Eq)]
pub enum HandleRequest {
    /// Read the bytes as the JSON of a message.
    Parse { kind: ResponseKind, bytes: Vec<u8> },
    /// Record the message, where records are kept, and convert it.
    Convert { record: EventRecord, message: serde_json::Value, http_code: u16 },
}

/// The outcome of an outside operation.
#[derive(Debug, PartialEq, Eq)]
pub enum HandleReply {
    Parsed(Result<serde_json::Value, OperationFailed>),
    Converted(Result<serde_json::Value, ConnectorError>),
}

/// What the reading of a response does next. It ends with the data of the flow,
/// as JSON.
#[derive(Debug, PartialEq, Eq)]
pub enum HandleStep {
    Ask(HandleState, HandleRequest),
    Done(Result<serde_json::Value, ConnectorError>),
}

/// An error, as Thunes tells it.
#[derive(Debug, PartialEq, Eq)]
pub struct ThunesErrorResponse {
    pub code: String,
    pub message: String,
    pub reason: Option<String>,
}

/// An error, as connectors tell it.
#[derive(Debug, PartialEq, Eq)]
pub struct ErrorResponse {
    pub status_code: u16,
    pub code: String,
    pub message: String,
    pub reason: Option<String>,
    pub attempt_status: Option<String>,
    pub connector_transaction_id: Option<String>,
}

/// Whether these are the headers of a request: what its body is written in, and
/// the key of the account, which is masked.
pub open spec fn are_headers(headers: Seq<Header>, api_key: String) -> bool {
    &&& headers.len() == 2
    &&& headers[0].name@ == "Content-Type"@
    &&& headers[0].value matches Maskable::Normal(content_type)
    &&& content_type@ == "application/json"@
    &&& headers[1].name@ == "Authorization"@
    &&& headers[1].value == Maskable::Masked(api_key)
}

/// The address of a request within a payout.
pub open spec fn payout_url(flow: Flow, base_url: Seq<char>, id: Seq<char>) -> Seq<char> {
    match flow {
        Flow::PoCreate => base_url + "v2/money-transfer/quotations/"@ + id + "/transactions"@,
        Flow::PoFulfill => base_url + "v2/money-transfer/transactions/"@ + id + "/confirm"@,
        Flow::PoCancel => base_url + "v2/money-transfer/transactions/"@ + id + "/cancel"@,
        _ => base_url + "v2/money-transfer/quotations"@,
    }
}

/// Whether this is the answer to asking for the address of a request.
pub open spec fn is_url(
    r: Result<String, ConnectorError>,
    flow: Flow,
    base_url: Seq<char>,
    connector_payout_id: Option<String>,
) -> bool {
    match flow {
        Flow::PoQuote => r matches Ok(url) && url@ == payout_url(flow, base_url, Seq::empty()),
        Flow::PoCreate | Flow::PoFulfill | Flow::PoCancel => match connector_payout_id {
            Some(id) => r matches Ok(url) && url@ == payout_url(flow, base_url, id@),
            None => r == Err::<String, ConnectorError>(
                ConnectorError::MissingRequiredField { field_name: "id" },
            ),
        },
        _ => {
            r matches Err(ConnectorError::NotImplemented(what)) && what@ == "get_url method"@
        },
    }
}

/// Whether this is the answer to asking for the body of a request.
pub open spec fn is_body_plan(
    r: Result<BodyPlan, ConnectorError>,
    flow: Flow,
    data: ThunesRequestData,
) -> bool {
    match flow {
        Flow::Authorize => {
            r matches Ok(BodyPlan::Payment { amount }) && amount@ == decimal(
                data.minor_amount.value as int,
            )
        },
        Flow::Execute => {
            r matches Ok(BodyPlan::Refund { amount }) && amount@ == decimal(
                data.minor_refund_amount.value as int,
            )
        },
        Flow::Capture => {
            r matches Err(ConnectorError::NotImplemented(what)) && what@
                == "get_request_body method"@
        },
        Flow::PoQuote | Flow::PoCreate => r matches Ok(plan) && plan is PayoutQuotation,
        Flow::PoFulfill => r matches Ok(plan) && plan is PayoutTransaction,
        Flow::PSync | Flow::RSync | Flow::PoCancel => r matches Ok(plan) && plan is Unspecified,
    }
}

/// The method of a request.
pub open spec fn request_method(flow: Flow) -> Method {
    match flow {
        Flow::PSync | Flow::RSync => Method::Get,
        _ => Method::Post,
    }
}

/// Whether a request has a body.
pub open spec fn has_body(flow: Flow) -> bool {
    !(flow is PSync) && !(flow is PoCancel)
}

/// The message that a response carries.
pub open spec fn response_kind(flow: Flow) -> ResponseKind {
    match flow {
        Flow::Authorize | Flow::PSync | Flow::Capture => ResponseKind::Payment,
        Flow::Execute | Flow::RSync => ResponseKind::Refund,
        Flow::PoQuote => ResponseKind::PayoutQuotation,
        Flow::PoCreate | Flow::PoFulfill | Flow::PoCancel => ResponseKind::PayoutTransaction,
    }
}

/// As what a response is recorded.
pub open spec fn event_record(flow: Flow) -> EventRecord {
    match flow {
        Flow::PoFulfill => EventRecord::ErrorResponse,
        _ => EventRecord::Response,
    }
}

/// Whether the making of a request goes on in this way. The address is found
/// first, then the headers, then the body, and what fails first is answered.
pub open spec fn is_building(
    r: BuildStep,
    flow: Flow,
    base_url: Seq<char>,
    data: ThunesRequestData,
    auth: Result<ThunesAuthType, OperationFailed>,
) -> bool {
    if !flow.is_payout() || (!(flow is PoQuote) && data.connector_payout_id is None) {
        r matches BuildStep::Done(Err(error)) && is_url(
            Err(error),
            flow,
            base_url,
            data.connector_payout_id,
        )
    } else {
        match auth {
            Err(_) => r == BuildStep::Done(Err(ConnectorError::FailedToObtainAuthType)),
            Ok(auth) => match r {
                BuildStep::Ask(draft, plan) => {
                    &&& has_body(flow)
                    &&& draft.method == request_method(flow)
                    &&& is_url(Ok(draft.url), flow, base_url, data.connector_payout_id)
                    &&& are_headers(draft.headers@, auth.api_key)
                    &&& is_body_plan(Ok(plan), flow, data)
                },
                BuildStep::Done(Ok(Some(request))) => {
                    &&& !has_body(flow)
                    &&& request.method == request_method(flow)
                    &&& is_url(Ok(request.url), flow, base_url, data.connector_payout_id)
                    &&& are_headers(request.headers@, auth.api_key)
                    &&& request.body is None
                },
                _ => false,
            },
        }
    }
}

/// The connector.
#[derive(Clone, Copy, Debug, PartialEq, Eq, Structural)]
pub struct Thunes {
    pub amount_converter: AmountConvertor,
}

impl Thunes {
    /// The connector, which writes amounts as texts in the smallest unit.
    pub fn new() -> (r: &'static Self)
        ensures
            r.amount_converter == AmountConvertor::StringMinorUnitForConnector,
    {
        &Thunes { amount_converter: AmountConvertor::StringMinorUnitForConnector }
    }

    /// The name of the connector.
    pub fn id(&self) -> (r: &'static str)
        ensures
            r == "thunes",
    {
        "thunes"
    }

    /// The unit in which amounts are counted.
    pub fn get_currency_unit(&self) -> (r: CurrencyUnit)
        ensures
            r == CurrencyUnit::Base,
    {
        CurrencyUnit::Base
    }

    /// What bodies are written in.
    pub fn common_get_content_type(&self) -> (r: &'static str)
        ensures
            r == "application/json",
    {
        "application/json"
    }

    /// What the bodies of a flow are written in.
    pub fn get_content_type(&self, flow: Flow) -> (r: &'static str)
        ensures
            r == "application/json",
    {
        self.common_get_content_type()
    }

    /// Where the connector is reached.
    pub fn base_url<'a>(&self, connectors: &'a Connectors) -> (r: &'a str)
        ensures
            r@ == connectors.thunes_base_url@,
    {
        connectors.thunes_base_url.as_str()
    }

    /// The header that grants access, given the access that was found.
    pub fn get_auth_header(&self, auth: Result<ThunesAuthType, OperationFailed>) -> (r: Result<
        Vec<Header>,
        ConnectorError,
    >)
        ensures
            match auth {
                Err(_) => r == Err::<Vec<Header>, ConnectorError>(
                    ConnectorError::FailedToObtainAuthType,
                ),
                Ok(auth) => {
                    &&& r is Ok
                    &&& r->Ok_0@.len() == 1
                    &&& r->Ok_0@[0].name@ == "Authorization"@
                    &&& r->Ok_0@[0].value == Maskable::Masked(auth.api_key)
                },
            },
    {
        match auth {
            Err(_) => Err(ConnectorError::FailedToObtainAuthType),
            Ok(auth) => {
                let mut headers: Vec<Header> = Vec::new();
                headers.push(
                    Header {
                        name: "Authorization".to_owned(),
                        value: Maskable::Masked(auth.api_key),
                    },
                );
                Ok(headers)
            },
        }
    }

    /// The headers of a request, given the access that was found.
    pub fn build_headers(&self, auth: Result<ThunesAuthType, OperationFailed>) -> (r: Result<
        Vec<Header>,
        ConnectorError,
    >)
        ensures
            match auth {
                Err(_) => r == Err::<Vec<Header>, ConnectorError>(
                    ConnectorError::FailedToObtainAuthType,
                ),
                Ok(auth) => r is Ok && are_headers(r->Ok_0@, auth.api_key),
            },
    {
        let mut headers: Vec<Header> = Vec::new();
        headers.push(
            Header {
                name: "Content-Type".to_owned(),
                value: Maskable::Normal(self.common_get_content_type().to_owned()),
            },
        );
        match self.get_auth_header(auth) {
            Err(error) => Err(error),
            Ok(api_key) => {
                let mut api_key = api_key;
                headers.append(&mut api_key);
                Ok(headers)
            },
        }
    }

    /// The headers of a request of the flow, given the access that was found.
    pub fn get_headers(
        &self,
        flow: Flow,
        auth: Result<ThunesAuthType, OperationFailed>,
    ) -> (r: Result<Vec<Header>, ConnectorError>)
        ensures
            match auth {
                Err(_) => r == Err::<Vec<Header>, ConnectorError>(
                    ConnectorError::FailedToObtainAuthType,
                ),
                Ok(auth) => r is Ok && are_headers(r->Ok_0@, auth.api_key),
            },
    {
        self.build_headers(auth)
    }

    /// The address of a request. Only payouts have one.
    pub fn get_url(
        &self,
        flow: Flow,
        connector_payout_id: &Option<String>,
        connectors: &Connectors,
    ) -> (r: Result<String, ConnectorError>)
        ensures
            is_url(r, flow, connectors.thunes_base_url@, *connector_payout_id),
    {
        let (before, after) = match flow {
            Flow::PoQuote => {
                let mut url = self.base_url(connectors).to_owned();
                url.append("v2/money-transfer/quotations");
                return Ok(url);
            },
            Flow::PoCreate => ("v2/money-transfer/quotations/", "/transactions"),
            Flow::PoFulfill => ("v2/money-transfer/transactions/", "/confirm"),
            Flow::PoCancel => ("v2/money-transfer/transactions/", "/cancel"),
            _ => {
                return Err(ConnectorError::NotImplemented("get_url method".to_owned()));
            },
        };
        match connector_payout_id {
            None => Err(ConnectorError::MissingRequiredField { field_name: "id" }),
            Some(id) => {
                let mut url = self.base_url(connectors).to_owned();
                url.append(before);
                url.append(id.as_str());
                url.append(after);
                Ok(url)
            },
        }
    }

    /// The body that a request is to have.
    pub fn get_request_body(&self, flow: Flow, data: &ThunesRequestData) -> (r: Result<
        BodyPlan,
        ConnectorError,
    >)
        ensures
            is_body_plan(r, flow, *data),
    {
        match flow {
            Flow::Authorize => Ok(
                BodyPlan::Payment { amount: self.convert_amount(data.minor_amount) },
            ),
            Flow::Execute => Ok(
                BodyPlan::Refund { amount: self.convert_amount(data.minor_refund_amount) },
            ),
            Flow::Capture => Err(
                ConnectorError::NotImplemented("get_request_body method".to_owned()),
            ),
            Flow::PoQuote | Flow::PoCreate => Ok(BodyPlan::PayoutQuotation),
            Flow::PoFulfill => Ok(BodyPlan::PayoutTransaction),
            Flow::PSync | Flow::RSync | Flow::PoCancel => Ok(BodyPlan::Unspecified),
        }
    }

    /// An amount, as the connector writes it.
    pub fn convert_amount(&self, amount: MinorUnit) -> (r: String)
        ensures
            r@ == decimal(amount.value as int),
    {
        match self.amount_converter {
            AmountConvertor::StringMinorUnitForConnector => write_decimal(amount.value),
        }
    }

    /// Starts to make a request, given the access that was found.
    pub fn build_request(
        &self,
        flow: Flow,
        data: &ThunesRequestData,
        connectors: &Connectors,
        auth: Result<ThunesAuthType, OperationFailed>,
    ) -> (r: BuildStep)
        ensures
            is_building(r, flow, connectors.thunes_base_url@, *data, auth),
    {
        let method = match flow {
            Flow::PSync | Flow::RSync => Method::Get,
            _ => Method::Post,
        };
        let url = match self.get_url(flow, &data.connector_payout_id, connectors) {
            Ok(url) => url,
            Err(error) => {
                return BuildStep::Done(Err(error));
            },
        };
        let headers = match self.get_headers(flow, auth) {
            Ok(headers) => headers,
            Err(error) => {
                return BuildStep::Done(Err(error));
            },
        };
        match flow {
            Flow::PSync | Flow::PoCancel => BuildStep::Done(
                Ok(Some(Request { method, url, headers, body: None })),
            ),
            _ => match self.get_request_body(flow, data) {
                Ok(plan) => BuildStep::Ask(RequestDraft { method, url, headers }, plan),
                Err(error) => BuildStep::Done(Err(error)),
            },
        }
    }

    /// Goes on with the making of a request once its body is written.
    pub fn resume_build_request(
        &self,
        draft: RequestDraft,
        body: Result<serde_json::Value, ConnectorError>,
    ) -> (r: Result<Option<Request>, ConnectorError>)
        ensures
            r == (match body {
                Err(error) => Err(error),
                Ok(body) => Ok(
                    Some(
                        Request {
                            method: draft.method,
                            url: draft.url,
                            headers: draft.headers,
                            body: Some(body),
                        },
                    ),
                ),
            }),
    {
        match body {
            Err(error) => Err(error),
            Ok(body) => Ok(
                Some(
                    Request {
                        method: draft.method,
                        url: draft.url,
                        headers: draft.headers,
                        body: Some(body),
                    },
                ),
            ),
        }
    }

    /// Starts to read a response.
    pub fn handle_response(&self, flow: Flow, res: Response) -> (r: HandleStep)
        ensures
            r == HandleStep::Ask(
                HandleState::Parsing { flow, status_code: res.status_code },
                HandleRequest::Parse { kind: response_kind(flow), bytes: res.response },
            ),
    {
        let kind = match flow {
            Flow::Authorize | Flow::PSync | Flow::Capture => ResponseKind::Payment,
            Flow::Execute | Flow::RSync => ResponseKind::Refund,
            Flow::PoQuote => ResponseKind::PayoutQuotation,
            Flow::PoCreate | Flow::PoFulfill | Flow::PoCancel => ResponseKind::PayoutTransaction,
        };
        HandleStep::Ask(
            HandleState::Parsing { flow, status_code: res.status_code },
            HandleRequest::Parse { kind, bytes: res.response },
        )
    }

    /// Goes on with the reading of a response once the reply to what was asked
    /// for is there.
    pub fn resume_handle_response(&self, state: HandleState, reply: HandleReply) -> (r: HandleStep)
        requires
            state is Parsing ==> reply is Parsed,
            state is Converting ==> reply is Converted,
        ensures
            r == (match (state, reply) {
                (
                    HandleState::Parsing { flow, status_code },
                    HandleReply::Parsed(Ok(message)),
                ) => HandleStep::Ask(
                    HandleState::Converting,
                    HandleRequest::Convert {
                        record: event_record(flow),
                        message,
                        http_code: status_code,
                    },
                ),
                (_, HandleReply::Parsed(_)) => HandleStep::Done(
                    Err(ConnectorError::ResponseDeserializationFailed),
                ),
                (_, HandleReply::Converted(converted)) => HandleStep::Done(converted),
            }),
    {
        match reply {
            HandleReply::Parsed(parsed) => match (state, parsed) {
                (HandleState::Parsing { flow, status_code }, Ok(message)) => {
                    let record = match flow {
                        Flow::PoFulfill => EventRecord::ErrorResponse,
                        _ => EventRecord::Response,
                    };
                    HandleStep::Ask(
                        HandleState::Converting,
                        HandleRequest::Convert { record, message, http_code: status_code },
                    )
                },
                (_, _) => HandleStep::Done(Err(ConnectorError::ResponseDeserializationFailed)),
            },
            HandleReply::Converted(converted) => HandleStep::Done(converted),
        }
    }

    /// The error that a response tells of, given what the response was read as.
    pub fn build_error_response(
        &self,
        parsed: Result<ThunesErrorResponse, OperationFailed>,
        status_code: u16,
    ) -> (r: Result<ErrorResponse, ConnectorError>)
        ensures
            r == (match parsed {
                Err(_) => Err(ConnectorError::ResponseDeserializationFailed),
                Ok(response) => Ok(
                    ErrorResponse {
                        status_code,
                        code: response.code,
                        message: response.message,
                        reason: response.reason,
                        attempt_status: None,
                        connector_transaction_id: None,
                    },
                ),
            }),
    {
        match parsed {
            Err(_) => Err(ConnectorError::ResponseDeserializationFailed),
            Ok(response) => Ok(
                ErrorResponse {
                    status_code,
                    code: response.code,
                    message: response.message,
                    reason: response.reason,
                    attempt_status: None,
                    connector_transaction_id: None,
                },
            ),
        }
    }

    /// The error that a response to a request of the flow tells of.
    pub fn get_error_response(
        &self,
        flow: Flow,
        parsed: Result<ThunesErrorResponse, OperationFailed>,
        status_code: u16,
    ) -> (r: Result<ErrorResponse, ConnectorError>)
        ensures
            r == (match parsed {
                Err(_) => Err(ConnectorError::ResponseDeserializationFailed),
                Ok(response) => Ok(
                    ErrorResponse {
                        status_code,
                        code: response.code,
                        message: response.message,
                        reason: response.reason,
                        attempt_status: None,
                        connector_transaction_id: None,
                    },
                ),
            }),
    {
        self.build_error_response(parsed, status_code)
    }

    /// What a notice is about. There are no notices from Thunes.
    pub fn get_webhook_object_reference_id(&self) -> (r: Result<serde_json::Value, ConnectorError>)
        ensures
            r == Err::<serde_json::Value, ConnectorError>(ConnectorError::WebhooksNotImplemented),
    {
        Err(ConnectorError::WebhooksNotImplemented)
    }

    /// What a notice tells. There are no notices from Thunes.
    pub fn get_webhook_event_type(&self) -> (r: Result<serde_json::Value, ConnectorError>)
        ensures
            r == Err::<serde_json::Value, ConnectorError>(ConnectorError::WebhooksNotImplemented),
    {
        Err(ConnectorError::WebhooksNotImplemented)
    }

    /// What a notice holds. There are no notices from Thunes.
    pub fn get_webhook_resource_object(&self) -> (r: Result<serde_json::Value, ConnectorError>)
        ensures
            r == Err::<serde_json::Value, ConnectorError>(ConnectorError::WebhooksNotImplemented),
    {
        Err(ConnectorError::WebhooksNotImplemented)
    }
}

/// Payments and refunds cannot be requested: whatever they are about, no request
/// is made for them.
pub proof fn only_payouts_are_requested(
    r: BuildStep,
    flow: Flow,
    base_url: Seq<char>,
    data: ThunesRequestData,
    auth: Result<ThunesAuthType, OperationFailed>,
)
    requires
        is_building(r, flow, base_url, data, auth),
        !flow.is_payout(),
    ensures
        r is Done,
        r->Done_0 is Err,
        r->Done_0->Err_0 is NotImplemented,
{
}

/// A payout can be quoted with nothing but access, and every further step of it
/// takes what the connector knows it as; then a request is made.
pub proof fn payouts_are_requested(
    r: BuildStep,
    flow: Flow,
    base_url: Seq<char>,
    data: ThunesRequestData,
    auth: Result<ThunesAuthType, OperationFailed>,
)
    requires
        is_building(r, flow, base_url, data, auth),
        flow.is_payout(),
    ensures
        r is Done && r->Done_0 is Err <==> auth is Err || (!(flow is PoQuote)
            && data.connector_payout_id is None),
        r matches BuildStep::Ask(draft, _) ==> draft.method == Method::Post,
        r matches BuildStep::Done(Ok(Some(request))) ==> request.method == Method::Post,
{
}

/// The address of a request tells which payout it is about.
pub proof fn payout_urls_tell_payouts_apart(
    flow: Flow,
    base_url: Seq<char>,
    id: Seq<char>,
    other_id: Seq<char>,
)
    requires
        flow is PoCreate || flow is PoFulfill || flow is PoCancel,
        payout_url(flow, base_url, id) == payout_url(flow, base_url, other_id),
    ensures
        id == other_id,
{
    let (before, after) = match flow {
        Flow::PoCreate => ("v2/money-transfer/quotations/"@, "/transactions"@),
        Flow::PoFulfill => ("v2/money-transfer/transactions/"@, "/confirm"@),
        _ => ("v2/money-transfer/transactions/"@, "/cancel"@),
    };
    let start = (base_url + before).len() as int;
    let url = payout_url(flow, base_url, id);
    assert(url == base_url + before + id + after);
    assert(url == base_url + before + other_id + after);
    assert(url.subrange(start, url.len() - after.len()) =~= id);
    assert(url.subrange(start, url.len() - after.len()) =~= other_id);
}

/// The requests of one payout go to different addresses.
pub proof fn payout_urls_tell_flows_apart(
    flow: Flow,
    other: Flow,
    base_url: Seq<char>,
    id: Seq<char>,
)
    requires
        flow.is_payout(),
        other.is_payout(),
        payout_url(flow, base_url, id) == payout_url(other, base_url, id),
    ensures
        flow == other,
{
    reveal_strlit("/transactions");
    reveal_strlit("/confirm");
    reveal_strlit("/cancel");
    reveal_strlit("v2/money-transfer/quotations");
    reveal_strlit("v2/money-transfer/quotations/");
    reveal_strlit("v2/money-transfer/transactions/");
    let create = payout_url(Flow::PoCreate, base_url, id);
    let fulfill = payout_url(Flow::PoFulfill, base_url, id);
    let cancel = payout_url(Flow::PoCancel, base_url, id);
    let quote = payout_url(Flow::PoQuote, base_url, id);
    assert(create.last() == 's');
    assert(fulfill.last() == 'm');
    assert(cancel.last() == 'l');
    assert(quote.last() == 's');
    assert(create.len() > quote.len());
}

} // verus!
