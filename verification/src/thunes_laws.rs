//! What holds of the requests to Thunes and of the reading of its responses,
//! told from what goes in and what comes out.

use vstd::prelude::*;

use crate::decimal::{decimals_read_back, value_of_decimal};
use crate::errors::OperationFailed;
use crate::payout_types::MinorUnit;
use crate::thunes::{
    BodyPlan, BuildStep, ConnectorError, Connectors, CurrencyUnit, ErrorResponse,
    EventRecord, Flow, HandleReply, HandleRequest, HandleState, HandleStep, Header, Maskable,
    Method, Request, Response, ResponseKind, Thunes, ThunesAuthType,
    ThunesErrorResponse, ThunesRequestData,
};

verus! {

/// A request goes to the base address followed by the path of its flow, which
/// names the payout for all but a quotation. A payout that has no name is told
/// as missing it, and payments and refunds have no address.
pub proof fn requests_go_to_their_address(
    thunes: &Thunes,
    flow: Flow,
    connector_payout_id: &Option<String>,
    connectors: &Connectors,
    r: Result<String, ConnectorError>,
)
    requires
        call_ensures(Thunes::get_url, (thunes, flow, connector_payout_id, connectors), r),
    ensures
        flow is PoQuote ==> r is Ok && r->Ok_0@ == connectors.thunes_base_url@
            + "v2/money-transfer/quotations"@,
        flow is PoCreate && connector_payout_id is Some ==> r is Ok && r->Ok_0@
            == connectors.thunes_base_url@ + "v2/money-transfer/quotations/"@
            + connector_payout_id->0@ + "/transactions"@,
        flow is PoFulfill && connector_payout_id is Some ==> r is Ok && r->Ok_0@
            == connectors.thunes_base_url@ + "v2/money-transfer/transactions/"@
            + connector_payout_id->0@ + "/confirm"@,
        flow is PoCancel && connector_payout_id is Some ==> r is Ok && r->Ok_0@
            == connectors.thunes_base_url@ + "v2/money-transfer/transactions/"@
            + connector_payout_id->0@ + "/cancel"@,
        (flow is PoCreate || flow is PoFulfill || flow is PoCancel) && connector_payout_id is None
            ==> r is Err && r->Err_0 == (ConnectorError::MissingRequiredField { field_name: "id" }),
        !(flow is PoQuote || flow is PoCreate || flow is PoFulfill || flow is PoCancel) ==> r is Err
            && r->Err_0 is NotImplemented && r->Err_0->NotImplemented_0@ == "get_url method"@,
{
}

/// Whether these headers tell that the body is JSON, and grant access by this
/// key without showing it.
pub open spec fn tell_format_and_key(headers: Seq<Header>, api_key: String) -> bool {
    &&& headers.len() == 2
    &&& headers[0].name@ == "Content-Type"@
    &&& headers[0].value is Normal
    &&& headers[0].value->Normal_0@ == "application/json"@
    &&& headers[1].name@ == "Authorization"@
    &&& headers[1].value == Maskable::Masked(api_key)
}

/// The headers of every request tell the format and carry the key of the account
/// masked; without access there are none.
pub proof fn headers_carry_the_key(
    thunes: &Thunes,
    flow: Flow,
    auth: Result<ThunesAuthType, OperationFailed>,
    of_access: Result<Vec<Header>, ConnectorError>,
    of_any: Result<Vec<Header>, ConnectorError>,
    of_flow: Result<Vec<Header>, ConnectorError>,
)
    requires
        call_ensures(Thunes::get_auth_header, (thunes, auth), of_access),
        call_ensures(Thunes::build_headers, (thunes, auth), of_any),
        call_ensures(Thunes::get_headers, (thunes, flow, auth), of_flow),
    ensures
        auth is Ok ==> of_access is Ok && of_access->Ok_0@.len() == 1 && of_any is Ok
            && of_flow is Ok,
        auth matches Ok(access) ==> {
            &&& of_access->Ok_0@[0].name@ == "Authorization"@
            &&& of_access->Ok_0@[0].value == Maskable::Masked(access.api_key)
            &&& tell_format_and_key(of_any->Ok_0@, access.api_key)
            &&& tell_format_and_key(of_flow->Ok_0@, access.api_key)
        },
        auth is Err ==> {
            &&& of_access is Err && of_access->Err_0 is FailedToObtainAuthType
            &&& of_any is Err && of_any->Err_0 is FailedToObtainAuthType
            &&& of_flow is Err && of_flow->Err_0 is FailedToObtainAuthType
        },
{
}

/// A payment is of its amount and a refund of its own, each written so that it
/// reads back; a payout is quoted and created by a quotation and fulfilled by a
/// transaction; nothing is said of the other bodies, and a capture has none.
pub proof fn bodies_are_those_of_their_flow(
    thunes: &Thunes,
    flow: Flow,
    data: &ThunesRequestData,
    r: Result<BodyPlan, ConnectorError>,
)
    requires
        call_ensures(Thunes::get_request_body, (thunes, flow, data), r),
    ensures
        flow is Authorize <==> r is Ok && r->Ok_0 is Payment,
        flow is Authorize ==> value_of_decimal(r->Ok_0->Payment_amount@) == data.minor_amount.value,
        flow is Execute <==> r is Ok && r->Ok_0 is Refund,
        flow is Execute ==> value_of_decimal(r->Ok_0->Refund_amount@)
            == data.minor_refund_amount.value,
        flow is PoQuote || flow is PoCreate <==> r is Ok && r->Ok_0 is PayoutQuotation,
        flow is PoFulfill <==> r is Ok && r->Ok_0 is PayoutTransaction,
        flow is PSync || flow is RSync || flow is PoCancel <==> r is Ok && r->Ok_0 is Unspecified,
        flow is Capture <==> r is Err,
        r is Err ==> r->Err_0 is NotImplemented && r->Err_0->NotImplemented_0@
            == "get_request_body method"@,
{
    decimals_read_back(data.minor_amount.value as int);
    decimals_read_back(data.minor_refund_amount.value as int);
}

/// An amount is written so that it reads back.
pub proof fn amounts_read_back(thunes: &Thunes, amount: MinorUnit, text: String)
    requires
        call_ensures(Thunes::convert_amount, (thunes, amount), text),
    ensures
        value_of_decimal(text@) == amount.value,
{
    decimals_read_back(amount.value as int);
}

/// What Thunes is called, how it counts and writes amounts, what its bodies are
/// written in, and where it is reached.
pub proof fn the_connector_is_thunes(
    thunes: &'static Thunes,
    flow: Flow,
    connectors: &Connectors,
    name: &'static str,
    unit: CurrencyUnit,
    of_any: &'static str,
    of_flow: &'static str,
    base_url: &str,
)
    requires
        call_ensures(Thunes::new, (), thunes),
        call_ensures(Thunes::id, (thunes,), name),
        call_ensures(Thunes::get_currency_unit, (thunes,), unit),
        call_ensures(Thunes::common_get_content_type, (thunes,), of_any),
        call_ensures(Thunes::get_content_type, (thunes, flow), of_flow),
        call_ensures(Thunes::base_url, (thunes, connectors), base_url),
    ensures
        thunes.amount_converter is StringMinorUnitForConnector,
        name@ == "thunes"@,
        unit is Base,
        of_any@ == "application/json"@,
        of_flow@ == of_any@,
        base_url@ == connectors.thunes_base_url@,
{
}

/// Whether this is where a request of a payout goes.
pub open spec fn is_address_of(
    url: Seq<char>,
    flow: Flow,
    base_url: Seq<char>,
    connector_payout_id: Option<String>,
) -> bool {
    match flow {
        Flow::PoQuote => url == base_url + "v2/money-transfer/quotations"@,
        Flow::PoCreate => connector_payout_id is Some && url == base_url
            + "v2/money-transfer/quotations/"@ + connector_payout_id->0@ + "/transactions"@,
        Flow::PoFulfill => connector_payout_id is Some && url == base_url
            + "v2/money-transfer/transactions/"@ + connector_payout_id->0@ + "/confirm"@,
        Flow::PoCancel => connector_payout_id is Some && url == base_url
            + "v2/money-transfer/transactions/"@ + connector_payout_id->0@ + "/cancel"@,
        _ => false,
    }
}

/// A payout that is quoted, created or fulfilled is posted to its address with
/// the headers that grant access and with the body that was written for it.
pub proof fn payouts_are_posted_with_their_body(
    thunes: &Thunes,
    flow: Flow,
    data: &ThunesRequestData,
    connectors: &Connectors,
    auth: Result<ThunesAuthType, OperationFailed>,
    first: BuildStep,
    body: Result<serde_json::Value, ConnectorError>,
    made: Result<Option<Request>, ConnectorError>,
)
    requires
        call_ensures(Thunes::build_request, (thunes, flow, data, connectors, auth), first),
        first is Ask,
        call_ensures(Thunes::resume_build_request, (thunes, first->Ask_0, body), made),
    ensures
        flow is PoQuote || flow is PoCreate || flow is PoFulfill,
        flow is PoQuote || flow is PoCreate <==> first->Ask_1 is PayoutQuotation,
        flow is PoFulfill <==> first->Ask_1 is PayoutTransaction,
        body matches Err(error) ==> made is Err && made->Err_0 == error,
        body matches Ok(json) ==> made is Ok && made->Ok_0 is Some && {
            let request = made->Ok_0->0;
            &&& request.method == Method::Post
            &&& is_address_of(
                request.url@,
                flow,
                connectors.thunes_base_url@,
                data.connector_payout_id,
            )
            &&& auth is Ok
            &&& tell_format_and_key(request.headers@, auth->Ok_0.api_key)
            &&& request.body == Some(json)
        },
{
}

/// A payout that is cancelled is posted to its address without a body, and no
/// other request is made at once. What is answered otherwise is the first that is
/// missing: an address, the name of the payout, access.
pub proof fn other_requests_are_made_at_once_or_refused(
    thunes: &Thunes,
    flow: Flow,
    data: &ThunesRequestData,
    connectors: &Connectors,
    auth: Result<ThunesAuthType, OperationFailed>,
    first: BuildStep,
)
    requires
        call_ensures(Thunes::build_request, (thunes, flow, data, connectors, auth), first),
        first is Done,
    ensures
        first->Done_0 matches Ok(made) ==> made is Some && {
            let request = made->0;
            &&& flow is PoCancel
            &&& request.method == Method::Post
            &&& is_address_of(
                request.url@,
                flow,
                connectors.thunes_base_url@,
                data.connector_payout_id,
            )
            &&& auth is Ok
            &&& tell_format_and_key(request.headers@, auth->Ok_0.api_key)
            &&& request.body is None
        },
        first->Done_0 matches Err(error) ==> {
            let is_payout = flow is PoQuote || flow is PoCreate || flow is PoFulfill
                || flow is PoCancel;
            if !is_payout {
                error is NotImplemented && error->NotImplemented_0@ == "get_url method"@
            } else if !(flow is PoQuote) && data.connector_payout_id is None {
                error == (ConnectorError::MissingRequiredField { field_name: "id" })
            } else {
                auth is Err && error is FailedToObtainAuthType
            }
        },
{
}

/// A response is read as the message of its flow and converted with the status
/// that it came with; what cannot be read is told, and what the conversion says
/// is the end of it. The answer to a fulfilment is recorded as an error, all
/// others as responses.
pub proof fn responses_are_read_by_their_flow(
    thunes: &Thunes,
    flow: Flow,
    res: Response,
    first: HandleStep,
    parsed: Result<serde_json::Value, OperationFailed>,
    second: HandleStep,
)
    requires
        call_ensures(Thunes::handle_response, (thunes, flow, res), first),
        first is Ask,
        first->Ask_0 is Parsing,
        call_ensures(
            Thunes::resume_handle_response,
            (thunes, first->Ask_0, HandleReply::Parsed(parsed)),
            second,
        ),
    ensures
        first->Ask_1 matches HandleRequest::Parse { kind, bytes } && {
            &&& bytes == res.response
            &&& kind == ResponseKind::Payment <==> flow is Authorize || flow is PSync
                || flow is Capture
            &&& kind == ResponseKind::Refund <==> flow is Execute || flow is RSync
            &&& kind == ResponseKind::PayoutQuotation <==> flow is PoQuote
            &&& kind == ResponseKind::PayoutTransaction <==> flow is PoCreate || flow is PoFulfill
                || flow is PoCancel
        },
        parsed is Err ==> second is Done && second->Done_0 is Err && second->Done_0->Err_0
            is ResponseDeserializationFailed,
        parsed matches Ok(json) ==> second is Ask && second->Ask_0 is Converting && (
        second->Ask_1 matches HandleRequest::Convert { record, message, http_code } && {
            &&& message == json
            &&& http_code == res.status_code
            &&& record == EventRecord::ErrorResponse <==> flow is PoFulfill
        }),
{
}

/// The first step of reading a response is always to read its bytes.
pub proof fn responses_are_read_first(
    thunes: &Thunes,
    flow: Flow,
    res: Response,
    first: HandleStep,
)
    requires
        call_ensures(Thunes::handle_response, (thunes, flow, res), first),
    ensures
        first is Ask,
        first->Ask_0 == (HandleState::Parsing { flow, status_code: res.status_code }),
        first->Ask_1 is Parse,
{
}

/// What a message was converted to is what the reading of a response ends with.
pub proof fn conversions_end_the_reading(
    thunes: &Thunes,
    converted: Result<serde_json::Value, ConnectorError>,
    last: HandleStep,
)
    requires
        call_ensures(
            Thunes::resume_handle_response,
            (thunes, HandleState::Converting, HandleReply::Converted(converted)),
            last,
        ),
    ensures
        last == HandleStep::Done(converted),
{
}

/// An error is told with its code, its message and its reason, each in its own
/// place, and with the status of the response; what cannot be read is told as
/// such.
pub proof fn errors_are_told_as_they_came(
    thunes: &Thunes,
    flow: Flow,
    parsed: Result<ThunesErrorResponse, OperationFailed>,
    status_code: u16,
    of_any: Result<ErrorResponse, ConnectorError>,
    of_flow: Result<ErrorResponse, ConnectorError>,
)
    requires
        call_ensures(Thunes::build_error_response, (thunes, parsed, status_code), of_any),
        call_ensures(Thunes::get_error_response, (thunes, flow, parsed, status_code), of_flow),
    ensures
        of_flow == of_any,
        parsed is Err ==> of_any is Err && of_any->Err_0 is ResponseDeserializationFailed,
        parsed matches Ok(told) ==> of_any is Ok && {
            let error = of_any->Ok_0;
            &&& error.status_code == status_code
            &&& error.code == told.code
            &&& error.message == told.message
            &&& error.reason == told.reason
            &&& error.attempt_status is None
            &&& error.connector_transaction_id is None
        },
{
}

/// There are no notices from Thunes, whatever is asked of them.
pub proof fn there_are_no_notices(
    thunes: &Thunes,
    about: Result<serde_json::Value, ConnectorError>,
    told: Result<serde_json::Value, ConnectorError>,
    held: Result<serde_json::Value, ConnectorError>,
)
    requires
        call_ensures(Thunes::get_webhook_object_reference_id, (thunes,), about),
        call_ensures(Thunes::get_webhook_event_type, (thunes,), told),
        call_ensures(Thunes::get_webhook_resource_object, (thunes,), held),
    ensures
        about is Err && about->Err_0 is WebhooksNotImplemented,
        told is Err && told->Err_0 is WebhooksNotImplemented,
        held is Err && held->Err_0 is WebhooksNotImplemented,
{
}

} // verus!
