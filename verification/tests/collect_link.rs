use std::collections::HashSet;

use router_core::collect_link::{
    create_pm_collect_db_entry, initiate_pm_collect_link, resume_create_pm_collect_db_entry,
    resume_initiate_pm_collect_link, EntryReply, EntryRequest, EntryState, EntryStep,
    GenericLinkNew, GenericLinkType, GenericLinkUiConfig, GenericLinkUiConfigFormData,
    InitiateReply, InitiateRequest, InitiateState, InitiateStep, PaymentMethodCollectLink,
    PaymentMethodCollectLinkData, PaymentMethodCollectLinkRequest,
    PaymentMethodCollectLinkResponse, PaymentMethodCollectStatus,
};
use router_core::collect_link_page::{
    render_pm_collect_link, resume_render_pm_collect_link, CollectPageConfig,
    GenericExpiredLinkData, GenericLinkFormData, GenericLinkStatusData, GenericLinks,
    GenericLinksData, PaymentMethodCollectLinkDetails, PaymentMethodCollectLinkStatusDetails,
    RenderReply, RenderRequest, RenderState, RenderStep,
};
use router_core::date_time::PrimitiveDateTime;
use router_core::errors::{ApiErrorResponse, OperationFailed, StorageError};

fn text(t: &str) -> String {
    t.to_string()
}

fn json() -> serde_json::Value {
    serde_json::Value::Bool(true)
}

fn wishes() -> GenericLinkUiConfig {
    GenericLinkUiConfig { logo: None, merchant_name: Some(text("Shop")), theme: None }
}

fn link_data() -> PaymentMethodCollectLinkData {
    PaymentMethodCollectLinkData {
        pm_collect_link_id: text("link_1"),
        customer_id: text("cus_1"),
        link: text("https://Pay.example"),
        client_secret: text("secret"),
        session_expiry: 60,
        ui_config: wishes(),
        enabled_payment_methods: Some(json()),
    }
}

fn link(url: &str, status: PaymentMethodCollectStatus, return_url: Option<&str>) -> PaymentMethodCollectLink {
    PaymentMethodCollectLink {
        link_id: text("link_1"),
        primary_reference: text("cus_1"),
        merchant_id: text("mer_1"),
        expiry: PrimitiveDateTime { unix_nanos: 60_000_000_005 },
        link_data: link_data(),
        link_status: status,
        url: text(url),
        return_url: return_url.map(text),
    }
}

fn open_link() -> PaymentMethodCollectLink {
    link("https://Pay.example", PaymentMethodCollectStatus::Initiated, Some("https://r.example"))
}

fn entry_asked(step: EntryStep) -> (EntryState, EntryRequest) {
    match step {
        EntryStep::Ask(state, request) => (state, request),
        EntryStep::Done(result) => panic!("ended with {:?}", result),
    }
}

fn initiate_asked(step: InitiateStep) -> (InitiateState, InitiateRequest) {
    match step {
        InitiateStep::Ask(state, request) => (state, request),
        InitiateStep::Done(result) => panic!("ended with {:?}", result),
    }
}

fn render_asked(step: RenderStep) -> (RenderState, RenderRequest) {
    match step {
        RenderStep::Ask(state, request) => (state, request),
        RenderStep::Done(result) => panic!("ended with {:?}", result),
    }
}

fn entry() -> (EntryState, EntryRequest) {
    entry_asked(create_pm_collect_db_entry(
        text("mer_1"),
        link_data(),
        Some(text("https://r.example")),
    ))
}

fn at_insertion() -> (EntryState, EntryRequest) {
    let (state, _) = entry();
    let (state, request) = entry_asked(resume_create_pm_collect_db_entry(
        state,
        EntryReply::LinkDataEncoded(Ok(json())),
    ));
    assert_eq!(request, EntryRequest::ReadClock);
    entry_asked(resume_create_pm_collect_db_entry(
        state,
        EntryReply::ClockRead(PrimitiveDateTime { unix_nanos: 5 }),
    ))
}

#[test]
fn link_is_entered_with_its_expiry() {
    let (_, request) = entry();
    assert_eq!(request, EntryRequest::EncodeLinkData { data: link_data() });
    let (state, request) = at_insertion();
    assert_eq!(
        request,
        EntryRequest::InsertLink {
            link: GenericLinkNew {
                link_id: text("link_1"),
                primary_reference: text("cus_1"),
                merchant_id: text("mer_1"),
                link_type: GenericLinkType::PaymentMethodCollect,
                link_data: json(),
                url: text("https://Pay.example"),
                return_url: Some(text("https://r.example")),
                expiry: PrimitiveDateTime { unix_nanos: 60_000_000_005 },
            },
        }
    );
    assert_eq!(
        resume_create_pm_collect_db_entry(state, EntryReply::LinkInserted(Ok(open_link()))),
        EntryStep::Done(Ok(open_link()))
    );
}

#[test]
fn entry_failures_are_answered() {
    let (state, _) = entry();
    assert_eq!(
        resume_create_pm_collect_db_entry(
            state,
            EntryReply::LinkDataEncoded(Err(OperationFailed)),
        ),
        EntryStep::Done(Err(ApiErrorResponse::InternalServerError))
    );
    let (state, _) = at_insertion();
    assert_eq!(
        resume_create_pm_collect_db_entry(
            state,
            EntryReply::LinkInserted(Err(StorageError::DuplicateValue)),
        ),
        EntryStep::Done(Err(ApiErrorResponse::GenericDuplicateError {
            message: text("payment method collect link already exists"),
        }))
    );
    let (state, _) = at_insertion();
    assert_eq!(
        resume_create_pm_collect_db_entry(
            state,
            EntryReply::LinkInserted(Err(StorageError::Other)),
        ),
        EntryStep::Done(Err(ApiErrorResponse::InternalServerError))
    );
}

fn initiate() -> (InitiateState, InitiateRequest) {
    initiate_asked(initiate_pm_collect_link(
        text("mer_1"),
        PaymentMethodCollectLinkRequest {
            link_id: None,
            customer_id: text("cus_1"),
            ui_config: None,
            session_expiry: Some(60),
            return_url: Some(text("https://r.example")),
            enabled_payment_methods: None,
        },
    ))
}

fn inserted(kept: PaymentMethodCollectLink) -> (InitiateState, InitiateRequest) {
    let (state, request) = initiate();
    assert!(matches!(request, InitiateRequest::ValidateRequest { .. }));
    let (state, request) = initiate_asked(resume_initiate_pm_collect_link(
        state,
        InitiateReply::RequestValidated(Ok(link_data())),
    ));
    assert_eq!(
        request,
        InitiateRequest::Enter { request: EntryRequest::EncodeLinkData { data: link_data() } }
    );
    let mut state = state;
    for reply in [
        EntryReply::LinkDataEncoded(Ok(json())),
        EntryReply::ClockRead(PrimitiveDateTime { unix_nanos: 5 }),
    ] {
        state = initiate_asked(resume_initiate_pm_collect_link(
            state,
            InitiateReply::Entered(reply),
        ))
        .0;
    }
    initiate_asked(resume_initiate_pm_collect_link(
        state,
        InitiateReply::Entered(EntryReply::LinkInserted(Ok(kept))),
    ))
}

#[test]
fn merchant_is_told_of_the_link() {
    let (state, request) = inserted(open_link());
    assert_eq!(request, InitiateRequest::ReadCustomerId { text: text("cus_1") });
    assert_eq!(
        resume_initiate_pm_collect_link(state, InitiateReply::CustomerIdRead(Ok(text("cus_1")))),
        InitiateStep::Done(Ok(PaymentMethodCollectLinkResponse {
            pm_collect_link_id: text("link_1"),
            customer_id: text("cus_1"),
            expiry: PrimitiveDateTime { unix_nanos: 60_000_000_005 },
            link: text("https://pay.example/"),
            return_url: Some(text("https://r.example")),
            ui_config: wishes(),
            enabled_payment_methods: Some(json()),
        }))
    );
}

#[test]
fn link_at_no_address_is_internal() {
    let (state, _) =
        inserted(link("not an address", PaymentMethodCollectStatus::Initiated, None));
    assert_eq!(
        resume_initiate_pm_collect_link(state, InitiateReply::CustomerIdRead(Ok(text("cus_1")))),
        InitiateStep::Done(Err(ApiErrorResponse::InternalServerError))
    );
}

#[test]
fn initiation_failures_are_answered() {
    let (state, _) = inserted(open_link());
    assert_eq!(
        resume_initiate_pm_collect_link(
            state,
            InitiateReply::CustomerIdRead(Err(OperationFailed)),
        ),
        InitiateStep::Done(Err(ApiErrorResponse::InvalidDataValue { field_name: "customer_id" }))
    );
    let (state, _) = initiate();
    let error = || ApiErrorResponse::Upstream { code: text("c"), message: text("m") };
    assert_eq!(
        resume_initiate_pm_collect_link(state, InitiateReply::RequestValidated(Err(error()))),
        InitiateStep::Done(Err(error()))
    );
    let (state, _) = initiate();
    let (state, _) = initiate_asked(resume_initiate_pm_collect_link(
        state,
        InitiateReply::RequestValidated(Ok(link_data())),
    ));
    assert_eq!(
        resume_initiate_pm_collect_link(
            state,
            InitiateReply::Entered(EntryReply::LinkDataEncoded(Err(OperationFailed))),
        ),
        InitiateStep::Done(Err(ApiErrorResponse::InternalServerError))
    );
}

fn page_config() -> GenericLinkUiConfigFormData {
    GenericLinkUiConfigFormData {
        merchant_name: text("Shop"),
        logo: text("logo.png"),
        theme: text("#fff"),
    }
}

fn render() -> (RenderState, RenderRequest) {
    render_asked(render_pm_collect_link(
        text("mer_1"),
        text("pk_1"),
        CollectPageConfig {
            ui_config: GenericLinkUiConfigFormData {
                merchant_name: text("Default"),
                logo: text("logo.png"),
                theme: text("#fff"),
            },
            sdk_url: text("https://sdk.example"),
        },
        text("link_1"),
    ))
}

fn seen(kept: PaymentMethodCollectLink, now: i128) -> RenderStep {
    let (state, request) = render();
    assert_eq!(request, RenderRequest::FindLink { link_id: text("link_1") });
    let (state, request) =
        render_asked(resume_render_pm_collect_link(state, RenderReply::LinkFound(Ok(kept))));
    assert_eq!(request, RenderRequest::ReadClock);
    resume_render_pm_collect_link(
        state,
        RenderReply::ClockRead(PrimitiveDateTime { unix_nanos: now }),
    )
}

fn page(data: GenericLinksData) -> RenderStep {
    RenderStep::Done(Ok(GenericLinks { allowed_domains: HashSet::new(), data, locale: text("en") }))
}

#[test]
fn missing_link_is_told() {
    let (state, _) = render();
    assert_eq!(
        resume_render_pm_collect_link(
            state,
            RenderReply::LinkFound(Err(StorageError::ValueNotFound)),
        ),
        RenderStep::Done(Err(ApiErrorResponse::GenericNotFoundError {
            message: text("payment method collect link not found"),
        }))
    );
    let (state, _) = render();
    assert_eq!(
        resume_render_pm_collect_link(state, RenderReply::LinkFound(Err(StorageError::Other))),
        RenderStep::Done(Err(ApiErrorResponse::InternalServerError))
    );
}

#[test]
fn expired_link_is_answered_at_once() {
    assert_eq!(
        seen(open_link(), 60_000_000_006),
        page(GenericLinksData::ExpiredLink(GenericExpiredLinkData {
            title: text("Payment collect link has expired"),
            message: text("This payment collect link has expired."),
            theme: text("#fff"),
        }))
    );
}

#[test]
fn open_link_has_a_form() {
    let (state, request) = render_asked(seen(open_link(), 60_000_000_005));
    assert_eq!(request, RenderRequest::ReadCustomerId { text: text("cus_1") });
    let (state, request) = render_asked(resume_render_pm_collect_link(
        state,
        RenderReply::CustomerIdRead(Ok(text("cus_1"))),
    ));
    assert_eq!(
        request,
        RenderRequest::FindCustomer { customer_id: text("cus_1"), merchant_id: text("mer_1") }
    );
    let (state, request) = render_asked(resume_render_pm_collect_link(
        state,
        RenderReply::CustomerFound(Ok(text("cus_1"))),
    ));
    assert_eq!(
        request,
        RenderRequest::EncodeForm {
            form: PaymentMethodCollectLinkDetails {
                publishable_key: text("pk_1"),
                client_secret: text("secret"),
                pm_collect_link_id: text("link_1"),
                customer_id: text("cus_1"),
                session_expiry: PrimitiveDateTime { unix_nanos: 60_000_000_005 },
                return_url: Some(text("https://r.example")),
                ui_config: page_config(),
                enabled_payment_methods: Some(json()),
            },
        }
    );
    assert_eq!(
        resume_render_pm_collect_link(state, RenderReply::Encoded(Ok(text("{\"a\":1}")))),
        page(GenericLinksData::PaymentMethodCollect(GenericLinkFormData {
            js_data: text("window.__PM_COLLECT_DETAILS = {\"a\":1}"),
            css_data: text(""),
            sdk_url: text("https://sdk.example"),
            html_meta_tags: text(""),
        }))
    );
}

#[test]
fn form_failures_are_answered() {
    let (state, _) = render_asked(seen(open_link(), 0));
    assert_eq!(
        resume_render_pm_collect_link(state, RenderReply::CustomerIdRead(Err(OperationFailed))),
        RenderStep::Done(Err(ApiErrorResponse::InvalidDataValue { field_name: "customer_id" }))
    );
    let at_customer = || {
        let (state, _) = render_asked(seen(open_link(), 0));
        render_asked(resume_render_pm_collect_link(
            state,
            RenderReply::CustomerIdRead(Ok(text("cus_1"))),
        ))
        .0
    };
    assert_eq!(
        resume_render_pm_collect_link(
            at_customer(),
            RenderReply::CustomerFound(Err(StorageError::ValueNotFound)),
        ),
        RenderStep::Done(Err(ApiErrorResponse::InvalidRequestData {
            message: text("Customer [cus_1] not found for link_id - link_1"),
        }))
    );
    let (state, _) = render_asked(resume_render_pm_collect_link(
        at_customer(),
        RenderReply::CustomerFound(Ok(text("cus_1"))),
    ));
    assert_eq!(
        resume_render_pm_collect_link(state, RenderReply::Encoded(Err(OperationFailed))),
        RenderStep::Done(Err(ApiErrorResponse::InternalServerError))
    );
}

#[test]
fn used_link_tells_its_status() {
    for (status, return_url, address) in [
        (
            PaymentMethodCollectStatus::Submitted,
            Some("https://R.example"),
            Some("https://r.example/"),
        ),
        (PaymentMethodCollectStatus::Invalidated, None, None),
    ] {
        let (state, request) =
            render_asked(seen(link("https://p.example", status, return_url), i128::MAX));
        assert_eq!(
            request,
            RenderRequest::EncodeStatus {
                details: PaymentMethodCollectLinkStatusDetails {
                    pm_collect_link_id: text("link_1"),
                    customer_id: text("cus_1"),
                    session_expiry: PrimitiveDateTime { unix_nanos: 60_000_000_005 },
                    return_url: address.map(text),
                    ui_config: page_config(),
                    status,
                },
            }
        );
        assert_eq!(
            resume_render_pm_collect_link(state, RenderReply::Encoded(Ok(text("{}")))),
            page(GenericLinksData::PaymentMethodCollectStatus(GenericLinkStatusData {
                js_data: text("window.__PM_COLLECT_DETAILS = {}"),
                css_data: text(""),
            }))
        );
    }
}

#[test]
fn used_link_with_a_bad_address_is_internal() {
    assert_eq!(
        seen(
            link("https://p.example", PaymentMethodCollectStatus::Submitted, Some("no address")),
            0,
        ),
        RenderStep::Done(Err(ApiErrorResponse::InternalServerError))
    );
    let (state, _) = render_asked(seen(
        link("https://p.example", PaymentMethodCollectStatus::Submitted, None),
        0,
    ));
    assert_eq!(
        resume_render_pm_collect_link(state, RenderReply::Encoded(Err(OperationFailed))),
        RenderStep::Done(Err(ApiErrorResponse::InternalServerError))
    );
}
