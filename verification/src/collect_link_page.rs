//! Links at which customers hand in payment methods: the page behind one.
//!
//! The flow asks for one outside operation at a time and is resumed with the
//! reply, until it is done.

use std::collections::HashSet;

use vstd::prelude::*;
use vstd::pervasive::unreached;

use crate::collect_link::{
    GenericLinkUiConfig, GenericLinkUiConfigFormData, PaymentMethodCollectLink,
    PaymentMethodCollectStatus,
};
use crate::date_time::PrimitiveDateTime;
use crate::errors::{ApiErrorResponse, OperationFailed, StorageError};
use crate::outside::{parse_url, url_of};
use crate::payout_types::{CustomerId, MerchantId};
use crate::text::{present_or, value_or};

verus! {

/// The language of pages that were not asked for in another one.
pub const DEFAULT_LOCALE: &'static str = "en";

/// How pages look where the merchant has no wish, and where their code is.
#[derive(Debug, PartialEq, Eq)]
pub struct CollectPageConfig {
    pub ui_config: GenericLinkUiConfigFormData,
    pub sdk_url: String,
}

/// What the page at which methods are handed in is told.
#[derive(Debug, PartialEq, Eq)]
pub struct PaymentMethodCollectLinkDetails {
    pub publishable_key: String,
    pub client_secret: String,
    pub pm_collect_link_id: String,
    pub customer_id: CustomerId,
    pub session_expiry: PrimitiveDateTime,
    pub return_url: Option<String>,
    pub ui_config: GenericLinkUiConfigFormData,
    pub enabled_payment_methods: Option<serde_json::Value>,
}

/// What the page of a link that is used up is told.
#[derive(Debug, PartialEq, Eq)]
pub struct PaymentMethodCollectLinkStatusDetails {
    pub pm_collect_link_id: String,
    pub customer_id: CustomerId,
    pub session_expiry: PrimitiveDateTime,
    pub return_url: Option<String>,
    pub ui_config: GenericLinkUiConfigFormData,
    pub status: PaymentMethodCollectStatus,
}

/// A page that tells that its link has expired.
#[derive(Debug, PartialEq, Eq)]
pub struct GenericExpiredLinkData {
    pub title: String,
    pub message: String,
    pub theme: String,
}

/// A page at which something is handed in.
#[derive(Debug, PartialEq, Eq)]
pub struct GenericLinkFormData {
    pub js_data: String,
    pub css_data: String,
    pub sdk_url: String,
    pub html_meta_tags: String,
}

/// A page that tells where its link stands.
#[derive(Debug, PartialEq, Eq)]
pub struct GenericLinkStatusData {
    pub js_data: String,
    pub css_data: String,
}

/// The kinds of pages.
#[derive(Debug, PartialEq, Eq)]
pub enum GenericLinksData {
    ExpiredLink(GenericExpiredLinkData),
    PaymentMethodCollect(GenericLinkFormData),
    PaymentMethodCollectStatus(GenericLinkStatusData),
}

/// A page.
#[derive(Debug, PartialEq, Eq)]
pub struct GenericLinks {
    /// The sites that may embed the page.
    pub allowed_domains: HashSet<String>,
    pub data: GenericLinksData,
    pub locale: String,
}

/// What the flow was started with.
#[derive(Debug, PartialEq, Eq)]
pub struct RenderContext {
    pub merchant_id: MerchantId,
    pub publishable_key: String,
    pub default_config: CollectPageConfig,
}

/// Where the flow waits for a reply.
#[derive(Debug, PartialEq, Eq)]
pub enum RenderState {
    FindingLink { context: RenderContext },
    ReadingClock { context: RenderContext, link: PaymentMethodCollectLink },
    ReadingCustomerId { context: RenderContext, link: PaymentMethodCollectLink },
    FindingCustomer { context: RenderContext, link: PaymentMethodCollectLink },
    EncodingForm { sdk_url: String },
    EncodingStatus,
}

/// An outside operation that the flow asks for.
#[derive(Debug, PartialEq, Eq)]
pub enum RenderRequest {
    FindLink { link_id: String },
    ReadClock,
    /// Read the text as the identifier of a customer.
    ReadCustomerId { text: String },
    FindCustomer { customer_id: CustomerId, merchant_id: MerchantId },
    /// Write the details as JSON.
    EncodeForm { form: PaymentMethodCollectLinkDetails },
    /// Write the details as JSON.
    EncodeStatus { details: PaymentMethodCollectLinkStatusDetails },
}

/// The outcome of an outside operation.
#[derive(Debug, PartialEq, Eq)]
pub enum RenderReply {
    LinkFound(Result<PaymentMethodCollectLink, StorageError>),
    ClockRead(PrimitiveDateTime),
    CustomerIdRead(Result<CustomerId, OperationFailed>),
    /// The customer, by their identifier.
    CustomerFound(Result<CustomerId, StorageError>),
    Encoded(Result<String, OperationFailed>),
}

/// What the flow does next.
#[derive(Debug, PartialEq, Eq)]
pub enum RenderStep {
    Ask(RenderState, RenderRequest),
    Done(Result<GenericLinks, ApiErrorResponse>),
}

impl RenderState {
    /// Whether the reply is one to what the flow asked for in this state.
    pub open spec fn awaits(self, reply: RenderReply) -> bool {
        match self {
            RenderState::FindingLink { .. } => reply is LinkFound,
            RenderState::ReadingClock { .. } => reply is ClockRead,
            RenderState::ReadingCustomerId { .. } => reply is CustomerIdRead,
            RenderState::FindingCustomer { .. } => reply is CustomerFound,
            RenderState::EncodingForm { .. } => reply is Encoded,
            RenderState::EncodingStatus => reply is Encoded,
        }
    }
}

/// The first step: the link is looked for.
pub open spec fn render_started(context: RenderContext, pm_collect_link_id: String) -> RenderStep {
    RenderStep::Ask(
        RenderState::FindingLink { context },
        RenderRequest::FindLink { link_id: pm_collect_link_id },
    )
}

/// Starts to render the page behind a link.
pub fn render_pm_collect_link(
    merchant_id: MerchantId,
    publishable_key: String,
    default_config: CollectPageConfig,
    pm_collect_link_id: String,
) -> (r: RenderStep)
    ensures
        r == render_started(
            RenderContext { merchant_id, publishable_key, default_config },
            pm_collect_link_id,
        ),
{
    RenderStep::Ask(
        RenderState::FindingLink {
            context: RenderContext { merchant_id, publishable_key, default_config },
        },
        RenderRequest::FindLink { link_id: pm_collect_link_id },
    )
}

/// How a page looks: as the merchant wishes, and as by default where they have
/// no wish.
pub open spec fn page_config(
    wished: GenericLinkUiConfig,
    default_config: GenericLinkUiConfigFormData,
) -> GenericLinkUiConfigFormData {
    GenericLinkUiConfigFormData {
        merchant_name: present_or(wished.merchant_name, default_config.merchant_name),
        logo: present_or(wished.logo, default_config.logo),
        theme: present_or(wished.theme, default_config.theme),
    }
}

fn make_page_config(
    wished: GenericLinkUiConfig,
    default_config: GenericLinkUiConfigFormData,
) -> (r: GenericLinkUiConfigFormData)
    ensures
        r == page_config(wished, default_config),
{
    GenericLinkUiConfigFormData {
        merchant_name: value_or(wished.merchant_name, default_config.merchant_name),
        logo: value_or(wished.logo, default_config.logo),
        theme: value_or(wished.theme, default_config.theme),
    }
}

/// Whether the page is one in the default language that no site may embed.
pub open spec fn is_plain_page(page: GenericLinks) -> bool {
    page.allowed_domains@ == Set::<String>::empty() && page.locale@ == DEFAULT_LOCALE@
}

fn make_page(data: GenericLinksData) -> (r: RenderStep)
    ensures
        r matches RenderStep::Done(Ok(page)) && is_plain_page(page) && page.data == data,
{
    RenderStep::Done(
        Ok(
            GenericLinks {
                allowed_domains: HashSet::new(),
                data,
                locale: DEFAULT_LOCALE.to_owned(),
            },
        ),
    )
}

/// Whether the flow ends with the page that tells that the link has expired.
pub open spec fn is_expired_page(r: RenderStep, theme: String) -> bool {
    r matches RenderStep::Done(Ok(page)) && is_plain_page(page) && (
    page.data matches GenericLinksData::ExpiredLink(expired) && {
        &&& expired.title@ == "Payment collect link has expired"@
        &&& expired.message@ == "This payment collect link has expired."@
        &&& expired.theme == theme
    })
}

/// The script that hands the details to a page, given as JSON.
pub open spec fn details_script(json: Seq<char>) -> Seq<char> {
    "window.__PM_COLLECT_DETAILS = "@ + json
}

fn make_details_script(json: &str) -> (r: String)
    ensures
        r@ == details_script(json@),
{
    let mut script = "window.__PM_COLLECT_DETAILS = ".to_owned();
    script.append(json);
    script
}

/// Whether the flow ends with the page at which methods are handed in.
pub open spec fn is_form_page(r: RenderStep, json: Seq<char>, sdk_url: String) -> bool {
    r matches RenderStep::Done(Ok(page)) && is_plain_page(page) && (
    page.data matches GenericLinksData::PaymentMethodCollect(form) && {
        &&& form.js_data@ == details_script(json)
        &&& form.css_data@.len() == 0
        &&& form.sdk_url == sdk_url
        &&& form.html_meta_tags@.len() == 0
    })
}

/// Whether the flow ends with the page that tells where the link stands.
pub open spec fn is_status_page(r: RenderStep, json: Seq<char>) -> bool {
    r matches RenderStep::Done(Ok(page)) && is_plain_page(page) && (
    page.data matches GenericLinksData::PaymentMethodCollectStatus(status) && {
        &&& status.js_data@ == details_script(json)
        &&& status.css_data@.len() == 0
    })
}

/// What an address to return to is read as: nothing where it is not an address,
/// and no address where there is none.
pub open spec fn read_return_url(return_url: Option<String>) -> Option<Option<Seq<char>>> {
    match return_url {
        None => Some(None),
        Some(text) => match url_of(text@) {
            Some(address) => Some(Some(address)),
            None => None,
        },
    }
}

/// Whether the page that tells where the link stands is told this of it.
pub open spec fn are_status_details(
    details: PaymentMethodCollectLinkStatusDetails,
    context: RenderContext,
    link: PaymentMethodCollectLink,
    return_address: Option<Seq<char>>,
) -> bool {
    &&& details.pm_collect_link_id == link.link_id
    &&& details.customer_id == link.link_data.customer_id
    &&& details.session_expiry == link.expiry
    &&& match (details.return_url, return_address) {
        (Some(text), Some(address)) => text@ == address,
        (None, None) => true,
        _ => false,
    }
    &&& details.ui_config == page_config(link.link_data.ui_config, context.default_config.ui_config)
    &&& details.status == link.link_status
}

/// Whether the flow goes on with the page that tells where the link stands,
/// given what the address to return to is read as.
pub open spec fn is_status_told(
    r: RenderStep,
    context: RenderContext,
    link: PaymentMethodCollectLink,
    read_url: Option<Option<Seq<char>>>,
) -> bool {
    match read_url {
        None => r == RenderStep::Done(Err(ApiErrorResponse::InternalServerError)),
        Some(return_address) => {
            r matches RenderStep::Ask(
                RenderState::EncodingStatus,
                RenderRequest::EncodeStatus { details },
            ) && are_status_details(details, context, link, return_address)
        },
    }
}

/// Goes on with the page that tells where the link stands, given what the
/// address to return to is read as: nothing where it is not an address.
pub fn tell_status(
    context: RenderContext,
    link: PaymentMethodCollectLink,
    read_url: Option<Option<String>>,
) -> (r: RenderStep)
    ensures
        is_status_told(
            r,
            context,
            link,
            match read_url {
                None => None,
                Some(None) => Some(None),
                Some(Some(address)) => Some(Some(address@)),
            },
        ),
{
    match read_url {
        None => RenderStep::Done(Err(ApiErrorResponse::InternalServerError)),
        Some(return_url) => {
            let details = PaymentMethodCollectLinkStatusDetails {
                pm_collect_link_id: link.link_id,
                customer_id: link.link_data.customer_id,
                session_expiry: link.expiry,
                return_url,
                ui_config: make_page_config(
                    link.link_data.ui_config,
                    context.default_config.ui_config,
                ),
                status: link.link_status,
            };
            RenderStep::Ask(RenderState::EncodingStatus, RenderRequest::EncodeStatus { details })
        },
    }
}

/// What the page is once the time is known: a link that was not used yet has a
/// form for as long as it is valid, any other one tells where it stands.
pub open spec fn is_after_clock(
    r: RenderStep,
    context: RenderContext,
    link: PaymentMethodCollectLink,
    now: PrimitiveDateTime,
) -> bool {
    match link.link_status {
        PaymentMethodCollectStatus::Initiated => if now.unix_nanos > link.expiry.unix_nanos {
            is_expired_page(
                r,
                page_config(link.link_data.ui_config, context.default_config.ui_config).theme,
            )
        } else {
            r == RenderStep::Ask(
                RenderState::ReadingCustomerId { context, link },
                RenderRequest::ReadCustomerId { text: link.primary_reference },
            )
        },
        _ => is_status_told(r, context, link, read_return_url(link.return_url)),
    }
}

fn after_clock(
    context: RenderContext,
    link: PaymentMethodCollectLink,
    now: PrimitiveDateTime,
) -> (r: RenderStep)
    ensures
        is_after_clock(r, context, link, now),
{
    match link.link_status {
        PaymentMethodCollectStatus::Initiated => if now.is_after(&link.expiry) {
            let theme = value_or(
                link.link_data.ui_config.theme,
                context.default_config.ui_config.theme,
            );
            make_page(
                GenericLinksData::ExpiredLink(
                    GenericExpiredLinkData {
                        title: "Payment collect link has expired".to_owned(),
                        message: "This payment collect link has expired.".to_owned(),
                        theme,
                    },
                ),
            )
        } else {
            let text = link.primary_reference.clone();
            RenderStep::Ask(
                RenderState::ReadingCustomerId { context, link },
                RenderRequest::ReadCustomerId { text },
            )
        },
        _ => {
            let read_url = match &link.return_url {
                None => Some(None),
                Some(text) => match parse_url(text.as_str()) {
                    Ok(address) => Some(Some(address)),
                    Err(_) => None,
                },
            };
            tell_status(context, link, read_url)
        },
    }
}

/// What a client is told whose link names a customer that is not there.
pub open spec fn customer_missing_message(
    primary_reference: Seq<char>,
    link_id: Seq<char>,
) -> Seq<char> {
    "Customer ["@ + primary_reference + "] not found for link_id - "@ + link_id
}

/// What the page at which methods are handed in is told.
pub open spec fn form_details(
    context: RenderContext,
    link: PaymentMethodCollectLink,
    customer_id: CustomerId,
) -> PaymentMethodCollectLinkDetails {
    PaymentMethodCollectLinkDetails {
        publishable_key: context.publishable_key,
        client_secret: link.link_data.client_secret,
        pm_collect_link_id: link.link_id,
        customer_id,
        session_expiry: link.expiry,
        return_url: link.return_url,
        ui_config: page_config(link.link_data.ui_config, context.default_config.ui_config),
        enabled_payment_methods: link.link_data.enabled_payment_methods,
    }
}

/// The page is told of the customer that was found.
pub open spec fn is_after_customer(
    r: RenderStep,
    context: RenderContext,
    link: PaymentMethodCollectLink,
    found: Result<CustomerId, StorageError>,
) -> bool {
    match found {
        Err(_) => {
            r matches RenderStep::Done(Err(ApiErrorResponse::InvalidRequestData { message }))
                && message@ == customer_missing_message(link.primary_reference@, link.link_id@)
        },
        Ok(customer_id) => r == RenderStep::Ask(
            RenderState::EncodingForm { sdk_url: context.default_config.sdk_url },
            RenderRequest::EncodeForm { form: form_details(context, link, customer_id) },
        ),
    }
}

fn after_customer(
    context: RenderContext,
    link: PaymentMethodCollectLink,
    found: Result<CustomerId, StorageError>,
) -> (r: RenderStep)
    ensures
        is_after_customer(r, context, link, found),
{
    match found {
        Err(_) => {
            let mut message = "Customer [".to_owned();
            message.append(link.primary_reference.as_str());
            message.append("] not found for link_id - ");
            message.append(link.link_id.as_str());
            RenderStep::Done(Err(ApiErrorResponse::InvalidRequestData { message }))
        },
        Ok(customer_id) => {
            let form = PaymentMethodCollectLinkDetails {
                publishable_key: context.publishable_key,
                client_secret: link.link_data.client_secret,
                pm_collect_link_id: link.link_id,
                customer_id,
                session_expiry: link.expiry,
                return_url: link.return_url,
                ui_config: make_page_config(
                    link.link_data.ui_config,
                    context.default_config.ui_config,
                ),
                enabled_payment_methods: link.link_data.enabled_payment_methods,
            };
            RenderStep::Ask(
                RenderState::EncodingForm { sdk_url: context.default_config.sdk_url },
                RenderRequest::EncodeForm { form },
            )
        },
    }
}

/// Whether the flow ends since the link was not found.
pub open spec fn is_link_missing(r: RenderStep, error: StorageError) -> bool {
    match error {
        StorageError::ValueNotFound => {
            r matches RenderStep::Done(Err(ApiErrorResponse::GenericNotFoundError { message }))
                && message@ == "payment method collect link not found"@
        },
        _ => r == RenderStep::Done(
            Err(error.not_found_response(ApiErrorResponse::InternalServerError)),
        ),
    }
}

/// What the flow does in `state` on `reply`.
pub open spec fn render_resumed(state: RenderState, reply: RenderReply, r: RenderStep) -> bool {
    match (state, reply) {
        (RenderState::FindingLink { context }, RenderReply::LinkFound(found)) => match found {
            Err(error) => is_link_missing(r, error),
            Ok(link) => r == RenderStep::Ask(
                RenderState::ReadingClock { context, link },
                RenderRequest::ReadClock,
            ),
        },
        (RenderState::ReadingClock { context, link }, RenderReply::ClockRead(now)) =>
            is_after_clock(r, context, link, now),
        (RenderState::ReadingCustomerId { context, link }, RenderReply::CustomerIdRead(read)) => r
            == (match read {
            Err(_) => RenderStep::Done(
                Err(ApiErrorResponse::InvalidDataValue { field_name: "customer_id" }),
            ),
            Ok(customer_id) => RenderStep::Ask(
                RenderState::FindingCustomer { context, link },
                RenderRequest::FindCustomer { customer_id, merchant_id: context.merchant_id },
            ),
        }),
        (RenderState::FindingCustomer { context, link }, RenderReply::CustomerFound(found)) =>
            is_after_customer(r, context, link, found),
        (RenderState::EncodingForm { sdk_url }, RenderReply::Encoded(encoded)) => match encoded {
            Err(_) => r == RenderStep::Done(Err(ApiErrorResponse::InternalServerError)),
            Ok(json) => is_form_page(r, json@, sdk_url),
        },
        (RenderState::EncodingStatus, RenderReply::Encoded(encoded)) => match encoded {
            Err(_) => r == RenderStep::Done(Err(ApiErrorResponse::InternalServerError)),
            Ok(json) => is_status_page(r, json@),
        },
        _ => false,
    }
}

/// Goes on with the flow once the reply to what it asked for is there.
pub fn resume_render_pm_collect_link(state: RenderState, reply: RenderReply) -> (r: RenderStep)
    requires
        state.awaits(reply),
    ensures
        render_resumed(state, reply, r),
{
    match (state, reply) {
        (RenderState::FindingLink { context }, RenderReply::LinkFound(found)) => match found {
            Err(error) => RenderStep::Done(
                Err(
                    error.to_not_found_response(
                        ApiErrorResponse::GenericNotFoundError {
                            message: "payment method collect link not found".to_owned(),
                        },
                    ),
                ),
            ),
            Ok(link) => RenderStep::Ask(
                RenderState::ReadingClock { context, link },
                RenderRequest::ReadClock,
            ),
        },
        (RenderState::ReadingClock { context, link }, RenderReply::ClockRead(now)) => {
            after_clock(context, link, now)
        },
        (RenderState::ReadingCustomerId { context, link }, RenderReply::CustomerIdRead(read)) =>
            match read {
                Err(_) => RenderStep::Done(
                    Err(ApiErrorResponse::InvalidDataValue { field_name: "customer_id" }),
                ),
                Ok(customer_id) => {
                    let merchant_id = context.merchant_id.clone();
                    RenderStep::Ask(
                        RenderState::FindingCustomer { context, link },
                        RenderRequest::FindCustomer { customer_id, merchant_id },
                    )
                },
            },
        (RenderState::FindingCustomer { context, link }, RenderReply::CustomerFound(found)) => {
            after_customer(context, link, found)
        },
        (RenderState::EncodingForm { sdk_url }, RenderReply::Encoded(encoded)) => match encoded {
            Err(_) => RenderStep::Done(Err(ApiErrorResponse::InternalServerError)),
            Ok(json) => make_page(
                GenericLinksData::PaymentMethodCollect(
                    GenericLinkFormData {
                        js_data: make_details_script(json.as_str()),
                        css_data: String::new(),
                        sdk_url,
                        html_meta_tags: String::new(),
                    },
                ),
            ),
        },
        (RenderState::EncodingStatus, RenderReply::Encoded(encoded)) => match encoded {
            Err(_) => RenderStep::Done(Err(ApiErrorResponse::InternalServerError)),
            Ok(json) => make_page(
                GenericLinksData::PaymentMethodCollectStatus(
                    GenericLinkStatusData {
                        js_data: make_details_script(json.as_str()),
                        css_data: String::new(),
                    },
                ),
            ),
        },
        _ => unreached(),
    }
}

} // verus!
