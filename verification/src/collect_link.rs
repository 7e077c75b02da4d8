//! Links at which customers hand in payment methods: making one.
//!
//! The flows ask for one outside operation at a time and are resumed with the
//! reply, until they are done.

use vstd::prelude::*;
use vstd::pervasive::unreached;

use crate::date_time::{PrimitiveDateTime, NANOS_PER_SECOND};
use crate::errors::{ApiErrorResponse, OperationFailed, StorageError};
use crate::outside::{parse_url, url_of};
use crate::payout_types::{CustomerId, MerchantId};

verus! {

/// How a page looks, as far as the merchant has a wish.
#[derive(Debug, PartialEq, Eq)]
pub struct GenericLinkUiConfig {
    pub logo: Option<String>,
    pub merchant_name: Option<String>,
    pub theme: Option<String>,
}

impl Clone for GenericLinkUiConfig {
    fn clone(&self) -> (r: Self)
        ensures
            r == *self,
    {
        GenericLinkUiConfig {
            logo: self.logo.clone(),
            merchant_name: self.merchant_name.clone(),
            theme: self.theme.clone(),
        }
    }
}

/// How a page looks.
#[derive(Debug, PartialEq, Eq)]
pub struct GenericLinkUiConfigFormData {
    pub merchant_name: String,
    pub logo: String,
    pub theme: String,
}

impl Clone for GenericLinkUiConfigFormData {
    fn clone(&self) -> (r: Self)
        ensures
            r == *self,
    {
        GenericLinkUiConfigFormData {
            merchant_name: self.merchant_name.clone(),
            logo: self.logo.clone(),
            theme: self.theme.clone(),
        }
    }
}

/// Asks for a link at which a customer can hand in payment methods.
#[derive(Debug, PartialEq, Eq)]
pub struct PaymentMethodCollectLinkRequest {
    pub link_id: Option<String>,
    pub customer_id: CustomerId,
    pub ui_config: Option<GenericLinkUiConfig>,
    pub session_expiry: Option<u32>,
    pub return_url: Option<String>,
    pub enabled_payment_methods: Option<serde_json::Value>,
}

/// What a link is for.
#[derive(Debug, PartialEq, Eq)]
pub struct PaymentMethodCollectLinkData {
    pub pm_collect_link_id: String,
    pub customer_id: CustomerId,
    /// The address of the page.
    pub link: String,
    pub client_secret: String,
    /// For how many seconds the link is valid.
    pub session_expiry: u32,
    pub ui_config: GenericLinkUiConfig,
    pub enabled_payment_methods: Option<serde_json::Value>,
}

/// Where a link stands.
#[derive(Clone, Copy, Debug, PartialEq, Eq, Structural)]
pub enum PaymentMethodCollectStatus {
    Initiated,
    Invalidated,
    Submitted,
}

/// The kinds of links.
#[derive(Clone, Copy, Debug, PartialEq, Eq, Structural)]
pub enum GenericLinkType {
    PaymentMethodCollect,
    PayoutLink,
}

/// A link to enter. Whatever else its record holds is as for any new one.
#[derive(Debug, PartialEq, Eq)]
pub struct GenericLinkNew {
    pub link_id: String,
    /// The customer that the link is for.
    pub primary_reference: String,
    pub merchant_id: MerchantId,
    pub link_type: GenericLinkType,
    pub link_data: serde_json::Value,
    pub url: String,
    pub return_url: Option<String>,
    pub expiry: PrimitiveDateTime,
}

/// A link, as it is kept.
#[derive(Debug, PartialEq, Eq)]
pub struct PaymentMethodCollectLink {
    pub link_id: String,
    /// The customer that the link is for.
    pub primary_reference: String,
    pub merchant_id: MerchantId,
    pub expiry: PrimitiveDateTime,
    pub link_data: PaymentMethodCollectLinkData,
    pub link_status: PaymentMethodCollectStatus,
    pub url: String,
    pub return_url: Option<String>,
}

/// What a link is without the time at which it expires.
#[derive(Debug, PartialEq, Eq)]
pub struct LinkDraft {
    pub link_id: String,
    pub primary_reference: String,
    pub merchant_id: MerchantId,
    pub url: String,
    pub return_url: Option<String>,
    pub session_expiry: u32,
}

/// Where the flow that enters a link waits for a reply.
#[derive(Debug, PartialEq, Eq)]
pub enum EntryState {
    Encoding { draft: LinkDraft },
    ReadingClock { draft: LinkDraft, link_data: serde_json::Value },
    Inserting,
}

/// An outside operation that the flow asks for.
#[derive(Debug, PartialEq, Eq)]
pub enum EntryRequest {
    /// Write the data as JSON.
    EncodeLinkData { data: PaymentMethodCollectLinkData },
    ReadClock,
    InsertLink { link: GenericLinkNew },
}

/// The outcome of an outside operation.
#[derive(Debug, PartialEq, Eq)]
pub enum EntryReply {
    LinkDataEncoded(Result<serde_json::Value, OperationFailed>),
    ClockRead(PrimitiveDateTime),
    LinkInserted(Result<PaymentMethodCollectLink, StorageError>),
}

/// What the flow does next.
#[derive(Debug, PartialEq, Eq)]
pub enum EntryStep {
    Ask(EntryState, EntryRequest),
    Done(Result<PaymentMethodCollectLink, ApiErrorResponse>),
}

impl EntryState {
    /// Whether the reply is one to what the flow asked for in this state. The
    /// time at which a link expires has to be one that can be expressed.
    pub open spec fn awaits(self, reply: EntryReply) -> bool {
        match self {
            EntryState::Encoding { .. } => reply is LinkDataEncoded,
            EntryState::ReadingClock { draft, .. } => {
                reply matches EntryReply::ClockRead(now) && now.wf() && now.can_add(
                    draft.session_expiry as int,
                )
            },
            EntryState::Inserting => reply is LinkInserted,
        }
    }
}

/// The link as it is drafted from what it is for.
pub open spec fn draft_of(
    merchant_id: MerchantId,
    data: PaymentMethodCollectLinkData,
    return_url: Option<String>,
) -> LinkDraft {
    LinkDraft {
        link_id: data.pm_collect_link_id,
        primary_reference: data.customer_id,
        merchant_id,
        url: data.link,
        return_url,
        session_expiry: data.session_expiry,
    }
}

/// The first step of entering a link.
pub open spec fn entry_started(
    merchant_id: MerchantId,
    data: PaymentMethodCollectLinkData,
    return_url: Option<String>,
) -> EntryStep {
    EntryStep::Ask(
        EntryState::Encoding { draft: draft_of(merchant_id, data, return_url) },
        EntryRequest::EncodeLinkData { data },
    )
}

/// Starts to enter a link.
pub fn create_pm_collect_db_entry(
    merchant_id: MerchantId,
    pm_collect_link_data: PaymentMethodCollectLinkData,
    return_url: Option<String>,
) -> (r: EntryStep)
    ensures
        r == entry_started(merchant_id, pm_collect_link_data, return_url),
{
    let draft = LinkDraft {
        link_id: pm_collect_link_data.pm_collect_link_id.clone(),
        primary_reference: pm_collect_link_data.customer_id.clone(),
        merchant_id,
        url: pm_collect_link_data.link.clone(),
        return_url,
        session_expiry: pm_collect_link_data.session_expiry,
    };
    EntryStep::Ask(
        EntryState::Encoding { draft },
        EntryRequest::EncodeLinkData { data: pm_collect_link_data },
    )
}

/// Whether the link is the drafted one, expiring when its time after `now` has
/// passed.
pub open spec fn is_drafted_link(
    link: GenericLinkNew,
    draft: LinkDraft,
    link_data: serde_json::Value,
    now: PrimitiveDateTime,
) -> bool {
    &&& link.link_id == draft.link_id
    &&& link.primary_reference == draft.primary_reference
    &&& link.merchant_id == draft.merchant_id
    &&& link.link_type == GenericLinkType::PaymentMethodCollect
    &&& link.link_data == link_data
    &&& link.url == draft.url
    &&& link.return_url == draft.return_url
    &&& link.expiry.wf()
    &&& link.expiry.unix_nanos == now.unix_nanos + draft.session_expiry * NANOS_PER_SECOND
}

/// Whether the flow ends since the link could not be inserted. One that exists
/// already has an answer of its own.
pub open spec fn is_insertion_failure(r: EntryStep, error: StorageError) -> bool {
    match error {
        StorageError::DuplicateValue => {
            r matches EntryStep::Done(Err(ApiErrorResponse::GenericDuplicateError { message }))
                && message@ == "payment method collect link already exists"@
        },
        _ => r == EntryStep::Done(Err(ApiErrorResponse::InternalServerError)),
    }
}

/// What the flow does in `state` on `reply`.
pub open spec fn entry_resumed(state: EntryState, reply: EntryReply, r: EntryStep) -> bool {
    match (state, reply) {
        (EntryState::Encoding { draft }, EntryReply::LinkDataEncoded(encoded)) => r == (
        match encoded {
            Err(_) => EntryStep::Done(Err(ApiErrorResponse::InternalServerError)),
            Ok(link_data) => EntryStep::Ask(
                EntryState::ReadingClock { draft, link_data },
                EntryRequest::ReadClock,
            ),
        }),
        (EntryState::ReadingClock { draft, link_data }, EntryReply::ClockRead(now)) => {
            r matches EntryStep::Ask(EntryState::Inserting, EntryRequest::InsertLink { link })
                && is_drafted_link(link, draft, link_data, now)
        },
        (EntryState::Inserting, EntryReply::LinkInserted(inserted)) => match inserted {
            Ok(link) => r == EntryStep::Done(Ok(link)),
            Err(error) => is_insertion_failure(r, error),
        },
        _ => false,
    }
}

/// Goes on with entering a link once the reply to what was asked for is there.
pub fn resume_create_pm_collect_db_entry(state: EntryState, reply: EntryReply) -> (r: EntryStep)
    requires
        state.awaits(reply),
    ensures
        entry_resumed(state, reply, r),
{
    match (state, reply) {
        (EntryState::Encoding { draft }, EntryReply::LinkDataEncoded(encoded)) => match encoded {
            Err(_) => EntryStep::Done(Err(ApiErrorResponse::InternalServerError)),
            Ok(link_data) => EntryStep::Ask(
                EntryState::ReadingClock { draft, link_data },
                EntryRequest::ReadClock,
            ),
        },
        (EntryState::ReadingClock { draft, link_data }, EntryReply::ClockRead(now)) => {
            let expiry = now.plus_seconds(draft.session_expiry as i64);
            let link = GenericLinkNew {
                link_id: draft.link_id,
                primary_reference: draft.primary_reference,
                merchant_id: draft.merchant_id,
                link_type: GenericLinkType::PaymentMethodCollect,
                link_data,
                url: draft.url,
                return_url: draft.return_url,
                expiry,
            };
            EntryStep::Ask(EntryState::Inserting, EntryRequest::InsertLink { link })
        },
        (EntryState::Inserting, EntryReply::LinkInserted(inserted)) => match inserted {
            Ok(link) => EntryStep::Done(Ok(link)),
            Err(error) => EntryStep::Done(
                Err(
                    error.to_duplicate_response(
                        ApiErrorResponse::GenericDuplicateError {
                            message: "payment method collect link already exists".to_owned(),
                        },
                    ),
                ),
            ),
        },
        _ => unreached(),
    }
}

/// A link, as its merchant is told of it.
#[derive(Debug, PartialEq, Eq)]
pub struct PaymentMethodCollectLinkResponse {
    pub pm_collect_link_id: String,
    pub customer_id: CustomerId,
    pub expiry: PrimitiveDateTime,
    pub link: String,
    pub return_url: Option<String>,
    pub ui_config: GenericLinkUiConfig,
    pub enabled_payment_methods: Option<serde_json::Value>,
}

/// Where the flow that makes a link waits for a reply.
#[derive(Debug, PartialEq, Eq)]
pub enum InitiateState {
    Validating { merchant_id: MerchantId, return_url: Option<String> },
    Entering { state: EntryState },
    ReadingCustomerId { link: PaymentMethodCollectLink },
}

/// An outside operation that the flow asks for.
#[derive(Debug, PartialEq, Eq)]
pub enum InitiateRequest {
    /// Check what is asked for, and work out what the link is for.
    ValidateRequest { req: PaymentMethodCollectLinkRequest },
    Enter { request: EntryRequest },
    /// Read the text as the identifier of a customer.
    ReadCustomerId { text: String },
}

/// The outcome of an outside operation.
#[derive(Debug, PartialEq, Eq)]
pub enum InitiateReply {
    RequestValidated(Result<PaymentMethodCollectLinkData, ApiErrorResponse>),
    Entered(EntryReply),
    CustomerIdRead(Result<CustomerId, OperationFailed>),
}

/// What the flow does next.
#[derive(Debug, PartialEq, Eq)]
pub enum InitiateStep {
    Ask(InitiateState, InitiateRequest),
    Done(Result<PaymentMethodCollectLinkResponse, ApiErrorResponse>),
}

impl InitiateState {
    /// Whether the reply is one to what the flow asked for in this state.
    pub open spec fn awaits(self, reply: InitiateReply) -> bool {
        match self {
            InitiateState::Validating { .. } => reply is RequestValidated,
            InitiateState::Entering { state } => {
                reply matches InitiateReply::Entered(reply) && state.awaits(reply)
            },
            InitiateState::ReadingCustomerId { .. } => reply is CustomerIdRead,
        }
    }
}

/// The first step of making a link.
pub open spec fn initiate_started(
    merchant_id: MerchantId,
    req: PaymentMethodCollectLinkRequest,
) -> InitiateStep {
    InitiateStep::Ask(
        InitiateState::Validating { merchant_id, return_url: req.return_url },
        InitiateRequest::ValidateRequest { req },
    )
}

/// Starts to make a link at which a customer can hand in payment methods.
pub fn initiate_pm_collect_link(
    merchant_id: MerchantId,
    req: PaymentMethodCollectLinkRequest,
) -> (r: InitiateStep)
    ensures
        r == initiate_started(merchant_id, req),
{
    let return_url = req.return_url.clone();
    InitiateStep::Ask(
        InitiateState::Validating { merchant_id, return_url },
        InitiateRequest::ValidateRequest { req },
    )
}

/// What making a link does while the link is entered.
pub open spec fn entering(step: EntryStep) -> InitiateStep {
    match step {
        EntryStep::Ask(state, request) => InitiateStep::Ask(
            InitiateState::Entering { state },
            InitiateRequest::Enter { request },
        ),
        EntryStep::Done(Err(error)) => InitiateStep::Done(Err(error)),
        EntryStep::Done(Ok(link)) => InitiateStep::Ask(
            InitiateState::ReadingCustomerId { link },
            InitiateRequest::ReadCustomerId { text: link.primary_reference },
        ),
    }
}

fn enter(step: EntryStep) -> (r: InitiateStep)
    ensures
        r == entering(step),
{
    match step {
        EntryStep::Ask(state, request) => InitiateStep::Ask(
            InitiateState::Entering { state },
            InitiateRequest::Enter { request },
        ),
        EntryStep::Done(Err(error)) => InitiateStep::Done(Err(error)),
        EntryStep::Done(Ok(link)) => {
            let text = link.primary_reference.clone();
            InitiateStep::Ask(
                InitiateState::ReadingCustomerId { link },
                InitiateRequest::ReadCustomerId { text },
            )
        },
    }
}

/// Whether the response tells of the link, at the address `link_url`.
pub open spec fn is_link_response(
    response: PaymentMethodCollectLinkResponse,
    link: PaymentMethodCollectLink,
    customer_id: CustomerId,
    link_url: Seq<char>,
) -> bool {
    &&& response.pm_collect_link_id == link.link_id
    &&& response.customer_id == customer_id
    &&& response.expiry == link.expiry
    &&& response.link@ == link_url
    &&& response.return_url == link.return_url
    &&& response.ui_config == link.link_data.ui_config
    &&& response.enabled_payment_methods == link.link_data.enabled_payment_methods
}

/// Whether the flow ends with the response, given what the address of the page
/// is read as.
pub open spec fn is_link_told(
    r: InitiateStep,
    link: PaymentMethodCollectLink,
    customer_id: CustomerId,
    read_url: Option<Seq<char>>,
) -> bool {
    match read_url {
        Some(link_url) => {
            r matches InitiateStep::Done(Ok(response)) && is_link_response(
                response,
                link,
                customer_id,
                link_url,
            )
        },
        None => r == InitiateStep::Done(Err(ApiErrorResponse::InternalServerError)),
    }
}

/// Ends the flow with the response, given what the address of the page is read
/// as.
pub fn tell_of_link(
    link: PaymentMethodCollectLink,
    customer_id: CustomerId,
    read_url: Option<String>,
) -> (r: InitiateStep)
    ensures
        is_link_told(
            r,
            link,
            customer_id,
            match read_url {
                Some(text) => Some(text@),
                None => None,
            },
        ),
{
    match read_url {
        Some(link_url) => InitiateStep::Done(
            Ok(
                PaymentMethodCollectLinkResponse {
                    pm_collect_link_id: link.link_id,
                    customer_id,
                    expiry: link.expiry,
                    link: link_url,
                    return_url: link.return_url,
                    ui_config: link.link_data.ui_config,
                    enabled_payment_methods: link.link_data.enabled_payment_methods,
                },
            ),
        ),
        None => InitiateStep::Done(Err(ApiErrorResponse::InternalServerError)),
    }
}

/// What the flow does in `state` on `reply`.
pub open spec fn initiate_resumed(
    state: InitiateState,
    reply: InitiateReply,
    r: InitiateStep,
) -> bool {
    match (state, reply) {
        (
            InitiateState::Validating { merchant_id, return_url },
            InitiateReply::RequestValidated(validated),
        ) => r == (match validated {
            Err(error) => InitiateStep::Done(Err(error)),
            Ok(data) => entering(entry_started(merchant_id, data, return_url)),
        }),
        (InitiateState::Entering { state }, InitiateReply::Entered(reply)) => exists|
            step: EntryStep,
        | #[trigger] entry_resumed(state, reply, step) && r == entering(step),
        (
            InitiateState::ReadingCustomerId { link },
            InitiateReply::CustomerIdRead(read),
        ) => match read {
            Err(_) => r == InitiateStep::Done(
                Err(ApiErrorResponse::InvalidDataValue { field_name: "customer_id" }),
            ),
            Ok(customer_id) => is_link_told(r, link, customer_id, url_of(link.url@)),
        },
        _ => false,
    }
}

/// Goes on with making a link once the reply to what was asked for is there.
pub fn resume_initiate_pm_collect_link(state: InitiateState, reply: InitiateReply) -> (r:
    InitiateStep)
    requires
        state.awaits(reply),
    ensures
        initiate_resumed(state, reply, r),
{
    match (state, reply) {
        (
            InitiateState::Validating { merchant_id, return_url },
            InitiateReply::RequestValidated(validated),
        ) => match validated {
            Err(error) => InitiateStep::Done(Err(error)),
            Ok(data) => enter(create_pm_collect_db_entry(merchant_id, data, return_url)),
        },
        (InitiateState::Entering { state }, InitiateReply::Entered(reply)) => {
            let step = resume_create_pm_collect_db_entry(state, reply);
            enter(step)
        },
        (
            InitiateState::ReadingCustomerId { link },
            InitiateReply::CustomerIdRead(read),
        ) => match read {
            Err(_) => InitiateStep::Done(
                Err(ApiErrorResponse::InvalidDataValue { field_name: "customer_id" }),
            ),
            Ok(customer_id) => {
                let read_url = match parse_url(link.url.as_str()) {
                    Ok(link_url) => Some(link_url),
                    Err(_) => None,
                };
                tell_of_link(link, customer_id, read_url)
            },
        },
        _ => unreached(),
    }
}

/// A link that is entered is valid for as long as it was asked to be: it expires
/// that many seconds after the clock was read, and not before.
pub proof fn links_expire_after_their_session(
    draft: LinkDraft,
    link_data: serde_json::Value,
    now: PrimitiveDateTime,
    link: GenericLinkNew,
    later: PrimitiveDateTime,
)
    requires
        is_drafted_link(link, draft, link_data, now),
    ensures
        later.unix_nanos > link.expiry.unix_nanos <==> later.unix_nanos - now.unix_nanos
            > draft.session_expiry * NANOS_PER_SECOND,
        link.expiry.unix_nanos >= now.unix_nanos,
{
    assert(draft.session_expiry * NANOS_PER_SECOND >= 0) by (nonlinear_arith);
}

/// Whether these are the first steps of making a link, with the reply to each of
/// them but the last.
pub open spec fn is_run(
    merchant_id: MerchantId,
    req: PaymentMethodCollectLinkRequest,
    replies: Seq<InitiateReply>,
    steps: Seq<InitiateStep>,
) -> bool {
    &&& steps.len() == replies.len() + 1
    &&& steps[0] == initiate_started(merchant_id, req)
    &&& forall|i: int|
        #![trigger replies[i]]
        0 <= i < replies.len() ==> {
            &&& steps[i] is Ask
            &&& steps[i]->Ask_0.awaits(replies[i])
            &&& initiate_resumed(steps[i]->Ask_0, replies[i], steps[i + 1])
        }
}

/// What a step of a run owes to the replies before it.
spec fn step_is_sound(
    merchant_id: MerchantId,
    req: PaymentMethodCollectLinkRequest,
    replies: Seq<InitiateReply>,
    step: InitiateStep,
) -> bool {
    let n = replies.len() as int;
    match step {
        InitiateStep::Done(result) => {
            &&& n > 0
            &&& result matches Ok(response) ==> {
                &&& n == 5
                &&& replies[3] matches InitiateReply::Entered(EntryReply::LinkInserted(Ok(link)))
                    && (replies[4] matches InitiateReply::CustomerIdRead(Ok(customer_id)) && {
                    &&& url_of(link.url@) is Some
                    &&& is_link_response(response, link, customer_id, url_of(link.url@)->0)
                })
            }
        },
        InitiateStep::Ask(state, request) => match state {
            InitiateState::Validating { merchant_id: held, return_url } => {
                &&& n == 0
                &&& held == merchant_id
                &&& return_url == req.return_url
                &&& request is ValidateRequest
            },
            InitiateState::Entering { state: EntryState::Encoding { draft } } => {
                &&& n == 1
                &&& is_draft_due(merchant_id, req, replies, draft)
                &&& request matches InitiateRequest::Enter { request } && request is EncodeLinkData
            },
            InitiateState::Entering { state: EntryState::ReadingClock { draft, link_data } } => {
                &&& n == 2
                &&& is_draft_due(merchant_id, req, replies, draft)
                &&& replies[1] == InitiateReply::Entered(EntryReply::LinkDataEncoded(Ok(link_data)))
                &&& request matches InitiateRequest::Enter { request } && request is ReadClock
            },
            InitiateState::Entering { state: EntryState::Inserting } => {
                &&& n == 3
                &&& request matches InitiateRequest::Enter {
                    request: EntryRequest::InsertLink { link },
                } && is_link_due(merchant_id, req, replies, link)
            },
            InitiateState::ReadingCustomerId { link } => {
                &&& n == 4
                &&& replies[3] == InitiateReply::Entered(EntryReply::LinkInserted(Ok(link)))
                &&& request == InitiateRequest::ReadCustomerId { text: link.primary_reference }
            },
        },
    }
}

spec fn is_draft_due(
    merchant_id: MerchantId,
    req: PaymentMethodCollectLinkRequest,
    replies: Seq<InitiateReply>,
    draft: LinkDraft,
) -> bool {
    &&& replies.len() >= 1
    &&& replies[0] matches InitiateReply::RequestValidated(Ok(data))
    &&& draft == draft_of(merchant_id, data, req.return_url)
}

/// Whether the link is the one that was asked for, as far as the replies have
/// told what it is for.
pub open spec fn is_link_due(
    merchant_id: MerchantId,
    req: PaymentMethodCollectLinkRequest,
    replies: Seq<InitiateReply>,
    link: GenericLinkNew,
) -> bool {
    &&& replies.len() >= 3
    &&& replies[0] matches InitiateReply::RequestValidated(Ok(data)) && (
    replies[1] matches InitiateReply::Entered(EntryReply::LinkDataEncoded(Ok(link_data))) && (
    replies[2] matches InitiateReply::Entered(EntryReply::ClockRead(now)) && is_drafted_link(
        link,
        draft_of(merchant_id, data, req.return_url),
        link_data,
        now,
    )))
}

proof fn steps_are_sound(
    merchant_id: MerchantId,
    req: PaymentMethodCollectLinkRequest,
    replies: Seq<InitiateReply>,
    steps: Seq<InitiateStep>,
    i: int,
)
    requires
        is_run(merchant_id, req, replies, steps),
        0 <= i <= replies.len(),
    ensures
        step_is_sound(merchant_id, req, replies.take(i), steps[i]),
        i <= 5,
    decreases i,
{
    if i > 0 {
        steps_are_sound(merchant_id, req, replies, steps, i - 1);
        let before = replies.take(i - 1);
        let after = replies.take(i);
        assert(initiate_resumed(steps[i - 1]->Ask_0, replies[i - 1], steps[i - 1 + 1]));
        assert(forall|j: int| 0 <= j < i - 1 ==> before[j] == after[j]);
        assert(after[i - 1] == replies[i - 1]);
    }
}

/// The flow ends: whatever the replies, it makes five requests at most.
pub proof fn every_run_ends(
    merchant_id: MerchantId,
    req: PaymentMethodCollectLinkRequest,
    replies: Seq<InitiateReply>,
    steps: Seq<InitiateStep>,
)
    requires
        is_run(merchant_id, req, replies, steps),
    ensures
        replies.len() <= 5,
        replies.len() == 5 ==> steps.last() is Done,
{
    steps_are_sound(merchant_id, req, replies, steps, replies.len() as int);
}

/// The link that is entered is the one that was asked for, for the merchant who
/// asked for it.
pub proof fn the_link_asked_for_is_entered(
    merchant_id: MerchantId,
    req: PaymentMethodCollectLinkRequest,
    replies: Seq<InitiateReply>,
    steps: Seq<InitiateStep>,
    i: int,
    link: GenericLinkNew,
)
    requires
        is_run(merchant_id, req, replies, steps),
        0 <= i < steps.len(),
        steps[i] is Ask,
        steps[i]->Ask_1 == (InitiateRequest::Enter { request: EntryRequest::InsertLink { link } }),
    ensures
        is_link_due(merchant_id, req, replies, link),
{
    steps_are_sound(merchant_id, req, replies, steps, i);
    assert(forall|j: int| 0 <= j < i ==> replies.take(i)[j] == replies[j]);
}

/// A merchant is told of a link only where it was entered, and what they are
/// told is what the entry says.
pub proof fn merchants_are_told_of_entered_links(
    merchant_id: MerchantId,
    req: PaymentMethodCollectLinkRequest,
    replies: Seq<InitiateReply>,
    steps: Seq<InitiateStep>,
    response: PaymentMethodCollectLinkResponse,
)
    requires
        is_run(merchant_id, req, replies, steps),
        steps.last() == InitiateStep::Done(Ok(response)),
    ensures
        replies.len() == 5,
        replies[3] matches InitiateReply::Entered(EntryReply::LinkInserted(Ok(link))) && (
        replies[4] matches InitiateReply::CustomerIdRead(Ok(customer_id)) && {
            &&& url_of(link.url@) is Some
            &&& is_link_response(response, link, customer_id, url_of(link.url@)->0)
        }),
{
    let n = replies.len() as int;
    steps_are_sound(merchant_id, req, replies, steps, n);
    assert(replies.take(n) =~= replies);
}

/// What making a link asks for in turn: that the request is checked, that what
/// the link is for is written down as the check told it, that the clock is read,
/// and that the link is inserted, with the identifier, the customer and the address
/// that the check told, for the merchant who asked, with the address to return to
/// that they handed in, to expire that many seconds after the clock was read.
pub proof fn links_are_made_as_asked(
    merchant_id: MerchantId,
    req: PaymentMethodCollectLinkRequest,
    replies: Seq<InitiateReply>,
    steps: Seq<InitiateStep>,
    i: int,
)
    requires
        is_run(merchant_id, req, replies, steps),
        0 <= i < steps.len(),
        steps[i] is Ask,
    ensures
        i <= 4,
        i == 0 ==> steps[i]->Ask_1 == (InitiateRequest::ValidateRequest { req }),
        i == 1 ==> steps[i]->Ask_1 == (InitiateRequest::Enter {
            request: EntryRequest::EncodeLinkData { data: replies[0]->RequestValidated_0->Ok_0 },
        }),
        i == 2 ==> steps[i]->Ask_1 == (InitiateRequest::Enter { request: EntryRequest::ReadClock }),
        i == 3 ==> steps[i]->Ask_1 is Enter && steps[i]->Ask_1->request is InsertLink && {
            let link = steps[i]->Ask_1->request->InsertLink_link;
            let data = replies[0]->RequestValidated_0->Ok_0;
            let json = replies[1]->Entered_0->LinkDataEncoded_0->Ok_0;
            let now = replies[2]->Entered_0->ClockRead_0;
            &&& link.link_id == data.pm_collect_link_id
            &&& link.primary_reference == data.customer_id
            &&& link.merchant_id == merchant_id
            &&& link.link_type == GenericLinkType::PaymentMethodCollect
            &&& link.link_data == json
            &&& link.url == data.link
            &&& link.return_url == req.return_url
            &&& link.expiry.unix_nanos - now.unix_nanos == data.session_expiry * 1_000_000_000
        },
        i == 4 ==> steps[i]->Ask_1 == (InitiateRequest::ReadCustomerId {
            text: replies[3]->Entered_0->LinkInserted_0->Ok_0.primary_reference,
        }),
{
    steps_are_sound(merchant_id, req, replies, steps, i);
    assert(forall|j: int| 0 <= j < i ==> replies.take(i)[j] == replies[j]);
    if i > 0 {
        steps_are_sound(merchant_id, req, replies, steps, i - 1);
        assert(initiate_resumed(steps[i - 1]->Ask_0, replies[i - 1], steps[i - 1 + 1]));
    }
}

/// Each reply that is not a failure leads to the next request, and each failure
/// ends the flow with the error that it stands for.
pub proof fn failures_are_told(
    merchant_id: MerchantId,
    req: PaymentMethodCollectLinkRequest,
    replies: Seq<InitiateReply>,
    steps: Seq<InitiateStep>,
    i: int,
)
    requires
        is_run(merchant_id, req, replies, steps),
        0 <= i < replies.len(),
    ensures
        match replies[i] {
            InitiateReply::RequestValidated(Err(error)) => steps[i + 1] == InitiateStep::Done(
                Err(error),
            ),
            InitiateReply::Entered(EntryReply::LinkDataEncoded(Err(_))) => steps[i + 1]
                == InitiateStep::Done(Err(ApiErrorResponse::InternalServerError)),
            InitiateReply::Entered(EntryReply::LinkInserted(Err(StorageError::DuplicateValue))) => {
                &&& steps[i + 1] is Done
                &&& steps[i + 1]->Done_0 is Err
                &&& steps[i + 1]->Done_0->Err_0 is GenericDuplicateError
                &&& steps[i + 1]->Done_0->Err_0->GenericDuplicateError_message@
                    == "payment method collect link already exists"@
            },
            InitiateReply::Entered(EntryReply::LinkInserted(Err(_))) => steps[i + 1]
                == InitiateStep::Done(Err(ApiErrorResponse::InternalServerError)),
            InitiateReply::CustomerIdRead(Err(_)) => steps[i + 1] == InitiateStep::Done(
                Err(ApiErrorResponse::InvalidDataValue { field_name: "customer_id" }),
            ),
            InitiateReply::CustomerIdRead(Ok(customer_id)) => {
                let link = replies[3]->Entered_0->LinkInserted_0->Ok_0;
                if url_of(link.url@) is Some {
                    steps[i + 1] is Done && steps[i + 1]->Done_0 is Ok && {
                        let response = steps[i + 1]->Done_0->Ok_0;
                        &&& response.pm_collect_link_id == link.link_id
                        &&& response.customer_id == customer_id
                        &&& response.expiry == link.expiry
                        &&& response.link@ == url_of(link.url@)->0
                        &&& response.return_url == link.return_url
                        &&& response.ui_config == link.link_data.ui_config
                        &&& response.enabled_payment_methods
                            == link.link_data.enabled_payment_methods
                    }
                } else {
                    steps[i + 1] == InitiateStep::Done(Err(ApiErrorResponse::InternalServerError))
                }
            },
            _ => steps[i + 1] is Ask,
        },
{
    steps_are_sound(merchant_id, req, replies, steps, i);
    assert(forall|j: int| 0 <= j < i ==> replies.take(i)[j] == replies[j]);
    assert(initiate_resumed(steps[i]->Ask_0, replies[i], steps[i + 1]));
}

/// What a merchant is told of a link: what its entry says, each in its own place,
/// and the address that was read; where none could be read it is an internal
/// error.
pub proof fn merchants_are_told_what_the_entry_says(
    link: PaymentMethodCollectLink,
    customer_id: CustomerId,
    read_url: Option<String>,
    last: InitiateStep,
)
    requires
        call_ensures(tell_of_link, (link, customer_id, read_url), last),
    ensures
        read_url is None ==> last == InitiateStep::Done(Err(ApiErrorResponse::InternalServerError)),
        read_url matches Some(address) ==> last is Done && last->Done_0 is Ok && {
            let response = last->Done_0->Ok_0;
            &&& response.pm_collect_link_id == link.link_id
            &&& response.customer_id == customer_id
            &&& response.expiry == link.expiry
            &&& response.link@ == address@
            &&& response.return_url == link.return_url
            &&& response.ui_config == link.link_data.ui_config
            &&& response.enabled_payment_methods == link.link_data.enabled_payment_methods
        },
{
}

/// A link that is entered by itself is the one that was handed in, for the
/// merchant and with the address to return to, and it expires that many seconds
/// after the clock was read.
pub proof fn links_are_entered_as_handed_in(
    merchant_id: MerchantId,
    data: PaymentMethodCollectLinkData,
    return_url: Option<String>,
    first: EntryStep,
    encoded: Result<serde_json::Value, OperationFailed>,
    second: EntryStep,
    now: PrimitiveDateTime,
    third: EntryStep,
)
    requires
        call_ensures(create_pm_collect_db_entry, (merchant_id, data, return_url), first),
        first is Ask,
        first->Ask_0 is Encoding,
        call_ensures(
            resume_create_pm_collect_db_entry,
            (first->Ask_0, EntryReply::LinkDataEncoded(encoded)),
            second,
        ),
        second is Ask,
        second->Ask_0.awaits(EntryReply::ClockRead(now)),
        call_ensures(
            resume_create_pm_collect_db_entry,
            (second->Ask_0, EntryReply::ClockRead(now)),
            third,
        ),
    ensures
        first->Ask_1 == (EntryRequest::EncodeLinkData { data }),
        second->Ask_1 is ReadClock,
        encoded is Ok,
        third is Ask,
        third->Ask_0 is Inserting,
        third->Ask_1 matches EntryRequest::InsertLink { link } && {
            &&& link.link_id == data.pm_collect_link_id
            &&& link.primary_reference == data.customer_id
            &&& link.merchant_id == merchant_id
            &&& link.link_type == GenericLinkType::PaymentMethodCollect
            &&& link.link_data == encoded->Ok_0
            &&& link.url == data.link
            &&& link.return_url == return_url
            &&& link.expiry.unix_nanos - now.unix_nanos == data.session_expiry * 1_000_000_000
        },
{
}

/// The entering of a link starts with what it is for, ends with an internal error
/// where that could not be written, and tells what came of the insertion.
pub proof fn entering_a_link_is_told(
    merchant_id: MerchantId,
    data: PaymentMethodCollectLinkData,
    return_url: Option<String>,
    first: EntryStep,
    draft: LinkDraft,
    failed: EntryStep,
    inserted: Result<PaymentMethodCollectLink, StorageError>,
    last: EntryStep,
)
    requires
        call_ensures(create_pm_collect_db_entry, (merchant_id, data, return_url), first),
        call_ensures(
            resume_create_pm_collect_db_entry,
            (EntryState::Encoding { draft }, EntryReply::LinkDataEncoded(Err(OperationFailed))),
            failed,
        ),
        call_ensures(
            resume_create_pm_collect_db_entry,
            (EntryState::Inserting, EntryReply::LinkInserted(inserted)),
            last,
        ),
    ensures
        first is Ask,
        first->Ask_0 is Encoding,
        first->Ask_1 is EncodeLinkData,
        failed == EntryStep::Done(Err(ApiErrorResponse::InternalServerError)),
        last is Done,
        inserted matches Ok(link) ==> last->Done_0 is Ok && last->Done_0->Ok_0 == link,
        inserted is Err ==> last->Done_0 is Err && if inserted->Err_0
            == StorageError::DuplicateValue {
            &&& last->Done_0->Err_0 is GenericDuplicateError
            &&& last->Done_0->Err_0->GenericDuplicateError_message@
                == "payment method collect link already exists"@
        } else {
            last->Done_0->Err_0 is InternalServerError
        },
{
}

/// The functions that carry out the flow make the steps that its laws speak of.
pub proof fn the_flow_is_carried_out(
    merchant_id: MerchantId,
    req: PaymentMethodCollectLinkRequest,
    first: InitiateStep,
    state: InitiateState,
    reply: InitiateReply,
    next: InitiateStep,
)
    requires
        call_ensures(initiate_pm_collect_link, (merchant_id, req), first),
        state.awaits(reply),
        call_ensures(resume_initiate_pm_collect_link, (state, reply), next),
    ensures
        is_run(merchant_id, req, Seq::empty(), seq![first]),
        first is Ask,
        initiate_resumed(state, reply, next),
{
}

} // verus!
