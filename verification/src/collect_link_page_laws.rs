//! What holds of every run of the flow that renders the page behind a link,
//! whatever the outside replies.

use vstd::prelude::*;

use crate::collect_link::{
    GenericLinkUiConfig, GenericLinkUiConfigFormData, PaymentMethodCollectLink,
    PaymentMethodCollectStatus,
};
use crate::collect_link_page::{
    are_status_details, form_details, is_plain_page, read_return_url, render_pm_collect_link,
    render_resumed, render_started, resume_render_pm_collect_link, tell_status, GenericLinks,
    GenericLinksData, RenderContext, RenderReply, RenderRequest, RenderState, RenderStep,
};
use crate::date_time::PrimitiveDateTime;
use crate::errors::{ApiErrorResponse, StorageError};
use crate::outside::url_of;

verus! {

/// Whether `next` is what the flow does once the request of `step` was replied
/// to with `reply`.
pub open spec fn follows(step: RenderStep, reply: RenderReply, next: RenderStep) -> bool {
    step matches RenderStep::Ask(state, _) && state.awaits(reply) && render_resumed(
        state,
        reply,
        next,
    )
}

/// Whether these are the first steps of the flow, with the reply to each of
/// them but the last.
pub open spec fn is_run(
    context: RenderContext,
    link_id: String,
    replies: Seq<RenderReply>,
    steps: Seq<RenderStep>,
) -> bool {
    &&& steps.len() == replies.len() + 1
    &&& steps[0] == render_started(context, link_id)
    &&& forall|i: int|
        0 <= i < replies.len() ==> follows(steps[i], #[trigger] replies[i], steps[i + 1])
}

/// Whether the link was found and the clock was read.
pub open spec fn is_seen_at(
    replies: Seq<RenderReply>,
    link: PaymentMethodCollectLink,
    now: PrimitiveDateTime,
) -> bool {
    &&& replies.len() >= 2
    &&& replies[0] == RenderReply::LinkFound(Ok(link))
    &&& replies[1] == RenderReply::ClockRead(now)
}

/// Whether methods can be handed in at the link: it was not used yet, and it has
/// not expired.
pub open spec fn is_open(link: PaymentMethodCollectLink, now: PrimitiveDateTime) -> bool {
    &&& link.link_status == PaymentMethodCollectStatus::Initiated
    &&& now.unix_nanos <= link.expiry.unix_nanos
}

/// What a step of a run owes to the replies before it.
spec fn step_is_sound(context: RenderContext, replies: Seq<RenderReply>, step: RenderStep) -> bool {
    match step {
        RenderStep::Ask(state, request) => match state {
            RenderState::FindingLink { context: held } => {
                &&& replies.len() == 0
                &&& held == context
                &&& request is FindLink
            },
            RenderState::ReadingClock { context: held, link } => {
                &&& replies.len() == 1
                &&& held == context
                &&& replies[0] == RenderReply::LinkFound(Ok(link))
                &&& request is ReadClock
            },
            RenderState::ReadingCustomerId { context: held, link } => {
                &&& replies.len() == 2
                &&& held == context
                &&& is_seen_while_open(replies, link)
                &&& request is ReadCustomerId
            },
            RenderState::FindingCustomer { context: held, link } => {
                &&& replies.len() == 3
                &&& held == context
                &&& is_seen_while_open(replies, link)
                &&& request is FindCustomer
            },
            RenderState::EncodingForm { .. } => {
                &&& replies.len() == 4
                &&& request matches RenderRequest::EncodeForm { form }
                    && (replies[0] matches RenderReply::LinkFound(Ok(link)) && (
                replies[3] matches RenderReply::CustomerFound(Ok(customer_id)) && {
                    &&& is_seen_while_open(replies, link)
                    &&& form == form_details(context, link, customer_id)
                }))
            },
            RenderState::EncodingStatus => {
                &&& replies.len() == 2
                &&& request matches RenderRequest::EncodeStatus { details }
                    && (replies[0] matches RenderReply::LinkFound(Ok(link)) && {
                    &&& replies[1] is ClockRead
                    &&& link.link_status != PaymentMethodCollectStatus::Initiated
                    &&& read_return_url(link.return_url) is Some
                    &&& are_status_details(
                        details,
                        context,
                        link,
                        read_return_url(link.return_url)->0,
                    )
                })
            },
        },
        RenderStep::Done(result) => {
            &&& replies.len() >= 1
            &&& result matches Ok(page) ==> {
                &&& is_plain_page(page)
                &&& replies.len() >= 2
                &&& replies[0] matches RenderReply::LinkFound(Ok(link)) && (
                replies[1] matches RenderReply::ClockRead(now) && match page.data {
                    GenericLinksData::PaymentMethodCollect(_) => is_open(link, now),
                    GenericLinksData::ExpiredLink(_) => {
                        &&& link.link_status == PaymentMethodCollectStatus::Initiated
                        &&& !is_open(link, now)
                    },
                    GenericLinksData::PaymentMethodCollectStatus(_) => link.link_status
                        != PaymentMethodCollectStatus::Initiated,
                })
            }
        },
    }
}

spec fn is_seen_while_open(replies: Seq<RenderReply>, link: PaymentMethodCollectLink) -> bool {
    &&& replies.len() >= 2
    &&& replies[0] == RenderReply::LinkFound(Ok(link))
    &&& replies[1] matches RenderReply::ClockRead(now) && is_open(link, now)
}

proof fn steps_are_sound(
    context: RenderContext,
    link_id: String,
    replies: Seq<RenderReply>,
    steps: Seq<RenderStep>,
    i: int,
)
    requires
        is_run(context, link_id, replies, steps),
        0 <= i <= replies.len(),
    ensures
        step_is_sound(context, replies.take(i), steps[i]),
        i <= 5,
    decreases i,
{
    if i > 0 {
        steps_are_sound(context, link_id, replies, steps, i - 1);
        let before = replies.take(i - 1);
        let after = replies.take(i);
        assert(follows(steps[i - 1], replies[i - 1], steps[i - 1 + 1]));
        assert(forall|j: int| 0 <= j < i - 1 ==> before[j] == after[j]);
        assert(after[i - 1] == replies[i - 1]);
    }
}

/// The flow ends: whatever the replies, it makes five requests at most.
pub proof fn every_run_ends(
    context: RenderContext,
    link_id: String,
    replies: Seq<RenderReply>,
    steps: Seq<RenderStep>,
)
    requires
        is_run(context, link_id, replies, steps),
    ensures
        replies.len() <= 5,
        replies.len() == 5 ==> steps.last() is Done,
{
    steps_are_sound(context, link_id, replies, steps, replies.len() as int);
}

/// Which page a link has is told by its status and by the time: the form while
/// it is open, the notice that it has expired once it was not used in time, and
/// the status page once it was used. No site may embed any of them.
pub proof fn pages_match_their_links(
    context: RenderContext,
    link_id: String,
    replies: Seq<RenderReply>,
    steps: Seq<RenderStep>,
    link: PaymentMethodCollectLink,
    now: PrimitiveDateTime,
)
    requires
        is_run(context, link_id, replies, steps),
        is_seen_at(replies, link, now),
        steps.last() is Done,
        steps.last()->Done_0 is Ok,
    ensures
        is_plain_page(steps.last()->Done_0->Ok_0),
        steps.last()->Done_0->Ok_0.data is PaymentMethodCollect <==> is_open(link, now),
        steps.last()->Done_0->Ok_0.data is ExpiredLink <==> link.link_status
            == PaymentMethodCollectStatus::Initiated && !is_open(link, now),
        steps.last()->Done_0->Ok_0.data is PaymentMethodCollectStatus <==> link.link_status
            != PaymentMethodCollectStatus::Initiated,
{
    let n = replies.len() as int;
    steps_are_sound(context, link_id, replies, steps, n);
    assert(replies.take(n) =~= replies);
}

/// A customer is looked for only where the link is open, and what the form is
/// told is written down only then.
pub proof fn only_open_links_reach_the_customer(
    context: RenderContext,
    link_id: String,
    replies: Seq<RenderReply>,
    steps: Seq<RenderStep>,
    i: int,
)
    requires
        is_run(context, link_id, replies, steps),
        0 <= i < steps.len(),
        steps[i] matches RenderStep::Ask(_, request) && (request is FindCustomer
            || request is EncodeForm),
    ensures
        exists|link: PaymentMethodCollectLink, now: PrimitiveDateTime|
            #![trigger is_seen_at(replies, link, now)]
            is_seen_at(replies, link, now) && is_open(link, now),
{
    steps_are_sound(context, link_id, replies, steps, i);
    let before = replies.take(i);
    assert(before[0] == replies[0]);
    assert(before[1] == replies[1]);
    match (replies[0], replies[1]) {
        (RenderReply::LinkFound(Ok(link)), RenderReply::ClockRead(now)) => {
            assert(is_seen_at(replies, link, now));
        },
        _ => {},
    }
}

/// A link that has expired is answered without a further request.
pub proof fn expired_links_are_answered_at_once(
    context: RenderContext,
    link_id: String,
    replies: Seq<RenderReply>,
    steps: Seq<RenderStep>,
    link: PaymentMethodCollectLink,
    now: PrimitiveDateTime,
)
    requires
        is_run(context, link_id, replies, steps),
        is_seen_at(replies, link, now),
        link.link_status == PaymentMethodCollectStatus::Initiated,
        now.unix_nanos > link.expiry.unix_nanos,
    ensures
        replies.len() == 2,
        steps[2] matches RenderStep::Done(result) && (result matches Ok(page)
            && page.data is ExpiredLink),
{
    assert(follows(steps[0], replies[0], steps[0int + 1]));
    assert(follows(steps[1], replies[1], steps[1int + 1]));
    if replies.len() > 2 {
        assert(follows(steps[2], replies[2], steps[2int + 1]));
    }
}

/// Whether the page looks as the merchant wishes, and as by default where they
/// have no wish.
pub open spec fn looks_as_wished(
    look: GenericLinkUiConfigFormData,
    wished: GenericLinkUiConfig,
    by_default: GenericLinkUiConfigFormData,
) -> bool {
    &&& wished.merchant_name matches Some(name) ==> look.merchant_name == name
    &&& wished.merchant_name is None ==> look.merchant_name == by_default.merchant_name
    &&& wished.logo matches Some(logo) ==> look.logo == logo
    &&& wished.logo is None ==> look.logo == by_default.logo
    &&& wished.theme matches Some(theme) ==> look.theme == theme
    &&& wished.theme is None ==> look.theme == by_default.theme
}

/// Whether the page is in English and no site may embed it.
pub open spec fn is_english_and_closed(page: GenericLinks) -> bool {
    page.locale@ == "en"@ && page.allowed_domains@.len() == 0
}

/// Whether a step of the flow is what the link and the replies call for, once the
/// link was found and the clock was read.
spec fn step_tells(
    context: RenderContext,
    link_id: String,
    replies: Seq<RenderReply>,
    step: RenderStep,
) -> bool {
    let n = replies.len() as int;
    match step {
        RenderStep::Ask(state, request) => match state {
            RenderState::FindingLink { .. } => request == (RenderRequest::FindLink { link_id }),
            RenderState::ReadingClock { .. } => request is ReadClock,
            RenderState::ReadingCustomerId { link, .. } => request
                == (RenderRequest::ReadCustomerId { text: link.primary_reference }),
            RenderState::FindingCustomer { .. } => {
                &&& request matches RenderRequest::FindCustomer { customer_id, merchant_id } && {
                    &&& merchant_id == context.merchant_id
                    &&& n == 3
                    &&& replies[2] == RenderReply::CustomerIdRead(Ok(customer_id))
                }
            },
            RenderState::EncodingForm { sdk_url } => {
                &&& sdk_url == context.default_config.sdk_url
                &&& n == 4
                &&& request matches RenderRequest::EncodeForm { form } && (
                replies[0] matches RenderReply::LinkFound(Ok(link)) && {
                    &&& replies[3] == RenderReply::CustomerFound(Ok(form.customer_id))
                    &&& form.publishable_key == context.publishable_key
                    &&& form.client_secret == link.link_data.client_secret
                    &&& form.pm_collect_link_id == link.link_id
                    &&& form.session_expiry == link.expiry
                    &&& form.return_url == link.return_url
                    &&& form.enabled_payment_methods == link.link_data.enabled_payment_methods
                    &&& looks_as_wished(
                        form.ui_config,
                        link.link_data.ui_config,
                        context.default_config.ui_config,
                    )
                })
            },
            RenderState::EncodingStatus => {
                &&& n == 2
                &&& request matches RenderRequest::EncodeStatus { details } && (
                replies[0] matches RenderReply::LinkFound(Ok(link)) && {
                    &&& details.pm_collect_link_id == link.link_id
                    &&& details.customer_id == link.link_data.customer_id
                    &&& details.session_expiry == link.expiry
                    &&& details.status == link.link_status
                    &&& details.return_url is Some <==> link.return_url is Some
                    &&& details.return_url matches Some(address) ==> url_of(link.return_url->0@)
                        == Some(address@)
                    &&& looks_as_wished(
                        details.ui_config,
                        link.link_data.ui_config,
                        context.default_config.ui_config,
                    )
                })
            },
        },
        RenderStep::Done(_) => true,
    }
}

proof fn steps_tell(
    context: RenderContext,
    link_id: String,
    replies: Seq<RenderReply>,
    steps: Seq<RenderStep>,
    i: int,
)
    requires
        is_run(context, link_id, replies, steps),
        0 <= i <= replies.len(),
    ensures
        step_tells(context, link_id, replies.take(i), steps[i]),
{
    steps_are_sound(context, link_id, replies, steps, i);
    if i > 0 {
        steps_are_sound(context, link_id, replies, steps, i - 1);
        assert(follows(steps[i - 1], replies[i - 1], steps[i - 1 + 1]));
        assert(forall|j: int| 0 <= j < i ==> replies.take(i)[j] == replies[j]);
        assert(forall|j: int| 0 <= j < i - 1 ==> replies.take(i - 1)[j] == replies[j]);
    }
}

/// The link is looked for by its identifier, its customer by the text that it
/// names them with and then among those of the merchant, and what a page is told
/// is what its link says: each in its own place, looking as the merchant wishes.
pub proof fn pages_are_told_what_their_link_says(
    context: RenderContext,
    link_id: String,
    replies: Seq<RenderReply>,
    steps: Seq<RenderStep>,
    i: int,
)
    requires
        is_run(context, link_id, replies, steps),
        0 <= i < steps.len(),
        steps[i] is Ask,
    ensures
        i == 0 ==> steps[i]->Ask_1 == (RenderRequest::FindLink { link_id }),
        i == 1 ==> steps[i]->Ask_1 is ReadClock,
        i > 0 ==> replies[0] is LinkFound && replies[0]->LinkFound_0 is Ok,
        steps[i]->Ask_1 matches RenderRequest::ReadCustomerId { text } ==> i == 2 && text
            == replies[0]->LinkFound_0->Ok_0.primary_reference,
        steps[i]->Ask_1 matches RenderRequest::FindCustomer { customer_id, merchant_id } ==> {
            &&& i == 3
            &&& merchant_id == context.merchant_id
            &&& replies[2] == RenderReply::CustomerIdRead(Ok(customer_id))
        },
        steps[i]->Ask_1 matches RenderRequest::EncodeForm { form } ==> {
            let link = replies[0]->LinkFound_0->Ok_0;
            &&& i == 4
            &&& replies[3] == RenderReply::CustomerFound(Ok(form.customer_id))
            &&& form.publishable_key == context.publishable_key
            &&& form.client_secret == link.link_data.client_secret
            &&& form.pm_collect_link_id == link.link_id
            &&& form.session_expiry == link.expiry
            &&& form.return_url == link.return_url
            &&& form.enabled_payment_methods == link.link_data.enabled_payment_methods
            &&& looks_as_wished(
                form.ui_config,
                link.link_data.ui_config,
                context.default_config.ui_config,
            )
        },
        steps[i]->Ask_1 matches RenderRequest::EncodeStatus { details } ==> {
            let link = replies[0]->LinkFound_0->Ok_0;
            &&& i == 2
            &&& details.pm_collect_link_id == link.link_id
            &&& details.customer_id == link.link_data.customer_id
            &&& details.session_expiry == link.expiry
            &&& details.status == link.link_status
            &&& details.return_url is Some <==> link.return_url is Some
            &&& details.return_url matches Some(address) ==> url_of(link.return_url->0@) == Some(
                address@,
            )
            &&& looks_as_wished(
                details.ui_config,
                link.link_data.ui_config,
                context.default_config.ui_config,
            )
        },
{
    steps_tell(context, link_id, replies, steps, i);
    steps_are_sound(context, link_id, replies, steps, i);
    assert(forall|j: int| 0 <= j < i ==> replies.take(i)[j] == replies[j]);
    assert(replies.take(i).len() == i);
}

/// What each reply leads to: the next request, the page that the link calls for,
/// or the error that a failure stands for.
pub proof fn replies_lead_to_their_page(
    context: RenderContext,
    link_id: String,
    replies: Seq<RenderReply>,
    steps: Seq<RenderStep>,
    i: int,
)
    requires
        is_run(context, link_id, replies, steps),
        0 <= i < replies.len(),
    ensures
        ({
            let next = steps[i + 1];
            match replies[i] {
                RenderReply::LinkFound(Ok(_)) => next is Ask && next->Ask_1 is ReadClock,
                RenderReply::LinkFound(Err(StorageError::ValueNotFound)) => {
                    &&& next is Done
                    &&& next->Done_0 is Err
                    &&& next->Done_0->Err_0 is GenericNotFoundError
                    &&& next->Done_0->Err_0->GenericNotFoundError_message@
                        == "payment method collect link not found"@
                },
                RenderReply::LinkFound(Err(StorageError::CustomerRedacted)) => next
                    == RenderStep::Done(Err(ApiErrorResponse::CustomerRedacted)),
                RenderReply::LinkFound(Err(_)) => next == RenderStep::Done(
                    Err(ApiErrorResponse::InternalServerError),
                ),
                RenderReply::ClockRead(now) => {
                    let link = replies[0]->LinkFound_0->Ok_0;
                    if link.link_status is Initiated {
                        if now.unix_nanos > link.expiry.unix_nanos {
                            next is Done && next->Done_0 is Ok && is_english_and_closed(
                                next->Done_0->Ok_0,
                            ) && (
                            next->Done_0->Ok_0.data matches GenericLinksData::ExpiredLink(expired)
                                && {
                                &&& expired.title@ == "Payment collect link has expired"@
                                &&& expired.message@ == "This payment collect link has expired."@
                                &&& link.link_data.ui_config.theme matches Some(theme)
                                    ==> expired.theme == theme
                                &&& link.link_data.ui_config.theme is None ==> expired.theme
                                    == context.default_config.ui_config.theme
                            })
                        } else {
                            next is Ask && next->Ask_1 is ReadCustomerId
                        }
                    } else if link.return_url is Some && url_of(link.return_url->0@) is None {
                        next == RenderStep::Done(Err(ApiErrorResponse::InternalServerError))
                    } else {
                        next is Ask && next->Ask_1 is EncodeStatus
                    }
                },
                RenderReply::CustomerIdRead(Err(_)) => next == RenderStep::Done(
                    Err(ApiErrorResponse::InvalidDataValue { field_name: "customer_id" }),
                ),
                RenderReply::CustomerIdRead(Ok(_)) => next is Ask && next->Ask_1 is FindCustomer,
                RenderReply::CustomerFound(Ok(_)) => next is Ask && next->Ask_1 is EncodeForm,
                RenderReply::CustomerFound(Err(_)) => {
                    let link = replies[0]->LinkFound_0->Ok_0;
                    &&& next is Done
                    &&& next->Done_0 is Err
                    &&& next->Done_0->Err_0 is InvalidRequestData
                    &&& next->Done_0->Err_0->InvalidRequestData_message@ == "Customer ["@
                        + link.primary_reference@ + "] not found for link_id - "@ + link.link_id@
                },
                RenderReply::Encoded(Err(_)) => next == RenderStep::Done(
                    Err(ApiErrorResponse::InternalServerError),
                ),
                RenderReply::Encoded(Ok(json)) => {
                    &&& next is Done
                    &&& next->Done_0 is Ok
                    &&& is_english_and_closed(next->Done_0->Ok_0)
                    &&& match next->Done_0->Ok_0.data {
                        GenericLinksData::PaymentMethodCollect(form) => {
                            &&& steps[i]->Ask_1 is EncodeForm
                            &&& form.js_data@ == "window.__PM_COLLECT_DETAILS = "@ + json@
                            &&& form.css_data@.len() == 0
                            &&& form.html_meta_tags@.len() == 0
                            &&& form.sdk_url == context.default_config.sdk_url
                        },
                        GenericLinksData::PaymentMethodCollectStatus(status) => {
                            &&& steps[i]->Ask_1 is EncodeStatus
                            &&& status.js_data@ == "window.__PM_COLLECT_DETAILS = "@ + json@
                            &&& status.css_data@.len() == 0
                        },
                        GenericLinksData::ExpiredLink(_) => false,
                    }
                },
            }
        }),
{
    steps_tell(context, link_id, replies, steps, i);
    steps_are_sound(context, link_id, replies, steps, i);
    assert(forall|j: int| 0 <= j < i ==> replies.take(i)[j] == replies[j]);
    assert(follows(steps[i], replies[i], steps[i + 1]));
}

/// What the page of a link that is used up is told, given the address to return
/// to as it was read: what the link says, and that address.
pub proof fn status_pages_are_told_the_address(
    context: RenderContext,
    link: PaymentMethodCollectLink,
    read_url: Option<Option<String>>,
    next: RenderStep,
)
    requires
        call_ensures(tell_status, (context, link, read_url), next),
    ensures
        read_url is None ==> next == RenderStep::Done(Err(ApiErrorResponse::InternalServerError)),
        read_url matches Some(address) ==> next is Ask && next->Ask_0 is EncodingStatus && (
        next->Ask_1 matches RenderRequest::EncodeStatus { details } && {
            &&& details.pm_collect_link_id == link.link_id
            &&& details.customer_id == link.link_data.customer_id
            &&& details.session_expiry == link.expiry
            &&& details.status == link.link_status
            &&& details.return_url is Some <==> address is Some
            &&& details.return_url is Some ==> details.return_url->0@ == address->0@
            &&& looks_as_wished(
                details.ui_config,
                link.link_data.ui_config,
                context.default_config.ui_config,
            )
        }),
{
}

/// The functions that carry out the flow make the steps that its laws speak of.
pub proof fn the_flow_is_carried_out(
    context: RenderContext,
    link_id: String,
    first: RenderStep,
    state: RenderState,
    reply: RenderReply,
    next: RenderStep,
)
    requires
        call_ensures(
            render_pm_collect_link,
            (context.merchant_id, context.publishable_key, context.default_config, link_id),
            first,
        ),
        state.awaits(reply),
        call_ensures(resume_render_pm_collect_link, (state, reply), next),
    ensures
        is_run(context, link_id, Seq::empty(), seq![first]),
        first is Ask,
        forall|request: RenderRequest| #[trigger]
            follows(RenderStep::Ask(state, request), reply, next),
{
}

} // verus!
