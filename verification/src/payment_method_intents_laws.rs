//! What holds of every run of the flows that create and confirm payment
//! methods, whatever the outside replies.

use vstd::prelude::*;

use crate::enums::PaymentMethodStatus;
use crate::errors::{ApiErrorResponse, StorageError};
use crate::ids::is_generated_id;
use crate::payment_method_intents::{
    confirm_started, create_payment_method, create_started, intent_create_started, intent_resumed,
    payment_method_intent_confirm, payment_method_intent_create, resume_payment_method_intent,
    IntentReply, IntentRequest, IntentState, IntentStep, MethodUpdate, PaymentMethodIntentConfirm,
    PaymentMethodIntentCreate, VaultingPlan,
};
use crate::payment_method_types::StoredPaymentMethod;
use crate::payment_method_v2::PaymentMethodCreate;
use crate::payout_types::{CustomerId, MerchantId};

verus! {

/// Whether `next` is what a flow does once the request of `step` was replied to
/// with `reply`.
pub open spec fn follows(step: IntentStep, reply: IntentReply, next: IntentStep) -> bool {
    step matches IntentStep::Ask(state, _) && state.awaits(reply) && intent_resumed(
        state,
        reply,
        next,
    )
}

/// Whether these are the first steps of a flow that starts with `first`, with
/// the reply to each of them but the last.
pub open spec fn is_run(
    first: IntentStep,
    replies: Seq<IntentReply>,
    steps: Seq<IntentStep>,
) -> bool {
    &&& steps.len() == replies.len() + 1
    &&& steps[0] == first
    &&& forall|i: int|
        0 <= i < replies.len() ==> follows(steps[i], #[trigger] replies[i], steps[i + 1])
}

/// Whether this is the first step of one of the flows.
pub open spec fn is_start(first: IntentStep) -> bool {
    ||| exists|
        validation: Result<(), ApiErrorResponse>,
        req: PaymentMethodCreate,
        merchant_id: MerchantId,
    | first == #[trigger] create_started(validation, req, merchant_id)
    ||| exists|req: PaymentMethodIntentCreate, merchant_id: MerchantId|
        first == #[trigger] intent_create_started(req, merchant_id)
    ||| exists|
        validation: Result<(), ApiErrorResponse>,
        req: PaymentMethodIntentConfirm,
        merchant_id: MerchantId,
        pm_id: String,
    | first == #[trigger] confirm_started(validation, req, merchant_id, pm_id)
}

/// How many requests a flow can still make, this one counted.
pub open spec fn requests_left(step: IntentStep) -> int {
    match step {
        IntentStep::Done(_) => 0,
        IntentStep::Ask(state, _) => match state {
            IntentState::FindingMethod { .. } => 7,
            IntentState::CheckingSecret { .. } => 6,
            IntentState::FindingOwner { .. } => 5,
            IntentState::FindingCustomer { .. } => 7,
            IntentState::EncryptingBilling { .. } => 6,
            IntentState::CreatingEntry { .. } => 5,
            IntentState::Vaulting { .. } => 4,
            IntentState::PreparingUpdate { .. } => 3,
            IntentState::UpdatingMethod => 2,
            IntentState::Deactivating { .. } => 1,
            IntentState::Responding => 1,
        },
    }
}

/// Whether a reply tells that the vault took a method.
pub open spec fn is_vaulted(reply: IntentReply) -> bool {
    reply matches IntentReply::Vaulted(vaulted) && vaulted is Ok
}

/// Whether the vault has taken a method.
pub open spec fn vault_took_one(replies: Seq<IntentReply>) -> bool {
    exists|i: int| 0 <= i < replies.len() && is_vaulted(#[trigger] replies[i])
}

/// Whether the replies so far allow a method to be confirmed: it was found, its
/// secret is valid, and it waits for its data.
pub open spec fn is_confirmable(
    replies: Seq<IntentReply>,
    payment_method: StoredPaymentMethod,
) -> bool {
    &&& replies.len() >= 2
    &&& replies[0] == IntentReply::PaymentMethodFound(Ok(payment_method))
    &&& replies[1] == IntentReply::ClientSecretChecked(Ok(false))
    &&& payment_method.status == PaymentMethodStatus::AwaitingData
}

/// Whether the customer of the entry that is created was found.
pub open spec fn customer_was_found(replies: Seq<IntentReply>) -> bool {
    replies.len() > 0 && (replies[0] matches IntentReply::CustomerFound(found) && found is Ok)
}

/// What a step of a run owes to the replies before it. `plans_vaulting` tells
/// whether something goes into the vault in this flow, `confirms` whether the
/// method was created before.
spec fn step_is_sound(
    plans_vaulting: bool,
    confirms: bool,
    replies: Seq<IntentReply>,
    step: IntentStep,
) -> bool {
    match step {
        IntentStep::Done(result) => result is Ok && plans_vaulting ==> vault_took_one(replies),
        IntentStep::Ask(state, request) => match state {
            IntentState::FindingMethod { .. } => {
                &&& confirms
                &&& plans_vaulting
                &&& replies.len() == 0
                &&& request is FindPaymentMethod
            },
            IntentState::CheckingSecret { payment_method, .. } => {
                &&& confirms
                &&& plans_vaulting
                &&& replies.len() == 1
                &&& replies[0] == IntentReply::PaymentMethodFound(Ok(payment_method))
                &&& request is CheckClientSecret
            },
            IntentState::FindingOwner { payment_method, .. } => {
                &&& confirms
                &&& plans_vaulting
                &&& is_confirmable(replies, payment_method)
                &&& request is FindCustomer
            },
            IntentState::FindingCustomer { entry, .. } => {
                &&& !confirms
                &&& plans_vaulting == (entry.vaulting is Some)
                &&& replies.len() == 0
                &&& request is FindCustomer
            },
            IntentState::EncryptingBilling { entry } => {
                &&& !confirms
                &&& plans_vaulting == (entry.vaulting is Some)
                &&& customer_was_found(replies)
                &&& request is EncryptBilling
            },
            IntentState::CreatingEntry { vaulting } => {
                &&& !confirms
                &&& plans_vaulting == (vaulting is Some)
                &&& customer_was_found(replies)
                &&& request is CreateForIntent
            },
            IntentState::Vaulting { payment_method, .. } => {
                &&& plans_vaulting
                &&& confirms ==> is_confirmable(replies, payment_method)
                &&& !confirms ==> customer_was_found(replies)
                &&& request is VaultPaymentMethod
            },
            IntentState::PreparingUpdate { .. } => {
                &&& plans_vaulting
                &&& vault_took_one(replies)
                &&& request is PrepareUpdate
            },
            IntentState::UpdatingMethod => {
                &&& plans_vaulting
                &&& vault_took_one(replies)
                &&& request is UpdatePaymentMethod
            },
            IntentState::Deactivating { .. } => {
                &&& plans_vaulting
                &&& request is UpdatePaymentMethod
            },
            IntentState::Responding => {
                &&& plans_vaulting ==> vault_took_one(replies)
                &&& request is GenerateResponse
            },
        },
    }
}

proof fn steps_are_sound(
    plans_vaulting: bool,
    confirms: bool,
    first: IntentStep,
    replies: Seq<IntentReply>,
    steps: Seq<IntentStep>,
    i: int,
)
    requires
        is_run(first, replies, steps),
        step_is_sound(plans_vaulting, confirms, Seq::empty(), first),
        0 <= i <= replies.len(),
    ensures
        step_is_sound(plans_vaulting, confirms, replies.take(i), steps[i]),
    decreases i,
{
    if i == 0 {
        assert(replies.take(0) =~= Seq::empty());
    } else {
        steps_are_sound(plans_vaulting, confirms, first, replies, steps, i - 1);
        let before = replies.take(i - 1);
        let after = replies.take(i);
        assert(follows(steps[i - 1], replies[i - 1], steps[i - 1 + 1]));
        assert(forall|j: int| 0 <= j < i - 1 ==> before[j] == after[j]);
        assert(after[i - 1] == replies[i - 1]);
        if vault_took_one(before) {
            let j = choose|j: int| 0 <= j < before.len() && is_vaulted(#[trigger] before[j]);
            assert(after[j] == before[j]);
        }
    }
}

proof fn requests_are_used_up(
    first: IntentStep,
    replies: Seq<IntentReply>,
    steps: Seq<IntentStep>,
    i: int,
)
    requires
        is_run(first, replies, steps),
        0 <= i <= replies.len(),
    ensures
        i + requests_left(steps[i]) <= requests_left(first),
    decreases i,
{
    if i > 0 {
        requests_are_used_up(first, replies, steps, i - 1);
        assert(follows(steps[i - 1], replies[i - 1], steps[i - 1 + 1]));
    }
}

/// The flows end: whatever the replies, they make seven requests at most.
pub proof fn every_run_ends(
    first: IntentStep,
    replies: Seq<IntentReply>,
    steps: Seq<IntentStep>,
)
    requires
        is_start(first),
        is_run(first, replies, steps),
    ensures
        replies.len() <= 7,
        replies.len() == 7 ==> steps.last() is Done,
{
    requests_are_used_up(first, replies, steps, replies.len() as int);
}

/// A method that the vault refuses is deactivated, and the flow ends with the
/// error of the vault, or, where not even that worked, with an internal one.
pub proof fn refused_methods_are_deactivated(
    first: IntentStep,
    replies: Seq<IntentReply>,
    steps: Seq<IntentStep>,
    i: int,
    payment_method: StoredPaymentMethod,
    error: ApiErrorResponse,
)
    requires
        is_run(first, replies, steps),
        0 <= i < replies.len(),
        steps[i] matches IntentStep::Ask(IntentState::Vaulting { payment_method: stored, .. }, _)
            && stored == payment_method,
        replies[i] == IntentReply::Vaulted(Err(error)),
    ensures
        steps[i + 1] matches IntentStep::Ask(_, request) && request
            == (IntentRequest::UpdatePaymentMethod {
            payment_method,
            update: MethodUpdate::Status(PaymentMethodStatus::Inactive),
        }),
        i + 1 < replies.len() ==> {
            ||| steps[i + 2] == IntentStep::Done(Err(error))
            ||| steps[i + 2] == IntentStep::Done(Err(ApiErrorResponse::InternalServerError))
        },
{
    assert(follows(steps[i], replies[i], steps[i + 1]));
    if i + 1 < replies.len() {
        assert(follows(steps[i + 1], replies[i + 1], steps[i + 1 + 1]));
    }
}

/// A method is created with success only where its customer was found and the
/// vault took it.
pub proof fn created_methods_are_in_the_vault(
    validation: Result<(), ApiErrorResponse>,
    req: PaymentMethodCreate,
    merchant_id: MerchantId,
    replies: Seq<IntentReply>,
    steps: Seq<IntentStep>,
)
    requires
        is_run(create_started(validation, req, merchant_id), replies, steps),
    ensures
        steps.last() matches IntentStep::Done(result) ==> result is Ok ==> vault_took_one(replies),
        forall|i: int|
            #![trigger steps[i]]
            0 <= i < steps.len() && (steps[i] matches IntentStep::Ask(_, request) && (
            request is CreateForIntent || request is VaultPaymentMethod)) ==> customer_was_found(
                replies,
            ),
{
    let first = create_started(validation, req, merchant_id);
    let n = replies.len() as int;
    steps_are_sound(true, false, first, replies, steps, n);
    assert(replies.take(n) =~= replies);
    assert forall|i: int|
        #![trigger steps[i]]
        0 <= i < steps.len() && (steps[i] matches IntentStep::Ask(_, request) && (
        request is CreateForIntent || request is VaultPaymentMethod)) implies customer_was_found(
        replies,
    ) by {
        steps_are_sound(true, false, first, replies, steps, i);
        assert(replies.take(i)[0] == replies[0]);
    }
}

/// A method of which nothing is known yet is created only where its customer was
/// found, and nothing goes into the vault.
pub proof fn intents_stay_out_of_the_vault(
    req: PaymentMethodIntentCreate,
    merchant_id: MerchantId,
    replies: Seq<IntentReply>,
    steps: Seq<IntentStep>,
    i: int,
)
    requires
        is_run(intent_create_started(req, merchant_id), replies, steps),
        0 <= i < steps.len(),
    ensures
        steps[i] matches IntentStep::Ask(_, request) ==> {
            &&& !(request is VaultPaymentMethod)
            &&& !(request is UpdatePaymentMethod)
            &&& request is CreateForIntent ==> customer_was_found(replies)
        },
{
    steps_are_sound(false, false, intent_create_started(req, merchant_id), replies, steps, i);
    if i > 0 {
        assert(replies.take(i)[0] == replies[0]);
    }
}

/// A method is confirmed only where it was found, its secret is valid and it
/// waits for its data: only then does anything go into the vault.
pub proof fn only_waiting_methods_are_confirmed(
    validation: Result<(), ApiErrorResponse>,
    req: PaymentMethodIntentConfirm,
    merchant_id: MerchantId,
    pm_id: String,
    replies: Seq<IntentReply>,
    steps: Seq<IntentStep>,
    i: int,
)
    requires
        is_run(confirm_started(validation, req, merchant_id, pm_id), replies, steps),
        0 <= i < steps.len(),
        steps[i] matches IntentStep::Ask(_, request) && request is VaultPaymentMethod,
    ensures
        exists|payment_method: StoredPaymentMethod| #[trigger]
            is_confirmable(replies, payment_method),
{
    let first = confirm_started(validation, req, merchant_id, pm_id);
    steps_are_sound(true, true, first, replies, steps, i);
    match steps[i] {
        IntentStep::Ask(IntentState::Vaulting { payment_method, .. }, _) => {
            assert(replies.take(i)[0] == replies[0]);
            assert(replies.take(i)[1] == replies[1]);
            assert(is_confirmable(replies, payment_method));
        },
        _ => {},
    }
}

/// A method is confirmed with success only where the vault took it.
pub proof fn confirmed_methods_are_in_the_vault(
    validation: Result<(), ApiErrorResponse>,
    req: PaymentMethodIntentConfirm,
    merchant_id: MerchantId,
    pm_id: String,
    replies: Seq<IntentReply>,
    steps: Seq<IntentStep>,
)
    requires
        is_run(confirm_started(validation, req, merchant_id, pm_id), replies, steps),
        steps.last() matches IntentStep::Done(result) && result is Ok,
    ensures
        vault_took_one(replies),
{
    let first = confirm_started(validation, req, merchant_id, pm_id);
    let n = replies.len() as int;
    steps_are_sound(true, true, first, replies, steps, n);
    assert(replies.take(n) =~= replies);
}

/// What a flow was started with. A method that was created before has its
/// identifier and the secret that is to be checked; a new one has a customer, and
/// nothing to put into the vault where nothing is known of it yet.
pub struct IntentTerms {
    pub merchant_id: MerchantId,
    pub customer_id: Option<CustomerId>,
    pub metadata: Option<serde_json::Value>,
    pub billing: Option<serde_json::Value>,
    pub payment_method_id: Option<String>,
    pub client_secret: Option<String>,
    pub vaulting: Option<VaultingPlan>,
}

impl IntentTerms {
    /// Whether the flow is about a method that was created before.
    pub open spec fn confirms(self) -> bool {
        self.payment_method_id is Some
    }

    /// The position at which the creation of the entry is replied to.
    pub open spec fn entry_reply(self) -> int {
        if self.billing is Some {
            2
        } else {
            1
        }
    }

    /// The position at which the vault replies.
    pub open spec fn vault_reply(self) -> int {
        if self.confirms() {
            3
        } else {
            self.entry_reply() + 1
        }
    }
}

/// Whether a flow starts with this step on these terms.
pub open spec fn starts_on(first: IntentStep, terms: IntentTerms) -> bool {
    &&& first is Ask
    &&& match first->Ask_0 {
        IntentState::FindingMethod { client_secret, merchant_id, plan } => {
            &&& terms.client_secret == Some(client_secret)
            &&& terms.merchant_id == merchant_id
            &&& terms.vaulting == Some(plan)
            &&& terms.payment_method_id is Some
            &&& first->Ask_1 == (IntentRequest::FindPaymentMethod {
                payment_method_id: terms.payment_method_id->0,
            })
        },
        IntentState::FindingCustomer { entry, billing } => {
            &&& terms.payment_method_id is None
            &&& terms.merchant_id == entry.merchant_id
            &&& terms.customer_id == Some(entry.customer_id)
            &&& terms.metadata == entry.metadata
            &&& terms.billing == billing
            &&& terms.vaulting == entry.vaulting
            &&& first->Ask_1 == (IntentRequest::FindCustomer {
                customer_id: terms.customer_id->0,
                merchant_id: terms.merchant_id,
            })
        },
        _ => false,
    }
}

/// A method that is created starts on the terms of its request; where the
/// request was not valid, it is answered so.
pub proof fn creations_start_on_their_request(
    validation: Result<(), ApiErrorResponse>,
    req: PaymentMethodCreate,
    merchant_id: MerchantId,
    first: IntentStep,
)
    requires
        call_ensures(create_payment_method, (validation, req, merchant_id), first),
    ensures
        validation matches Err(error) ==> first == IntentStep::Done(Err(error)),
        validation is Ok ==> starts_on(
            first,
            IntentTerms {
                merchant_id,
                customer_id: Some(req.customer_id),
                metadata: req.metadata,
                billing: req.billing,
                payment_method_id: None,
                client_secret: None,
                vaulting: Some(
                    VaultingPlan {
                        payment_method_data: req.payment_method_data,
                        payment_method: req.payment_method,
                        payment_method_type: req.payment_method_type,
                    },
                ),
            },
        ),
{
}

/// A method of which nothing is known yet starts on the terms of its request.
pub proof fn intents_start_on_their_request(
    req: PaymentMethodIntentCreate,
    merchant_id: MerchantId,
    first: IntentStep,
)
    requires
        call_ensures(payment_method_intent_create, (req, merchant_id), first),
    ensures
        starts_on(
            first,
            IntentTerms {
                merchant_id,
                customer_id: Some(req.customer_id),
                metadata: req.metadata,
                billing: req.billing,
                payment_method_id: None,
                client_secret: None,
                vaulting: None,
            },
        ),
{
}

/// A method that is confirmed starts on the terms of its request; where the
/// request was not valid, it is answered so.
pub proof fn confirmations_start_on_their_request(
    validation: Result<(), ApiErrorResponse>,
    req: PaymentMethodIntentConfirm,
    merchant_id: MerchantId,
    pm_id: String,
    first: IntentStep,
)
    requires
        call_ensures(payment_method_intent_confirm, (validation, req, merchant_id, pm_id), first),
    ensures
        validation matches Err(error) ==> first == IntentStep::Done(Err(error)),
        validation is Ok ==> starts_on(
            first,
            IntentTerms {
                merchant_id,
                customer_id: None,
                metadata: None,
                billing: None,
                payment_method_id: Some(pm_id),
                client_secret: Some(req.client_secret),
                vaulting: Some(
                    VaultingPlan {
                        payment_method_data: req.payment_method_data,
                        payment_method: req.payment_method,
                        payment_method_type: req.payment_method_type,
                    },
                ),
            },
        ),
{
}

/// Whether this is the method that the flow is about, as it was found or created.
pub open spec fn is_method_of(
    terms: IntentTerms,
    replies: Seq<IntentReply>,
    payment_method: StoredPaymentMethod,
) -> bool {
    if terms.confirms() {
        replies.len() > 0 && replies[0] == IntentReply::PaymentMethodFound(Ok(payment_method))
    } else {
        replies.len() > terms.entry_reply() && replies[terms.entry_reply()]
            == IntentReply::EntryCreated(Ok(payment_method))
    }
}

/// What a step asks for, told from the terms and from the replies before it.
spec fn step_tells(terms: IntentTerms, replies: Seq<IntentReply>, step: IntentStep) -> bool {
    let n = replies.len() as int;
    let v = terms.vault_reply();
    match step {
        IntentStep::Done(_) => true,
        IntentStep::Ask(state, request) => match state {
            IntentState::FindingMethod { .. } | IntentState::FindingCustomer { .. } => n == 0
                && starts_on(step, terms),
            IntentState::CheckingSecret { payment_method, merchant_id, plan } => {
                &&& n == 1
                &&& terms.confirms()
                &&& terms.merchant_id == merchant_id
                &&& terms.vaulting == Some(plan)
                &&& is_method_of(terms, replies, payment_method)
                &&& terms.client_secret is Some
                &&& request == (IntentRequest::CheckClientSecret {
                    client_secret: terms.client_secret->0,
                    payment_method,
                })
            },
            IntentState::FindingOwner { payment_method, plan } => {
                &&& n == 2
                &&& terms.confirms()
                &&& terms.vaulting == Some(plan)
                &&& is_method_of(terms, replies, payment_method)
                &&& request == (IntentRequest::FindCustomer {
                    customer_id: payment_method.customer_id,
                    merchant_id: terms.merchant_id,
                })
            },
            IntentState::EncryptingBilling { entry } => {
                &&& n == 1
                &&& !terms.confirms()
                &&& terms.merchant_id == entry.merchant_id
                &&& terms.customer_id == Some(entry.customer_id)
                &&& terms.metadata == entry.metadata
                &&& terms.vaulting == entry.vaulting
                &&& terms.billing is Some
                &&& request == (IntentRequest::EncryptBilling { billing: terms.billing->0 })
            },
            IntentState::CreatingEntry { vaulting } => {
                &&& n == terms.entry_reply()
                &&& !terms.confirms()
                &&& terms.vaulting == vaulting
                &&& request matches IntentRequest::CreateForIntent {
                    metadata,
                    customer_id,
                    payment_method_id,
                    merchant_id,
                    billing_address,
                } && {
                    &&& metadata == terms.metadata
                    &&& terms.customer_id == Some(customer_id)
                    &&& merchant_id == terms.merchant_id
                    &&& is_generated_id(payment_method_id@, "pm"@, 20)
                    &&& match billing_address {
                        Some(bytes) => terms.billing is Some && replies[1]
                            == IntentReply::BillingEncrypted(Ok(bytes)),
                        None => terms.billing is None,
                    }
                }
            },
            IntentState::Vaulting { payment_method, plan } => {
                &&& n == v
                &&& terms.vaulting == Some(plan)
                &&& is_method_of(terms, replies, payment_method)
                &&& request == (IntentRequest::VaultPaymentMethod {
                    payment_method_data: plan.payment_method_data,
                })
            },
            IntentState::PreparingUpdate { payment_method } => {
                &&& n == v + 1
                &&& terms.vaulting is Some
                &&& is_method_of(terms, replies, payment_method)
                &&& replies[v] matches IntentReply::Vaulted(Ok(kept)) && request
                    == (IntentRequest::PrepareUpdate {
                    payment_method_data: terms.vaulting->0.payment_method_data,
                    vault_id: Some(kept.vault_id),
                    payment_method_family: Some(terms.vaulting->0.payment_method),
                    payment_method_type: Some(terms.vaulting->0.payment_method_type),
                })
            },
            IntentState::UpdatingMethod => {
                &&& n == v + 2
                &&& terms.vaulting is Some
                &&& request matches IntentRequest::UpdatePaymentMethod { payment_method, update }
                    && {
                    &&& is_method_of(terms, replies, payment_method)
                    &&& update matches MethodUpdate::Additional(json) && replies[v + 1]
                        == IntentReply::UpdatePrepared(Ok(json))
                }
            },
            IntentState::Deactivating { error } => {
                &&& n == v + 1
                &&& terms.vaulting is Some
                &&& replies[v] == IntentReply::Vaulted(Err(error))
                &&& request matches IntentRequest::UpdatePaymentMethod { payment_method, update }
                    && {
                    &&& is_method_of(terms, replies, payment_method)
                    &&& update == MethodUpdate::Status(PaymentMethodStatus::Inactive)
                }
            },
            IntentState::Responding => {
                &&& request matches IntentRequest::GenerateResponse { payment_method } && (
                if terms.vaulting is Some {
                    n == v + 3 && replies[v + 2] == IntentReply::PaymentMethodUpdated(
                        Ok(payment_method),
                    )
                } else {
                    n == terms.entry_reply() + 1 && is_method_of(terms, replies, payment_method)
                })
            },
        },
    }
}

proof fn steps_tell(
    terms: IntentTerms,
    first: IntentStep,
    replies: Seq<IntentReply>,
    steps: Seq<IntentStep>,
    i: int,
)
    requires
        starts_on(first, terms),
        is_run(first, replies, steps),
        0 <= i <= replies.len(),
    ensures
        step_tells(terms, replies.take(i), steps[i]),
    decreases i,
{
    if i > 0 {
        steps_tell(terms, first, replies, steps, i - 1);
        assert(follows(steps[i - 1], replies[i - 1], steps[i - 1 + 1]));
        assert(forall|j: int| 0 <= j < i - 1 ==> replies.take(i - 1)[j] == replies.take(i)[j]);
        assert(replies.take(i)[i - 1] == replies[i - 1]);
    }
}

/// An entry is created on the terms of its request, with the encrypted address
/// where one was handed in, and under an identifier that was made up for it.
pub proof fn entries_are_created_on_their_terms(
    terms: IntentTerms,
    first: IntentStep,
    replies: Seq<IntentReply>,
    steps: Seq<IntentStep>,
    i: int,
)
    requires
        starts_on(first, terms),
        is_run(first, replies, steps),
        0 <= i < steps.len(),
        steps[i] is Ask,
    ensures
        steps[i]->Ask_1 matches IntentRequest::EncryptBilling { billing } ==> i == 1
            && terms.billing == Some(billing),
        steps[i]->Ask_1 matches IntentRequest::CreateForIntent {
            metadata,
            customer_id,
            payment_method_id,
            merchant_id,
            billing_address,
        } ==> {
            &&& !terms.confirms()
            &&& metadata == terms.metadata
            &&& terms.customer_id == Some(customer_id)
            &&& merchant_id == terms.merchant_id
            &&& is_generated_id(payment_method_id@, "pm"@, 20)
            &&& billing_address is Some <==> terms.billing is Some
            &&& billing_address matches Some(bytes) ==> replies[1]
                == IntentReply::BillingEncrypted(Ok(bytes))
        },
{
    steps_tell(terms, first, replies, steps, i);
    assert(forall|j: int| 0 <= j < i ==> replies.take(i)[j] == replies[j]);
}

/// What is checked of a method that was created before: the secret that was
/// handed in, against the method that was found, and then its customer.
pub proof fn methods_are_checked_before_they_are_confirmed(
    terms: IntentTerms,
    first: IntentStep,
    replies: Seq<IntentReply>,
    steps: Seq<IntentStep>,
    i: int,
)
    requires
        starts_on(first, terms),
        is_run(first, replies, steps),
        0 <= i < steps.len(),
        steps[i] is Ask,
    ensures
        steps[i]->Ask_1 matches IntentRequest::FindPaymentMethod { payment_method_id } ==> i == 0
            && terms.payment_method_id == Some(payment_method_id),
        steps[i]->Ask_1 matches IntentRequest::CheckClientSecret { client_secret, payment_method }
            ==> i == 1 && terms.client_secret == Some(client_secret) && is_method_of(
            terms,
            replies,
            payment_method,
        ),
        steps[i]->Ask_1 matches IntentRequest::FindCustomer { customer_id, merchant_id } ==> {
            &&& merchant_id == terms.merchant_id
            &&& if terms.confirms() {
                &&& i == 2
                &&& customer_id == replies[0]->PaymentMethodFound_0->Ok_0.customer_id
            } else {
                &&& i == 0
                &&& terms.customer_id == Some(customer_id)
            }
        },
{
    steps_tell(terms, first, replies, steps, i);
    assert(forall|j: int| 0 <= j < i ==> replies.take(i)[j] == replies[j]);
}

/// What goes into the vault is what was handed in, and the method that the flow is
/// about is updated by where the vault keeps it, with its family and its kind; one
/// that the vault refused becomes inactive.
pub proof fn the_vault_gets_what_was_handed_in(
    terms: IntentTerms,
    first: IntentStep,
    replies: Seq<IntentReply>,
    steps: Seq<IntentStep>,
    i: int,
)
    requires
        starts_on(first, terms),
        is_run(first, replies, steps),
        0 <= i < steps.len(),
        steps[i] is Ask,
    ensures
        steps[i]->Ask_1 matches IntentRequest::VaultPaymentMethod { payment_method_data } ==> {
            &&& i == terms.vault_reply()
            &&& terms.vaulting is Some
            &&& payment_method_data == terms.vaulting->0.payment_method_data
        },
        steps[i]->Ask_1 matches IntentRequest::PrepareUpdate {
            payment_method_data,
            vault_id,
            payment_method_family,
            payment_method_type,
        } ==> {
            &&& terms.vaulting is Some
            &&& payment_method_data == terms.vaulting->0.payment_method_data
            &&& payment_method_family == Some(terms.vaulting->0.payment_method)
            &&& payment_method_type == Some(terms.vaulting->0.payment_method_type)
            &&& replies[i - 1] is Vaulted
            &&& replies[i - 1]->Vaulted_0 is Ok
            &&& vault_id == Some(replies[i - 1]->Vaulted_0->Ok_0.vault_id)
        },
        steps[i]->Ask_1 matches IntentRequest::UpdatePaymentMethod { payment_method, update } ==> {
            &&& is_method_of(terms, replies, payment_method)
            &&& match update {
                MethodUpdate::Additional(json) => replies[i - 1] == IntentReply::UpdatePrepared(
                    Ok(json),
                ),
                MethodUpdate::Status(status) => status == PaymentMethodStatus::Inactive
                    && replies[i - 1] is Vaulted && replies[i - 1]->Vaulted_0 is Err,
            }
        },
        steps[i]->Ask_1 matches IntentRequest::GenerateResponse { payment_method } ==> replies[i
            - 1] == if terms.vaulting is Some {
            IntentReply::PaymentMethodUpdated(Ok(payment_method))
        } else {
            IntentReply::EntryCreated(Ok(payment_method))
        },
{
    steps_tell(terms, first, replies, steps, i);
    assert(forall|j: int| 0 <= j < i ==> replies.take(i)[j] == replies[j]);
    assert(replies.take(i).len() == i);
}

/// What each reply leads to: an error ends the flow, as the error that it stands
/// for, and anything else leads to the next request.
pub proof fn replies_lead_on(
    terms: IntentTerms,
    first: IntentStep,
    replies: Seq<IntentReply>,
    steps: Seq<IntentStep>,
    i: int,
)
    requires
        starts_on(first, terms),
        is_run(first, replies, steps),
        0 <= i < replies.len(),
    ensures
        ({
            let next = steps[i + 1];
            match replies[i] {
                IntentReply::PaymentMethodFound(Err(_)) => next == IntentStep::Done(
                    Err(ApiErrorResponse::PaymentMethodNotFound),
                ),
                IntentReply::PaymentMethodFound(Ok(_)) => next is Ask
                    && next->Ask_1 is CheckClientSecret,
                IntentReply::ClientSecretChecked(Err(error)) => next == IntentStep::Done(
                    Err(error),
                ),
                IntentReply::ClientSecretChecked(Ok(is_expired)) => if is_expired {
                    next == IntentStep::Done(Err(ApiErrorResponse::ClientSecretExpired))
                } else if replies[0]->PaymentMethodFound_0->Ok_0.status is AwaitingData {
                    next is Ask && next->Ask_1 is FindCustomer
                } else {
                    &&& next is Done
                    &&& next->Done_0 is Err
                    &&& next->Done_0->Err_0 is InvalidRequestData
                    &&& next->Done_0->Err_0->InvalidRequestData_message@
                        == "Invalid pm_id provided: This Payment method cannot be confirmed"@
                },
                IntentReply::CustomerFound(Err(StorageError::ValueNotFound)) => next
                    == IntentStep::Done(Err(ApiErrorResponse::CustomerNotFound)),
                IntentReply::CustomerFound(Err(StorageError::CustomerRedacted)) => next
                    == IntentStep::Done(Err(ApiErrorResponse::CustomerRedacted)),
                IntentReply::CustomerFound(Err(_)) => next == IntentStep::Done(
                    Err(ApiErrorResponse::InternalServerError),
                ),
                IntentReply::CustomerFound(Ok(_)) => next is Ask && if terms.confirms() {
                    next->Ask_1 is VaultPaymentMethod
                } else if terms.billing is Some {
                    next->Ask_1 is EncryptBilling
                } else {
                    next->Ask_1 is CreateForIntent
                },
                IntentReply::BillingEncrypted(Err(_)) => next == IntentStep::Done(
                    Err(ApiErrorResponse::InternalServerError),
                ),
                IntentReply::BillingEncrypted(Ok(_)) => next is Ask
                    && next->Ask_1 is CreateForIntent,
                IntentReply::EntryCreated(Err(error)) => next == IntentStep::Done(Err(error)),
                IntentReply::EntryCreated(Ok(_)) => next is Ask && if terms.vaulting is Some {
                    next->Ask_1 is VaultPaymentMethod
                } else {
                    next->Ask_1 is GenerateResponse
                },
                IntentReply::Vaulted(Ok(_)) => next is Ask && next->Ask_1 is PrepareUpdate,
                IntentReply::Vaulted(Err(_)) => next is Ask && next->Ask_1 is UpdatePaymentMethod,
                IntentReply::UpdatePrepared(Err(error)) => next == IntentStep::Done(Err(error)),
                IntentReply::UpdatePrepared(Ok(_)) => next is Ask
                    && next->Ask_1 is UpdatePaymentMethod,
                IntentReply::PaymentMethodUpdated(Err(_)) => next == IntentStep::Done(
                    Err(ApiErrorResponse::InternalServerError),
                ),
                IntentReply::PaymentMethodUpdated(Ok(_)) => match replies[i - 1] {
                    IntentReply::Vaulted(Err(error)) => next == IntentStep::Done(Err(error)),
                    _ => next is Ask && next->Ask_1 is GenerateResponse,
                },
                IntentReply::ResponseGenerated(generated) => next == IntentStep::Done(generated),
            }
        }),
{
    steps_tell(terms, first, replies, steps, i);
    assert(forall|j: int| 0 <= j < i ==> replies.take(i)[j] == replies[j]);
    assert(replies.take(i).len() == i);
    assert(follows(steps[i], replies[i], steps[i + 1]));
}

/// The function that carries on the flows makes the steps that their laws speak
/// of.
pub proof fn the_flows_are_carried_on(state: IntentState, reply: IntentReply, next: IntentStep)
    requires
        state.awaits(reply),
        call_ensures(resume_payment_method_intent, (state, reply), next),
    ensures
        forall|request: IntentRequest| #[trigger]
            follows(IntentStep::Ask(state, request), reply, next),
{
}

} // verus!
