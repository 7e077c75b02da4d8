//! What the requests contain that are made while the destination of a payout is
//! kept in the locker, told from what the flow was started with and from what the
//! outside replied.

use vstd::prelude::*;

use crate::enums::{PaymentMethod, PaymentMethodType};
use crate::errors::{ApiErrorResponse, StorageError};
use crate::ids::is_generated_id;
use crate::locker::{DataDuplicationCheck, StoreCardRespPayload, StoreLockerReq};
use crate::outside::hex_of;
use crate::payment_method_types::{
    CardDetailsPaymentMethod, CardInfo, PaymentMethodCreate, StoredPaymentMethod,
};
use crate::payout_types::{CardPayout, MerchantId, PayoutData, PayoutMethodData};
use crate::save_payout::{
    are_card_details, card_entry, card_request, is_applied, is_generic_request, is_planned,
    known_card_info, plain_entry, resume_save_payout_data_to_locker, save_payout_data_to_locker,
    SaveContext, SaveReply, SaveRequest, SaveState, SaveStep, SavedInLocker, TablePlan,
};
use crate::save_payout_laws::{
    deletes, enters, first_locker_reply, follows, is_changed_entry, is_new_to_table, is_run,
    kept_as, says_not_found, stores, takes_out, updates,
};

verus! {

/// Whether this is the text of the bytes in hexadecimal: for each byte its two
/// digits, the higher one first.
pub open spec fn is_hexadecimal(text: Seq<char>, bytes: Seq<u8>) -> bool {
    &&& text.len() == 2 * bytes.len()
    &&& forall|i: int|
        #![trigger bytes[i]]
        0 <= i < bytes.len() ==> {
            &&& text[2 * i] == "0123456789abcdef"@[bytes[i] as int / 16]
            &&& text[2 * i + 1] == "0123456789abcdef"@[bytes[i] as int % 16]
        }
}

/// The text that a locker request hands over is the hexadecimal one.
pub proof fn hexadecimal_text_tells_the_bytes(bytes: Seq<u8>)
    ensures
        is_hexadecimal(hex_of(bytes), bytes),
{
    reveal_strlit("0123456789abcdef");
    assert forall|i: int|
        #![trigger bytes[i]]
        0 <= i < bytes.len() implies {
        &&& hex_of(bytes)[2 * i] == "0123456789abcdef"@[bytes[i] as int / 16]
        &&& hex_of(bytes)[2 * i + 1] == "0123456789abcdef"@[bytes[i] as int % 16]
    } by {
        assert((2 * i) / 2 == i && (2 * i) % 2 == 0);
        assert((2 * i + 1) / 2 == i && (2 * i + 1) % 2 == 1);
    }
}

/// Whether the request hands over the destination as it came in: a card with its
/// number, its holder and its expiry, anything else as the bytes it was encrypted
/// to, for the customer of the attempt, the merchant and the time to keep it.
pub open spec fn holds_destination(
    request: StoreLockerReq,
    context: SaveContext,
    replies: Seq<SaveReply>,
    replaced: Option<String>,
) -> bool {
    match context.payout_method_data {
        PayoutMethodData::Card(card) => {
            request matches StoreLockerReq::LockerCard(kept) && {
                &&& kept.merchant_id == context.merchant_id
                &&& kept.merchant_customer_id == context.payout_data.payout_attempt.customer_id
                &&& kept.ttl == context.ttl_for_storage_in_secs
                &&& kept.requestor_card_reference == replaced
                &&& kept.card.card_number == card.card_number
                &&& kept.card.name_on_card == card.card_holder_name
                &&& kept.card.card_exp_month == card.expiry_month
                &&& kept.card.card_exp_year == card.expiry_year
                &&& kept.card.card_brand is None
                &&& kept.card.card_isin is None
                &&& kept.card.nick_name is None
            }
        },
        _ => {
            request matches StoreLockerReq::LockerGeneric(kept) && {
                &&& kept.merchant_id == context.merchant_id
                &&& kept.merchant_customer_id == context.payout_data.payout_attempt.customer_id
                &&& kept.ttl == context.ttl_for_storage_in_secs
                &&& replies.len() > 0
                &&& replies[0] matches SaveReply::MethodEncrypted(Ok(Some(bytes)))
                    && is_hexadecimal(kept.enc_data@, bytes@)
            }
        },
    }
}

/// Whether the text is the first six digits of the number, or all of them where
/// it has fewer.
pub open spec fn is_issuer_part(text: Seq<char>, digits: Seq<char>) -> bool {
    &&& text.is_prefix_of(digits)
    &&& text.len() == if digits.len() < 6 {
        digits.len()
    } else {
        6
    }
}

/// Whether the text is the last four digits of the number, or all of them where
/// it has fewer.
pub open spec fn is_shown_part(text: Seq<char>, digits: Seq<char>) -> bool {
    &&& text.is_suffix_of(digits)
    &&& text.len() == if digits.len() < 4 {
        digits.len()
    } else {
        4
    }
}

/// Whether the details are those of the card, with what the lookup of its issuer
/// found, and nothing of the issuer where it found nothing.
pub open spec fn tell_the_card(
    details: CardDetailsPaymentMethod,
    card: CardPayout,
    fetched: Result<Option<CardInfo>, StorageError>,
) -> bool {
    &&& details.expiry_month == Some(card.expiry_month)
    &&& details.expiry_year == Some(card.expiry_year)
    &&& details.card_holder_name == card.card_holder_name
    &&& details.nick_name is None
    &&& details.saved_to_locker
    &&& details.last4_digits matches Some(digits) && is_shown_part(
        digits@,
        card.card_number.digits@,
    )
    &&& details.card_isin matches Some(digits) && is_issuer_part(digits@, card.card_number.digits@)
    &&& match fetched {
        Ok(Some(info)) => {
            &&& details.issuer_country == info.card_issuing_country
            &&& details.card_issuer == info.card_issuer
            &&& details.card_network == info.card_network
            &&& details.card_type == info.card_type
        },
        _ => {
            &&& details.issuer_country is None
            &&& details.card_issuer is None
            &&& details.card_network is None
            &&& details.card_type is None
        },
    }
}

/// Whether the entry is for a payment method of this family and kind, for the
/// customer of the attempt, and holds nothing that no destination gives.
pub open spec fn is_entry_of(
    entry: PaymentMethodCreate,
    context: SaveContext,
    family: PaymentMethod,
    kind: PaymentMethodType,
) -> bool {
    &&& entry.payment_method == Some(family)
    &&& entry.payment_method_type == Some(kind)
    &&& entry.customer_id == Some(context.payout_data.payout_attempt.customer_id)
    &&& entry.payment_method_issuer_code is None
    &&& entry.metadata is None
    &&& entry.client_secret is None
    &&& entry.payment_method_data is None
    &&& entry.billing is None
    &&& entry.connector_mandate_details is None
    &&& entry.network_transaction_id is None
}

/// Whether the entry tells the card, with what the lookup of its issuer found.
pub open spec fn is_entry_of_card(
    entry: PaymentMethodCreate,
    context: SaveContext,
    card: CardPayout,
    fetched: Result<Option<CardInfo>, StorageError>,
) -> bool {
    &&& is_entry_of(entry, context, PaymentMethod::Card, PaymentMethodType::Debit)
    &&& entry.bank_transfer is None
    &&& entry.wallet is None
    &&& entry.card matches Some(detail) && {
        &&& detail.card_number == card.card_number
        &&& detail.card_exp_month == card.expiry_month
        &&& detail.card_exp_year == card.expiry_year
        &&& detail.card_holder_name == card.card_holder_name
        &&& detail.nick_name is None
        &&& detail.card_issuing_country is None
        &&& detail.card_network is None
        &&& detail.card_issuer is None
        &&& detail.card_type is None
    }
    &&& match fetched {
        Ok(Some(info)) => {
            &&& entry.payment_method_issuer == info.card_issuer
            &&& entry.card_network == info.card_network
        },
        _ => entry.payment_method_issuer is None && entry.card_network is None,
    }
}

/// Whether the entry tells a destination that is not a card.
pub open spec fn is_entry_of_account(entry: PaymentMethodCreate, context: SaveContext) -> bool {
    &&& entry.card is None
    &&& entry.payment_method_issuer is None
    &&& entry.card_network is None
    &&& match context.payout_method_data {
        PayoutMethodData::Card(_) => false,
        PayoutMethodData::Bank(bank) => {
            &&& entry.bank_transfer == Some(bank)
            &&& entry.wallet is None
            &&& bank is Ach ==> is_entry_of(
                entry,
                context,
                PaymentMethod::BankTransfer,
                PaymentMethodType::Ach,
            )
            &&& bank is Bacs ==> is_entry_of(
                entry,
                context,
                PaymentMethod::BankTransfer,
                PaymentMethodType::Bacs,
            )
            &&& bank is Sepa ==> is_entry_of(
                entry,
                context,
                PaymentMethod::BankTransfer,
                PaymentMethodType::Sepa,
            )
            &&& bank is Pix ==> is_entry_of(
                entry,
                context,
                PaymentMethod::BankTransfer,
                PaymentMethodType::Pix,
            )
        },
        PayoutMethodData::Wallet(wallet) => {
            &&& entry.wallet == Some(wallet)
            &&& entry.bank_transfer is None
            &&& wallet is Paypal ==> is_entry_of(
                entry,
                context,
                PaymentMethod::Wallet,
                PaymentMethodType::Paypal,
            )
            &&& wallet is Venmo ==> is_entry_of(
                entry,
                context,
                PaymentMethod::Wallet,
                PaymentMethodType::Venmo,
            )
        },
    }
}

/// Whether the bytes are those that the details of a card were encrypted to by
/// the reply at position `i`; only cards have such details.
pub open spec fn are_encrypted_details(
    bytes: Option<Vec<u8>>,
    context: SaveContext,
    replies: Seq<SaveReply>,
    i: int,
) -> bool {
    if context.payout_method_data is Card {
        &&& 0 <= i < replies.len()
        &&& bytes is Some
        &&& replies[i] == SaveReply::CardEncrypted(Ok(bytes->0))
    } else {
        bytes is None
    }
}

/// The reference that the locker gave at its first request.
pub open spec fn reference_given(context: SaveContext, replies: Seq<SaveReply>) -> Option<String> {
    let k = first_locker_reply(context);
    if k < replies.len() {
        match replies[k] {
            SaveReply::LockerCalled(Ok(response)) => Some(response.card_reference),
            _ => None,
        }
    } else {
        None
    }
}

/// Whether the table knows the destination as `existing`, under the first or the
/// second of the names that were tried.
pub open spec fn is_known_as(
    context: SaveContext,
    replies: Seq<SaveReply>,
    existing: StoredPaymentMethod,
) -> bool {
    let k = first_locker_reply(context);
    ||| k + 1 < replies.len() && replies[k + 1] == SaveReply::PaymentMethodFound(Ok(existing))
    ||| {
        &&& k + 2 < replies.len()
        &&& says_not_found(replies[k + 1])
        &&& replies[k + 2] == SaveReply::PaymentMethodFound(Ok(existing))
    }
}

/// Whether the plan for the table is the one that the replies call for.
spec fn plan_fits(plan: TablePlan, context: SaveContext, replies: Seq<SaveReply>) -> bool {
    let k = first_locker_reply(context);
    &&& k < replies.len()
    &&& replies[k] matches SaveReply::LockerCalled(Ok(response)) && match plan {
        TablePlan::Insert => {
            ||| response.duplication_check is None
            ||| {
                &&& k + 2 < replies.len()
                &&& says_not_found(replies[k + 1])
                &&& says_not_found(replies[k + 2])
            }
        },
        TablePlan::UpdateMetadata(existing) => {
            &&& response.duplication_check == Some(DataDuplicationCheck::MetaDataChanged)
            &&& is_known_as(context, replies, existing)
        },
        TablePlan::Keep => true,
    }
}

/// What is known of a destination that the locker keeps.
spec fn is_kept(saved: SavedInLocker, context: SaveContext, replies: Seq<SaveReply>) -> bool {
    &&& saved.context == context
    &&& reference_given(context, replies) == Some(saved.card_reference)
    &&& holds_destination(saved.locker_request, context, replies, None)
}

/// What a step asks for, told from the context and from the replies before it.
spec fn step_tells(context: SaveContext, replies: Seq<SaveReply>, step: SaveStep) -> bool {
    let n = replies.len() as int;
    let k = first_locker_reply(context);
    match step {
        SaveStep::Done(_) => true,
        SaveStep::Ask(state, request) => match state {
            SaveState::EncryptingMethod { context: held } => {
                &&& held == context
                &&& n == 0
                &&& k == 1
                &&& request == (SaveRequest::EncryptMethod {
                    payout_method_data: context.payout_method_data,
                })
            },
            SaveState::Storing { context: held, locker_request } => {
                &&& held == context
                &&& n == k
                &&& holds_destination(locker_request, context, replies, None)
                &&& request == (SaveRequest::CallLocker {
                    request: locker_request,
                    customer_id: context.payout_data.payout_attempt.customer_id,
                })
            },
            SaveState::FindingById { saved, check } => {
                &&& n == k + 1
                &&& is_kept(saved, context, replies)
                &&& replies[k]->LockerCalled_0->Ok_0.duplication_check == Some(check)
                &&& request == (SaveRequest::FindPaymentMethod {
                    payment_method_id: saved.card_reference,
                })
            },
            SaveState::FindingByLockerId { saved, check } => {
                &&& n == k + 2
                &&& is_kept(saved, context, replies)
                &&& replies[k]->LockerCalled_0->Ok_0.duplication_check == Some(check)
                &&& says_not_found(replies[k + 1])
                &&& request == (SaveRequest::FindPaymentMethodByLockerId {
                    locker_ref: saved.card_reference,
                })
            },
            SaveState::FetchingCardInfo { saved, card, plan } => {
                &&& is_kept(saved, context, replies)
                &&& plan_fits(plan, context, replies)
                &&& !(plan is Keep)
                &&& context.payout_method_data == PayoutMethodData::Card(card)
                &&& request matches SaveRequest::GetCardInfo { card_isin } && is_issuer_part(
                    card_isin@,
                    card.card_number.digits@,
                )
            },
            SaveState::EncryptingCard { saved, entry, plan } => {
                &&& is_kept(saved, context, replies)
                &&& plan_fits(plan, context, replies)
                &&& !(plan is Keep)
                &&& n > 0
                &&& context.payout_method_data matches PayoutMethodData::Card(card) && (
                request matches SaveRequest::EncryptCard { details } && (
                replies[n - 1] matches SaveReply::CardInfoFetched(fetched) && {
                    &&& tell_the_card(details, card, fetched)
                    &&& is_entry_of_card(entry, context, card, fetched)
                }))
            },
            SaveState::CreatingEntry { saved } => {
                &&& is_kept(saved, context, replies)
                &&& plan_fits(TablePlan::Insert, context, replies)
                &&& is_creation(context, replies, saved, request)
            },
            SaveState::DeletingFromLocker { saved, existing, encrypted } => {
                &&& is_kept(saved, context, replies)
                &&& plan_fits(TablePlan::UpdateMetadata(existing), context, replies)
                &&& are_encrypted_details(encrypted, context, replies, n - 1)
                &&& request == (SaveRequest::DeleteCardFromLocker {
                    customer_id: context.payout_data.payout_attempt.customer_id,
                    merchant_id: context.merchant_id,
                    card_reference: name_in_locker(existing),
                })
            },
            SaveState::StoringAgain { saved, existing, encrypted } => {
                &&& saved.context == context
                &&& n > k + 1
                &&& reference_given(context, replies) == Some(saved.card_reference)
                &&& plan_fits(TablePlan::UpdateMetadata(existing), context, replies)
                &&& are_encrypted_details(encrypted, context, replies, n - 2)
                &&& request matches SaveRequest::CallLocker { request: again, customer_id } && {
                    &&& customer_id == context.payout_data.payout_attempt.customer_id
                    &&& holds_destination(again, context, replies, Some(name_in_locker(existing)))
                }
            },
            SaveState::DeletingEntry { context: held } => {
                &&& held == context
                &&& request matches SaveRequest::DeletePaymentMethod {
                    merchant_id,
                    payment_method_id,
                } && {
                    &&& merchant_id == context.merchant_id
                    &&& n > 0
                    &&& exists|existing: StoredPaymentMethod| #[trigger]
                        plan_fits(TablePlan::UpdateMetadata(existing), context, replies)
                            && payment_method_id == existing.payment_method_id
                }
            },
            SaveState::UpdatingEntry { saved } => {
                &&& saved.context == context
                &&& reference_given(context, replies) == Some(saved.card_reference)
                &&& request matches SaveRequest::UpdatePaymentMethod {
                    payment_method,
                    payment_method_data,
                } && {
                    &&& plan_fits(TablePlan::UpdateMetadata(payment_method), context, replies)
                    &&& are_encrypted_details(payment_method_data, context, replies, n - 3)
                }
            },
            SaveState::UpdatingPayout { context: held } => {
                &&& held == context
                &&& n > k
                &&& tells_the_reference(step, context, replies)
            },
        },
    }
}

/// The name that the locker has for an entry: its own, else the identifier of the
/// entry.
pub open spec fn name_in_locker(existing: StoredPaymentMethod) -> String {
    match existing.locker_id {
        Some(name) => name,
        None => existing.payment_method_id,
    }
}

/// Whether the request creates the entry of the destination.
spec fn is_creation(
    context: SaveContext,
    replies: Seq<SaveReply>,
    saved: SavedInLocker,
    request: SaveRequest,
) -> bool {
    let n = replies.len() as int;
    request matches SaveRequest::CreatePaymentMethod {
        entry,
        customer_id,
        payment_method_id,
        locker_id,
        merchant_id,
        payment_method_data,
    } && {
        &&& customer_id == context.payout_data.payout_attempt.customer_id
        &&& merchant_id == context.merchant_id
        &&& locker_id == Some(saved.card_reference)
        &&& is_generated_id(payment_method_id@, "pm"@, 20)
        &&& are_encrypted_details(payment_method_data, context, replies, n - 1)
        &&& match context.payout_method_data {
            PayoutMethodData::Card(card) => {
                &&& n > 1
                &&& replies[n - 2] matches SaveReply::CardInfoFetched(fetched) && is_entry_of_card(
                    entry,
                    context,
                    card,
                    fetched,
                )
            },
            _ => is_entry_of_account(entry, context),
        }
    }
}

/// What was known of a destination and of the plan for it stays so.
proof fn knowledge_is_kept(
    context: SaveContext,
    replies: Seq<SaveReply>,
    reply: SaveReply,
    request: StoreLockerReq,
    replaced: Option<String>,
    plan: TablePlan,
)
    ensures
        holds_destination(request, context, replies, replaced) ==> holds_destination(
            request,
            context,
            replies.push(reply),
            replaced,
        ),
        reference_given(context, replies) is Some ==> reference_given(context, replies.push(reply))
            == reference_given(context, replies),
        plan_fits(plan, context, replies) ==> plan_fits(plan, context, replies.push(reply)),
{
    let after = replies.push(reply);
    assert(forall|j: int| 0 <= j < replies.len() ==> after[j] == replies[j]);
}

/// The request for a card holds the card.
proof fn card_requests_hold_the_card(
    context: SaveContext,
    replies: Seq<SaveReply>,
    card: CardPayout,
)
    requires
        context.payout_method_data == PayoutMethodData::Card(card),
    ensures
        holds_destination(card_request(context, card), context, replies, None),
{
}

/// The request for encrypted bytes holds them.
proof fn generic_requests_hold_the_bytes(
    context: SaveContext,
    replies: Seq<SaveReply>,
    request: StoreLockerReq,
    bytes: Vec<u8>,
)
    requires
        !(context.payout_method_data is Card),
        replies.len() > 0,
        replies[0] == SaveReply::MethodEncrypted(Ok(Some(bytes))),
        is_generic_request(request, context, bytes@),
    ensures
        holds_destination(request, context, replies, None),
{
    hexadecimal_text_tells_the_bytes(bytes@);
}

/// The request with the name of an entry holds the same destination under it.
proof fn replacing_requests_hold_the_destination(
    context: SaveContext,
    replies: Seq<SaveReply>,
    request: StoreLockerReq,
    name: String,
)
    requires
        holds_destination(request, context, replies, None),
    ensures
        holds_destination(
            request.with_card_reference(Some(name)),
            context,
            replies,
            Some(name),
        ),
{
}

/// The entry and the details of a card tell the card.
proof fn card_entries_tell_the_card(
    context: SaveContext,
    card: CardPayout,
    fetched: Result<Option<CardInfo>, StorageError>,
    details: CardDetailsPaymentMethod,
)
    requires
        context.payout_method_data == PayoutMethodData::Card(card),
        are_card_details(details, card, known_card_info(fetched)),
    ensures
        tell_the_card(details, card, fetched),
        is_entry_of_card(
            card_entry(context, card, known_card_info(fetched)),
            context,
            card,
            fetched,
        ),
{
    let digits = card.card_number.digits@;
    assert(digits.subrange(0, digits.len() as int) =~= digits);
}

/// The entry of an account tells the account.
proof fn plain_entries_tell_the_account(context: SaveContext)
    requires
        !(context.payout_method_data is Card),
    ensures
        is_entry_of_account(plain_entry(context), context),
{
}

/// The step that carries out a plan for the table asks for what is due.
proof fn applied_plans_tell(
    context: SaveContext,
    replies: Seq<SaveReply>,
    saved: SavedInLocker,
    plan: TablePlan,
    entry: PaymentMethodCreate,
    encrypted: Option<Vec<u8>>,
    next: SaveStep,
)
    requires
        is_applied(next, saved, plan, entry, encrypted),
        is_kept(saved, context, replies),
        plan_fits(plan, context, replies),
        !(plan is Keep) ==> are_encrypted_details(encrypted, context, replies, replies.len() - 1),
        plan is Insert ==> match context.payout_method_data {
            PayoutMethodData::Card(card) => {
                &&& replies.len() > 1
                &&& replies[replies.len() - 2] matches SaveReply::CardInfoFetched(fetched)
                    && is_entry_of_card(entry, context, card, fetched)
            },
            _ => is_entry_of_account(entry, context),
        },
    ensures
        step_tells(context, replies, next),
{
}

/// The step that takes up a plan for the table asks for what is due.
proof fn planned_steps_tell(
    context: SaveContext,
    replies: Seq<SaveReply>,
    saved: SavedInLocker,
    plan: TablePlan,
    next: SaveStep,
)
    requires
        is_planned(next, saved, plan),
        is_kept(saved, context, replies),
        plan_fits(plan, context, replies),
    ensures
        step_tells(context, replies, next),
{
    match (context.payout_method_data, plan) {
        (PayoutMethodData::Card(card), TablePlan::Insert | TablePlan::UpdateMetadata(_)) => {
            let digits = card.card_number.digits@;
            assert(digits.subrange(0, digits.len() as int) =~= digits);
        },
        _ => {
            if !(context.payout_method_data is Card) {
                plain_entries_tell_the_account(context);
            }
            applied_plans_tell(context, replies, saved, plan, plain_entry(context), None, next);
        },
    }
}

/// After what was asked for first and what was searched for, what is asked for is
/// due.
proof fn telling_is_kept_at_first(
    context: SaveContext,
    replies: Seq<SaveReply>,
    step: SaveStep,
    reply: SaveReply,
    next: SaveStep,
)
    requires
        step_tells(context, replies, step),
        follows(step, reply, next),
        step->Ask_0 is EncryptingMethod || step->Ask_0 is Storing || step->Ask_0 is FindingById
            || step->Ask_0 is FindingByLockerId,
    ensures
        step_tells(context, replies.push(reply), next),
{
    let after = replies.push(reply);
    assert(forall|j: int| 0 <= j < replies.len() ==> after[j] == replies[j]);
    assert(after[replies.len() as int] == reply);
    match (step->Ask_0, reply) {
        (SaveState::EncryptingMethod { .. }, SaveReply::MethodEncrypted(Ok(Some(bytes)))) => {
            match next {
                SaveStep::Ask(SaveState::Storing { locker_request, .. }, _) => {
                    generic_requests_hold_the_bytes(context, after, locker_request, bytes);
                },
                _ => {},
            }
        },
        (SaveState::Storing { locker_request, .. }, SaveReply::LockerCalled(Ok(response))) => {
            let saved = SavedInLocker {
                context,
                locker_request,
                card_reference: response.card_reference,
            };
            knowledge_is_kept(context, replies, reply, locker_request, None, TablePlan::Keep);
            assert(is_kept(saved, context, after));
            if response.duplication_check is None {
                planned_steps_tell(context, after, saved, TablePlan::Insert, next);
            }
        },
        (SaveState::FindingById { saved, check }, SaveReply::PaymentMethodFound(found)) => {
            knowledge_is_kept(context, replies, reply, saved.locker_request, None, TablePlan::Keep);
            assert(is_kept(saved, context, after));
            match found {
                Ok(existing) => {
                    let plan = if check == DataDuplicationCheck::MetaDataChanged {
                        TablePlan::UpdateMetadata(existing)
                    } else {
                        TablePlan::Keep
                    };
                    planned_steps_tell(context, after, saved, plan, next);
                },
                Err(_) => {},
            }
        },
        (SaveState::FindingByLockerId { saved, check }, SaveReply::PaymentMethodFound(found)) => {
            knowledge_is_kept(context, replies, reply, saved.locker_request, None, TablePlan::Keep);
            assert(is_kept(saved, context, after));
            match found {
                Ok(existing) => {
                    let plan = if check == DataDuplicationCheck::MetaDataChanged {
                        TablePlan::UpdateMetadata(existing)
                    } else {
                        TablePlan::Keep
                    };
                    planned_steps_tell(context, after, saved, plan, next);
                },
                Err(StorageError::ValueNotFound) => {
                    planned_steps_tell(context, after, saved, TablePlan::Insert, next);
                },
                Err(_) => {},
            }
        },
        _ => {},
    }
}

/// After the issuer of a card was looked up and its details were encrypted, what
/// is asked for is due.
proof fn telling_is_kept_for_cards(
    context: SaveContext,
    replies: Seq<SaveReply>,
    step: SaveStep,
    reply: SaveReply,
    next: SaveStep,
)
    requires
        step_tells(context, replies, step),
        follows(step, reply, next),
        step->Ask_0 is FetchingCardInfo || step->Ask_0 is EncryptingCard,
    ensures
        step_tells(context, replies.push(reply), next),
{
    let after = replies.push(reply);
    assert(forall|j: int| 0 <= j < replies.len() ==> after[j] == replies[j]);
    assert(after[replies.len() as int] == reply);
    match (step->Ask_0, reply) {
        (
            SaveState::FetchingCardInfo { saved, plan, card },
            SaveReply::CardInfoFetched(fetched),
        ) => {
            knowledge_is_kept(context, replies, reply, saved.locker_request, None, plan);
            match next {
                SaveStep::Ask(_, SaveRequest::EncryptCard { details }) => {
                    card_entries_tell_the_card(context, card, fetched, details);
                },
                _ => {},
            }
        },
        (
            SaveState::EncryptingCard { saved, plan, entry },
            SaveReply::CardEncrypted(Ok(bytes)),
        ) => {
            knowledge_is_kept(context, replies, reply, saved.locker_request, None, plan);
            applied_plans_tell(context, after, saved, plan, entry, Some(bytes), next);
        },
        _ => {},
    }
}

/// While an entry is replaced, what is asked for is due.
proof fn telling_is_kept_while_replacing(
    context: SaveContext,
    replies: Seq<SaveReply>,
    step: SaveStep,
    reply: SaveReply,
    next: SaveStep,
)
    requires
        step_tells(context, replies, step),
        follows(step, reply, next),
        step->Ask_0 is DeletingFromLocker || step->Ask_0 is StoringAgain,
    ensures
        step_tells(context, replies.push(reply), next),
{
    let after = replies.push(reply);
    assert(forall|j: int| 0 <= j < replies.len() ==> after[j] == replies[j]);
    match step->Ask_0 {
        SaveState::DeletingFromLocker { saved, existing, .. } => {
            let plan = TablePlan::UpdateMetadata(existing);
            knowledge_is_kept(context, replies, reply, saved.locker_request, None, plan);
            replacing_requests_hold_the_destination(
                context,
                after,
                saved.locker_request,
                name_in_locker(existing),
            );
        },
        SaveState::StoringAgain { saved, existing, .. } => {
            let plan = TablePlan::UpdateMetadata(existing);
            knowledge_is_kept(context, replies, reply, saved.locker_request, None, plan);
        },
        _ => {},
    }
}

/// After the table was brought up to date, what is asked for is due.
proof fn telling_is_kept_at_last(
    context: SaveContext,
    replies: Seq<SaveReply>,
    step: SaveStep,
    reply: SaveReply,
    next: SaveStep,
)
    requires
        step_tells(context, replies, step),
        follows(step, reply, next),
        step->Ask_0 is CreatingEntry || step->Ask_0 is UpdatingEntry || step->Ask_0 is DeletingEntry
            || step->Ask_0 is UpdatingPayout,
    ensures
        step_tells(context, replies.push(reply), next),
{
    let after = replies.push(reply);
    assert(forall|j: int| 0 <= j < replies.len() ==> after[j] == replies[j]);
}

proof fn steps_tell(
    context: SaveContext,
    replies: Seq<SaveReply>,
    steps: Seq<SaveStep>,
    i: int,
)
    requires
        is_run(context, replies, steps),
        0 <= i <= replies.len(),
    ensures
        step_tells(context, replies.take(i), steps[i]),
    decreases i,
{
    if i == 0 {
        match context.payout_method_data {
            PayoutMethodData::Card(card) => {
                card_requests_hold_the_card(context, replies.take(0), card);
            },
            _ => {},
        }
    } else {
        let reply = replies[i - 1];
        let before = replies.take(i - 1);
        steps_tell(context, replies, steps, i - 1);
        assert(follows(steps[i - 1], reply, steps[i - 1 + 1]));
        assert(before.push(reply) =~= replies.take(i));
        match steps[i - 1]->Ask_0 {
            SaveState::EncryptingMethod { .. }
            | SaveState::Storing { .. }
            | SaveState::FindingById { .. }
            | SaveState::FindingByLockerId { .. } => {
                telling_is_kept_at_first(context, before, steps[i - 1], reply, steps[i]);
            },
            SaveState::FetchingCardInfo { .. } | SaveState::EncryptingCard { .. } => {
                telling_is_kept_for_cards(context, before, steps[i - 1], reply, steps[i]);
            },
            SaveState::DeletingFromLocker { .. } | SaveState::StoringAgain { .. } => {
                telling_is_kept_while_replacing(context, before, steps[i - 1], reply, steps[i]);
            },
            _ => {
                telling_is_kept_at_last(context, before, steps[i - 1], reply, steps[i]);
            },
        }
    }
}

/// What the replies before a step have shown of a plan is shown by all replies.
proof fn plans_are_shown_by_all_replies(
    context: SaveContext,
    replies: Seq<SaveReply>,
    i: int,
    plan: TablePlan,
)
    requires
        0 <= i <= replies.len(),
        plan_fits(plan, context, replies.take(i)),
    ensures
        plan is Insert ==> is_new_to_table(context, replies),
        plan matches TablePlan::UpdateMetadata(existing) ==> is_changed_entry(
            context,
            replies,
            existing,
        ) && !is_new_to_table(context, replies),
        kept_as(
            context,
            replies,
            replies[first_locker_reply(context)]->LockerCalled_0->Ok_0,
        ),
{
    let k = first_locker_reply(context);
    let before = replies.take(i);
    assert(forall|j: int| 0 <= j < i ==> before[j] == replies[j]);
    assert(kept_as(context, replies, replies[k]->LockerCalled_0->Ok_0));
}

/// The details that are kept beside the entry of a card are those of the card
/// that was handed in, whatever the lookup of its issuer replies; that reply
/// tells the issuer, the network, the country and the type, and nothing else.
pub proof fn kept_details_tell_the_card(
    context: SaveContext,
    replies: Seq<SaveReply>,
    steps: Seq<SaveStep>,
    i: int,
    details: CardDetailsPaymentMethod,
)
    requires
        is_run(context, replies, steps),
        0 <= i < steps.len(),
        steps[i] is Ask,
        steps[i]->Ask_1 == (SaveRequest::EncryptCard { details }),
    ensures
        i > 0,
        context.payout_method_data is Card,
        replies[i - 1] is CardInfoFetched,
        tell_the_card(
            details,
            context.payout_method_data->Card_0,
            replies[i - 1]->CardInfoFetched_0,
        ),
{
    steps_tell(context, replies, steps, i);
    assert(replies.take(i).len() == i);
}

/// An entry tells the destination that was handed in, under a new identifier and
/// the reference that the locker gave, with the encrypted details of a card.
pub proof fn entries_tell_the_destination(
    context: SaveContext,
    replies: Seq<SaveReply>,
    steps: Seq<SaveStep>,
    i: int,
)
    requires
        is_run(context, replies, steps),
        0 <= i < steps.len(),
        enters(steps[i]),
    ensures
        steps[i]->Ask_1 matches SaveRequest::CreatePaymentMethod {
            entry,
            customer_id,
            payment_method_id,
            locker_id,
            merchant_id,
            payment_method_data,
        } && {
            &&& customer_id == context.payout_data.payout_attempt.customer_id
            &&& merchant_id == context.merchant_id
            &&& is_generated_id(payment_method_id@, "pm"@, 20)
            &&& exists|response: StoreCardRespPayload| #[trigger]
                kept_as(context, replies, response) && locker_id == Some(response.card_reference)
            &&& are_encrypted_details(payment_method_data, context, replies, i - 1)
            &&& match context.payout_method_data {
                PayoutMethodData::Card(card) => {
                    &&& i > 1
                    &&& replies[i - 2] matches SaveReply::CardInfoFetched(fetched)
                        && is_entry_of_card(entry, context, card, fetched)
                },
                _ => is_entry_of_account(entry, context),
            }
        },
{
    steps_tell(context, replies, steps, i);
    let before = replies.take(i);
    assert(before.len() == i);
    assert(forall|j: int| 0 <= j < i ==> before[j] == replies[j]);
    match steps[i] {
        SaveStep::Ask(SaveState::CreatingEntry { .. }, _) => {
            plans_are_shown_by_all_replies(context, replies, i, TablePlan::Insert);
        },
        _ => {},
    }
}

/// The locker is asked for the first time to keep the destination as it was
/// handed in, and for the second time to keep the same under the name of the
/// entry that it belongs to.
pub proof fn the_locker_is_handed_the_destination(
    context: SaveContext,
    replies: Seq<SaveReply>,
    steps: Seq<SaveStep>,
    i: int,
)
    requires
        is_run(context, replies, steps),
        0 <= i < steps.len(),
        stores(steps[i]),
    ensures
        steps[i]->Ask_1 matches SaveRequest::CallLocker { request, customer_id } && {
            &&& customer_id == context.payout_data.payout_attempt.customer_id
            &&& if i == first_locker_reply(context) {
                holds_destination(request, context, replies, None)
            } else {
                exists|existing: StoredPaymentMethod| #[trigger]
                    is_changed_entry(context, replies, existing) && holds_destination(
                        request,
                        context,
                        replies,
                        Some(name_in_locker(existing)),
                    )
            }
        },
{
    steps_tell(context, replies, steps, i);
    let before = replies.take(i);
    assert(before.len() == i);
    assert(forall|j: int| 0 <= j < i ==> before[j] == replies[j]);
    match steps[i] {
        SaveStep::Ask(SaveState::StoringAgain { existing, .. }, _) => {
            let plan = TablePlan::UpdateMetadata(existing);
            plans_are_shown_by_all_replies(context, replies, i, plan);
        },
        _ => {},
    }
}

/// What is taken out of the locker, deleted or updated is named by the merchant,
/// the customer of the attempt and the entry that has changed, and an update
/// carries the details that were encrypted in this run.
pub proof fn changes_name_their_entry(
    context: SaveContext,
    replies: Seq<SaveReply>,
    steps: Seq<SaveStep>,
    i: int,
)
    requires
        is_run(context, replies, steps),
        0 <= i < steps.len(),
        steps[i] is Ask,
    ensures
        steps[i]->Ask_1 matches SaveRequest::DeleteCardFromLocker {
            customer_id,
            merchant_id,
            card_reference,
        } ==> {
            &&& customer_id == context.payout_data.payout_attempt.customer_id
            &&& merchant_id == context.merchant_id
            &&& exists|existing: StoredPaymentMethod| #[trigger]
                is_changed_entry(context, replies, existing) && card_reference == name_in_locker(
                    existing,
                )
        },
        steps[i]->Ask_1 matches SaveRequest::DeletePaymentMethod { merchant_id, .. }
            ==> merchant_id == context.merchant_id,
        steps[i]->Ask_1 matches SaveRequest::UpdatePaymentMethod { payment_method_data, .. }
            ==> are_encrypted_details(payment_method_data, context, replies, i - 3),
{
    steps_tell(context, replies, steps, i);
    let before = replies.take(i);
    assert(before.len() == i);
    assert(forall|j: int| 0 <= j < i ==> before[j] == replies[j]);
    match steps[i] {
        SaveStep::Ask(SaveState::DeletingFromLocker { existing, .. }, _) => {
            let plan = TablePlan::UpdateMetadata(existing);
            plans_are_shown_by_all_replies(context, replies, i, plan);
        },
        _ => {},
    }
}

/// What is encrypted is the destination, what is searched for is the reference
/// that the locker gave, and what is looked up is the issuer part of the card's
/// number.
pub proof fn searches_follow_the_destination(
    context: SaveContext,
    replies: Seq<SaveReply>,
    steps: Seq<SaveStep>,
    i: int,
)
    requires
        is_run(context, replies, steps),
        0 <= i < steps.len(),
        steps[i] is Ask,
    ensures
        steps[i]->Ask_1 matches SaveRequest::EncryptMethod { payout_method_data } ==> i == 0
            && payout_method_data == context.payout_method_data,
        steps[i]->Ask_1 matches SaveRequest::FindPaymentMethod { payment_method_id } ==> exists|
            response: StoreCardRespPayload,
        | #[trigger] kept_as(context, replies, response) && payment_method_id
            == response.card_reference,
        steps[i]->Ask_1 matches SaveRequest::FindPaymentMethodByLockerId { locker_ref } ==> exists|
            response: StoreCardRespPayload,
        | #[trigger] kept_as(context, replies, response) && locker_ref == response.card_reference,
        steps[i]->Ask_1 matches SaveRequest::GetCardInfo { card_isin } ==> (
        context.payout_method_data matches PayoutMethodData::Card(card) && is_issuer_part(
            card_isin@,
            card.card_number.digits@,
        )),
{
    steps_tell(context, replies, steps, i);
    match steps[i] {
        SaveStep::Ask(SaveState::FindingById { .. }, _) => {
            plans_are_shown_by_all_replies(context, replies, i, TablePlan::Keep);
        },
        SaveStep::Ask(SaveState::FindingByLockerId { .. }, _) => {
            plans_are_shown_by_all_replies(context, replies, i, TablePlan::Keep);
        },
        _ => {},
    }
}

/// The error that a reply stands for, where it ends the flow. A reply of the
/// locker does so only at its first request, and the deletion of an entry always
/// does; an issuer that could not be looked up, and an entry that does not exist,
/// do not.
pub open spec fn error_of(reply: SaveReply) -> Option<ApiErrorResponse> {
    match reply {
        SaveReply::MethodEncrypted(Ok(Some(_))) => None,
        SaveReply::MethodEncrypted(_) => Some(ApiErrorResponse::InternalServerError),
        SaveReply::LockerCalled(Err(_)) => Some(ApiErrorResponse::InternalServerError),
        SaveReply::PaymentMethodFound(Err(StorageError::ValueNotFound)) => None,
        SaveReply::PaymentMethodFound(Err(_)) => Some(ApiErrorResponse::InternalServerError),
        SaveReply::CardEncrypted(Err(_)) => Some(ApiErrorResponse::InternalServerError),
        SaveReply::PaymentMethodCreated(Err(error)) => Some(error),
        SaveReply::CardDeletedFromLocker(Err(error)) => Some(error),
        SaveReply::PaymentMethodDeleted(Err(StorageError::ValueNotFound)) => Some(
            ApiErrorResponse::PaymentMethodNotFound,
        ),
        SaveReply::PaymentMethodDeleted(Err(StorageError::CustomerRedacted)) => Some(
            ApiErrorResponse::CustomerRedacted,
        ),
        SaveReply::PaymentMethodDeleted(_) => Some(ApiErrorResponse::InternalServerError),
        SaveReply::PaymentMethodUpdated(Err(_)) => Some(ApiErrorResponse::InternalServerError),
        SaveReply::PayoutUpdated(Err(_)) => Some(ApiErrorResponse::InternalServerError),
        _ => None,
    }
}

/// A run ends with an error exactly where its last reply stands for one, and
/// with that error.
pub proof fn failures_are_told(
    context: SaveContext,
    replies: Seq<SaveReply>,
    steps: Seq<SaveStep>,
    i: int,
)
    requires
        is_run(context, replies, steps),
        0 <= i < replies.len(),
        replies[i] is LockerCalled ==> i == first_locker_reply(context),
    ensures
        error_of(replies[i]) matches Some(error) ==> {
            &&& steps[i + 1] matches SaveStep::Done(outcome)
            &&& outcome.result == Err::<(), ApiErrorResponse>(error)
            &&& outcome.payout_data == context.payout_data
        },
        error_of(replies[i]) is None ==> {
            ||| steps[i + 1] is Ask
            ||| steps[i + 1]->Done_0.result is Ok
        },
{
    steps_tell(context, replies, steps, i);
    assert(follows(steps[i], replies[i], steps[i + 1]));
}

/// The second request to the locker never ends the flow by itself: its failure
/// leads to the deletion of the entry, its success to the update.
pub proof fn the_second_storing_goes_on(
    context: SaveContext,
    replies: Seq<SaveReply>,
    steps: Seq<SaveStep>,
    i: int,
)
    requires
        is_run(context, replies, steps),
        first_locker_reply(context) < i < replies.len(),
        replies[i] is LockerCalled,
    ensures
        replies[i]->LockerCalled_0 is Ok ==> updates(steps[i + 1]),
        replies[i]->LockerCalled_0 is Err ==> deletes(steps[i + 1]),
{
    steps_tell(context, replies, steps, i);
    assert(follows(steps[i], replies[i], steps[i + 1]));
}

/// The functions that carry out the flow make the steps that its laws speak of.
pub proof fn the_flow_is_carried_out(
    payout_data: PayoutData,
    payout_method_data: PayoutMethodData,
    merchant_id: MerchantId,
    ttl_for_storage_in_secs: i64,
    first: SaveStep,
    state: SaveState,
    reply: SaveReply,
    next: SaveStep,
)
    requires
        call_ensures(
            save_payout_data_to_locker,
            (payout_data, payout_method_data, merchant_id, ttl_for_storage_in_secs),
            first,
        ),
        state.awaits(reply),
        call_ensures(resume_save_payout_data_to_locker, (state, reply), next),
    ensures
        is_run(
            SaveContext { payout_data, payout_method_data, merchant_id, ttl_for_storage_in_secs },
            Seq::empty(),
            seq![first],
        ),
        forall|request: SaveRequest| #[trigger]
            follows(SaveStep::Ask(state, request), reply, next),
{
}

/// Whether the step asks for the issuer of a card.
pub open spec fn looks_up_issuer(step: SaveStep) -> bool {
    step matches SaveStep::Ask(_, request) && request is GetCardInfo
}

/// Whether the step tells the payout the reference that the locker gave, and
/// changes nothing else of it.
pub open spec fn tells_the_reference(
    step: SaveStep,
    context: SaveContext,
    replies: Seq<SaveReply>,
) -> bool {
    let reply = replies[first_locker_reply(context)];
    &&& step is Ask
    &&& reply is LockerCalled
    &&& reply->LockerCalled_0 is Ok
    &&& step->Ask_1 == SaveRequest::UpdatePayout {
        payouts: context.payout_data.payouts,
        payout_method_id: reply->LockerCalled_0->Ok_0.card_reference,
        payout_attempt: context.payout_data.payout_attempt,
    }
}

/// What each reply that is no failure leads to. What the locker did not have is
/// entered; what it had is searched for, by its reference first as that of an entry
/// and then as a name in the locker, and entered where it is found under neither.
/// What is found is replaced where the locker reported a change, and left alone
/// where it did not. Before a card is entered or replaced, its issuer is looked up
/// and its details are encrypted. In the end the payout is told the reference.
pub proof fn replies_lead_on(
    context: SaveContext,
    replies: Seq<SaveReply>,
    steps: Seq<SaveStep>,
    i: int,
)
    requires
        is_run(context, replies, steps),
        0 <= i < replies.len(),
    ensures
        ({
            let k = first_locker_reply(context);
            let is_card = context.payout_method_data is Card;
            let next = steps[i + 1];
            match replies[i] {
                SaveReply::MethodEncrypted(Ok(Some(_))) => stores(next),
                SaveReply::LockerCalled(Ok(response)) => if i > k {
                    updates(next)
                } else if response.duplication_check is Some {
                    next is Ask && next->Ask_1 is FindPaymentMethod
                } else if is_card {
                    looks_up_issuer(next)
                } else {
                    enters(next)
                },
                SaveReply::PaymentMethodFound(Ok(_)) => {
                    let check = replies[k]->LockerCalled_0->Ok_0.duplication_check;
                    if check == Some(DataDuplicationCheck::Duplicated) {
                        tells_the_reference(next, context, replies)
                    } else if is_card {
                        looks_up_issuer(next)
                    } else {
                        takes_out(next)
                    }
                },
                SaveReply::PaymentMethodFound(Err(StorageError::ValueNotFound)) => if i == k + 1 {
                    next is Ask && next->Ask_1 is FindPaymentMethodByLockerId
                } else if is_card {
                    looks_up_issuer(next)
                } else {
                    enters(next)
                },
                SaveReply::CardInfoFetched(_) => next is Ask && next->Ask_1 is EncryptCard,
                SaveReply::CardEncrypted(Ok(_)) => if is_new_to_table(context, replies) {
                    enters(next)
                } else {
                    takes_out(next)
                },
                SaveReply::PaymentMethodCreated(Ok(_)) => tells_the_reference(
                    next,
                    context,
                    replies,
                ),
                SaveReply::CardDeletedFromLocker(Ok(_)) => stores(next),
                SaveReply::PaymentMethodUpdated(Ok(_)) => tells_the_reference(
                    next,
                    context,
                    replies,
                ),
                SaveReply::PayoutUpdated(Ok(payouts)) => {
                    &&& next is Done
                    &&& next->Done_0.result is Ok
                    &&& next->Done_0.payout_data.payouts == payouts
                    &&& next->Done_0.payout_data.payout_attempt
                        == context.payout_data.payout_attempt
                },
                _ => true,
            }
        }),
{
    steps_tell(context, replies, steps, i);
    steps_tell(context, replies, steps, i + 1);
    assert(follows(steps[i], replies[i], steps[i + 1]));
    assert(forall|j: int| 0 <= j < i ==> replies.take(i)[j] == replies[j]);
    assert(forall|j: int| 0 <= j < i + 1 ==> replies.take(i + 1)[j] == replies[j]);
    match steps[i]->Ask_0 {
        SaveState::EncryptingCard { plan, .. } => {
            plans_are_shown_by_all_replies(context, replies, i, plan);
        },
        _ => {},
    }
}

/// A run begins with a request: a card is stored, anything else is encrypted.
pub proof fn a_run_begins_with_the_destination(
    context: SaveContext,
    replies: Seq<SaveReply>,
    steps: Seq<SaveStep>,
)
    requires
        is_run(context, replies, steps),
    ensures
        steps[0] is Ask,
        context.payout_method_data is Card ==> steps[0]->Ask_1 is CallLocker,
        !(context.payout_method_data is Card) ==> steps[0]->Ask_1 == (SaveRequest::EncryptMethod {
            payout_method_data: context.payout_method_data,
        }),
{
}

} // verus!
