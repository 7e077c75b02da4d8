//! The messages exchanged with the vault that keeps payment methods.

use vstd::prelude::*;

use crate::ids::{generate_id, ID_LENGTH};
use crate::payment_method_types::PaymentMethodCreateData;
use crate::payout_types::MerchantId;

verus! {

/// Where the vault takes new entries.
pub const ADD_VAULT_REQUEST_URL: &'static str = "/vault/add";

/// Where the vault tells the fingerprint of an entry.
pub const VAULT_FINGERPRINT_REQUEST_URL: &'static str = "/fingerprint";

/// A request that the vault answers.
pub trait VaultingInterface {
    /// The path at which the vault answers the request.
    spec fn vault_action_url() -> Seq<char>;

    /// Computes [`VaultingInterface::vault_action_url`].
    fn get_vault_action_url() -> (r: &'static str)
        ensures
            r@ == Self::vault_action_url(),
    ;
}

/// Data that the vault keeps.
pub trait VaultingDataInterface {
    /// The text by which the vault tells the data apart.
    spec fn vaulting_data_key(&self) -> Seq<char>;

    /// Computes [`VaultingDataInterface::vaulting_data_key`].
    fn get_vaulting_data_key(&self) -> (r: String)
        ensures
            r@ == self.vaulting_data_key(),
    ;
}

/// Asks for the fingerprint of some data.
#[derive(Debug, PartialEq, Eq)]
pub struct VaultFingerprintRequest {
    pub data: String,
    pub key: String,
}

/// The fingerprint that was asked for.
#[derive(Debug, PartialEq, Eq)]
pub struct VaultFingerprintResponse {
    pub fingerprint_id: String,
}

/// Asks the vault to keep some data.
#[derive(Debug, PartialEq, Eq)]
pub struct AddVaultRequest<D> {
    pub entity_id: MerchantId,
    pub vault_id: String,
    pub data: D,
    pub ttl: i64,
}

/// Tells that the vault keeps the data.
#[derive(Debug, PartialEq, Eq)]
pub struct AddVaultResponse {
    pub entity_id: MerchantId,
    pub vault_id: String,
    pub fingerprint_id: Option<String>,
}

/// The request to keep some data.
#[derive(Debug, PartialEq, Eq)]
pub struct AddVault;

/// The request for a fingerprint.
#[derive(Debug, PartialEq, Eq)]
pub struct GetVaultFingerprint;

impl VaultingInterface for AddVault {
    open spec fn vault_action_url() -> Seq<char> {
        "/vault/add"@
    }

    fn get_vault_action_url() -> (r: &'static str) {
        ADD_VAULT_REQUEST_URL
    }
}

impl VaultingInterface for GetVaultFingerprint {
    open spec fn vault_action_url() -> Seq<char> {
        "/fingerprint"@
    }

    fn get_vault_action_url() -> (r: &'static str) {
        VAULT_FINGERPRINT_REQUEST_URL
    }
}

impl VaultingDataInterface for PaymentMethodCreateData {
    /// A card is told apart by its number.
    open spec fn vaulting_data_key(&self) -> Seq<char> {
        match self {
            PaymentMethodCreateData::Card(card) => card.card_number.digits@,
        }
    }

    fn get_vaulting_data_key(&self) -> (r: String) {
        match self {
            PaymentMethodCreateData::Card(card) => card.card_number.digits.clone(),
        }
    }
}

/// The secret by which a client proves that it may complete a payment method.
pub struct PaymentMethodClientSecret;

impl PaymentMethodClientSecret {
    /// The part of a client secret that stands before its random part.
    pub open spec fn prefix(payment_method_id: Seq<char>) -> Seq<char> {
        payment_method_id + "_secret"@
    }

    /// Makes up the client secret of a payment method.
    pub fn generate(payment_method_id: &str) -> (r: String)
        ensures
            crate::ids::is_generated_id(
                r@,
                PaymentMethodClientSecret::prefix(payment_method_id@),
                ID_LENGTH as nat,
            ),
    {
        let mut prefix = payment_method_id.to_owned();
        prefix.append("_secret");
        generate_id(ID_LENGTH, prefix.as_str())
    }
}

/// Entries are added and fingerprints asked for at paths of their own.
pub proof fn requests_go_to_their_paths(added_at: &'static str, asked_at: &'static str)
    requires
        call_ensures(AddVault::get_vault_action_url, (), added_at),
        call_ensures(GetVaultFingerprint::get_vault_action_url, (), asked_at),
    ensures
        added_at@ == "/vault/add"@,
        asked_at@ == "/fingerprint"@,
        added_at@ != asked_at@,
{
    reveal_strlit("/vault/add");
    reveal_strlit("/fingerprint");
    assert("/vault/add"@.len() != "/fingerprint"@.len());
}

/// Two cards are one to the vault exactly where their numbers are the same.
pub proof fn cards_are_told_apart_by_their_numbers(
    data: PaymentMethodCreateData,
    other: PaymentMethodCreateData,
    key: String,
    other_key: String,
)
    requires
        call_ensures(PaymentMethodCreateData::get_vaulting_data_key, (&data,), key),
        call_ensures(PaymentMethodCreateData::get_vaulting_data_key, (&other,), other_key),
    ensures
        data matches PaymentMethodCreateData::Card(card) ==> key@ == card.card_number.digits@,
        key@ == other_key@ <==> data->Card_0.card_number.digits@
            == other->Card_0.card_number.digits@,
{
}

/// A client secret begins with the payment method that it is for, goes on with
/// `_secret_` and ends with its random part.
pub proof fn secrets_show_their_method(payment_method_id: &str, secret: String)
    requires
        call_ensures(PaymentMethodClientSecret::generate, (payment_method_id,), secret),
    ensures
        payment_method_id@.is_prefix_of(secret@),
        secret@.len() == payment_method_id@.len() + "_secret_"@.len() + 20,
        secret@.skip(payment_method_id@.len() as int).take("_secret_"@.len() as int)
            == "_secret_"@,
{
    reveal_strlit("_secret");
    reveal_strlit("_secret_");
    let n = payment_method_id@.len() as int;
    let prefix = PaymentMethodClientSecret::prefix(payment_method_id@);
    assert(prefix.len() == n + 7);
    let start = secret@.subrange(0, n + 7);
    assert(start == prefix);
    assert(forall|i: int| 0 <= i < n + 7 ==> secret@[i] == start[i]);
    assert(secret@.subrange(0, n) =~= payment_method_id@);
    let after = secret@.skip(n).take(8);
    assert forall|i: int| 0 <= i < 8 implies after[i] == "_secret_"@[i] by {
        assert(after[i] == secret@[n + i]);
        if i < 7 {
            assert(prefix[n + i] == "_secret"@[i]);
            assert("_secret"@[i] == "_secret_"@[i]);
        }
    }
    assert(after =~= "_secret_"@);
}

} // verus!
