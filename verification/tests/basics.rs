use router_core::date_time::{PrimitiveDateTime, MAX_UNIX_NANOS, MIN_UNIX_NANOS};
use router_core::decimal::write_decimal;
use router_core::errors::{ApiErrorResponse, StorageError};
use router_core::ids::{generate_id, id_from_parts, ALPHABETS, ID_LENGTH};
use router_core::payment_link::{PaymentLink, PaymentLinkNew};
use router_core::payment_method_types::{CardDetail, PaymentMethodCreateData};
use router_core::payout_types::{CardNumber, MinorUnit};
use router_core::text::{same_text, starts_with, take_first, take_last};
use router_core::vault::{
    AddVault, AddVaultRequest, AddVaultResponse, GetVaultFingerprint, PaymentMethodClientSecret,
    VaultFingerprintRequest, VaultFingerprintResponse, VaultingDataInterface, VaultingInterface,
};

#[test]
fn texts_are_compared_by_character() {
    assert!(starts_with("temporary_token_1", "temporary_token_"));
    assert!(starts_with("abc", ""));
    assert!(!starts_with("ab", "abc"));
    assert!(!starts_with("xabc", "abc"));
    assert!(same_text("abc", "abc"));
    assert!(!same_text("abc", "abd"));
    assert_eq!(take_first("abcdef", 2), "ab");
    assert_eq!(take_first("a", 2), "a");
    assert_eq!(take_last("abcdef", 2), "ef");
    assert_eq!(take_last("a", 2), "a");
}

#[test]
fn card_numbers_show_their_ends() {
    let number = CardNumber { digits: "4242424242421234".to_string() };
    assert_eq!(number.get_card_isin(), "424242");
    assert_eq!(number.get_last4(), "1234");
    let short = CardNumber { digits: "123".to_string() };
    assert_eq!(short.get_card_isin(), "123");
    assert_eq!(short.get_last4(), "123");
}

#[test]
fn decimals_are_exact() {
    assert_eq!(write_decimal(0), "0");
    assert_eq!(write_decimal(7), "7");
    assert_eq!(write_decimal(-12), "-12");
    assert_eq!(write_decimal(1000), "1000");
    assert_eq!(write_decimal(i64::MAX), "9223372036854775807");
    assert_eq!(write_decimal(i64::MIN), "-9223372036854775808");
    for value in [-100i64, -1, 1, 9, 10, 99, 100, 123456789] {
        assert_eq!(write_decimal(value).parse::<i64>(), Ok(value));
    }
}

#[test]
fn identifiers_have_their_shape() {
    assert_eq!(id_from_parts("pm", "abc"), "pm_abc");
    let id = generate_id(ID_LENGTH, "pm");
    assert_eq!(id.len(), 23);
    assert!(id.starts_with("pm_"));
    assert!(id[3..].chars().all(|c| ALPHABETS.contains(&c)));
    assert_ne!(generate_id(ID_LENGTH, "pm"), generate_id(ID_LENGTH, "pm"));
}

#[test]
fn client_secrets_name_their_method() {
    let secret = PaymentMethodClientSecret::generate("pm_1");
    assert!(secret.starts_with("pm_1_secret_"));
    assert_eq!(secret.len(), "pm_1_secret_".len() + ID_LENGTH);
    assert!(secret["pm_1_secret_".len()..].chars().all(|c| c.is_ascii_alphanumeric()));
}

#[test]
fn vault_actions_have_their_path() {
    assert_eq!(AddVault::get_vault_action_url(), "/vault/add");
    assert_eq!(GetVaultFingerprint::get_vault_action_url(), "/fingerprint");
}

#[test]
fn cards_are_told_apart_by_their_number() {
    let data = PaymentMethodCreateData::Card(CardDetail {
        card_number: CardNumber { digits: "4111111111111111".to_string() },
        card_exp_month: "10".to_string(),
        card_exp_year: "30".to_string(),
        card_holder_name: None,
        nick_name: None,
        card_issuing_country: None,
        card_network: None,
        card_issuer: None,
        card_type: None,
    });
    assert_eq!(data.get_vaulting_data_key(), "4111111111111111");
}

#[test]
fn vault_messages_hold_their_fields() {
    let request = VaultFingerprintRequest { data: "d".to_string(), key: "k".to_string() };
    assert_eq!((request.data.as_str(), request.key.as_str()), ("d", "k"));
    let response = VaultFingerprintResponse { fingerprint_id: "f".to_string() };
    assert_eq!(response.fingerprint_id, "f");
    let add = AddVaultRequest {
        entity_id: "m".to_string(),
        vault_id: "v".to_string(),
        data: 5u8,
        ttl: 60,
    };
    assert_eq!((add.data, add.ttl), (5, 60));
    let added = AddVaultResponse {
        entity_id: add.entity_id,
        vault_id: add.vault_id,
        fingerprint_id: None,
    };
    assert_eq!((added.entity_id.as_str(), added.vault_id.as_str()), ("m", "v"));
}

#[test]
fn moments_stay_within_their_years() {
    assert_eq!(PrimitiveDateTime::from_unix_nanos(MAX_UNIX_NANOS + 1), None);
    assert_eq!(PrimitiveDateTime::from_unix_nanos(MIN_UNIX_NANOS - 1), None);
    let last = PrimitiveDateTime::from_unix_nanos(MAX_UNIX_NANOS).unwrap();
    assert_eq!(last.saturating_plus_seconds(1), last);
    let first = PrimitiveDateTime::from_unix_nanos(MIN_UNIX_NANOS).unwrap();
    assert_eq!(first.saturating_plus_seconds(-1), first);
    assert_eq!(first.saturating_plus_seconds(i64::MAX), last);
    assert_eq!(
        PrimitiveDateTime { unix_nanos: 5 }.saturating_plus_seconds(900),
        PrimitiveDateTime { unix_nanos: 900_000_000_005 }
    );
    assert_eq!(
        PrimitiveDateTime { unix_nanos: -1 }.plus_seconds(1),
        PrimitiveDateTime { unix_nanos: 999_999_999 }
    );
    assert!(last.is_after(&first));
    assert!(!first.is_after(&first));
}

#[test]
fn storage_failures_have_their_answers() {
    let missing = ApiErrorResponse::CustomerNotFound;
    assert_eq!(
        StorageError::ValueNotFound.to_not_found_response(missing),
        ApiErrorResponse::CustomerNotFound
    );
    assert_eq!(
        StorageError::CustomerRedacted.to_not_found_response(ApiErrorResponse::CustomerNotFound),
        ApiErrorResponse::CustomerRedacted
    );
    assert_eq!(
        StorageError::Other.to_not_found_response(ApiErrorResponse::CustomerNotFound),
        ApiErrorResponse::InternalServerError
    );
    assert_eq!(
        StorageError::DuplicateValue.to_duplicate_response(ApiErrorResponse::PaymentMethodNotFound),
        ApiErrorResponse::PaymentMethodNotFound
    );
    assert_eq!(
        StorageError::ValueNotFound.to_duplicate_response(ApiErrorResponse::PaymentMethodNotFound),
        ApiErrorResponse::InternalServerError
    );
    assert!(StorageError::ValueNotFound.is_db_not_found());
    assert!(!StorageError::Other.is_db_not_found());
}

#[test]
fn payment_links_are_copied_whole() {
    let link = PaymentLink {
        payment_link_id: "plink_1".to_string(),
        payment_id: "pay_1".to_string(),
        link_to_pay: "https://pay.example/1".to_string(),
        merchant_id: "m".to_string(),
        amount: MinorUnit { value: 1000 },
        currency: Some("USD".to_string()),
        created_at: PrimitiveDateTime { unix_nanos: 1 },
        last_modified_at: PrimitiveDateTime { unix_nanos: 2 },
        fulfilment_time: None,
        custom_merchant_name: None,
        payment_link_config: Some(serde_json::Value::Bool(true)),
        description: None,
        profile_id: Some("pro".to_string()),
        secure_link: None,
    };
    assert_eq!(link.clone(), link);
    let new = PaymentLinkNew {
        payment_link_id: link.payment_link_id,
        payment_id: link.payment_id,
        link_to_pay: link.link_to_pay,
        merchant_id: link.merchant_id,
        amount: link.amount,
        currency: link.currency,
        created_at: None,
        last_modified_at: None,
        fulfilment_time: None,
        custom_merchant_name: None,
        payment_link_config: link.payment_link_config,
        description: None,
        profile_id: link.profile_id,
        secure_link: None,
    };
    assert_eq!(new.clone(), new);
}
