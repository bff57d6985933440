use router::consts::{ID_LENGTH, MAX_ID_LENGTH};
use router::errors::ApiErrorResponse;
use router::types::{ConnectorRequestReferenceIdConfig, PaymentAttempt, Settings};
use router::enums::AttemptStatus;
use router::utils::{
    check_uuid, choose_correlation_id, generate_id, generate_uuid, get_connector_request_reference_id,
    get_or_generate_id, get_or_generate_uuid, invalid_id_format_error, prefixed_id,
    is_merchant_enabled_for_payment_id_as_connector_request_id, same_text, validate_id,
    validate_uuid,
};

fn invalid_format(key: &str) -> ApiErrorResponse {
    ApiErrorResponse::InvalidDataFormat {
        field_name: key.to_string(),
        expected_format: "length should be less than 64 characters".to_string(),
    }
}

fn settings(merchants: &[&str]) -> Settings {
    Settings {
        connector_request_reference_id_config: ConnectorRequestReferenceIdConfig {
            merchant_ids_send_payment_id_as_connector_request_id: merchants
                .iter()
                .map(|m| m.to_string())
                .collect(),
        },
    }
}

fn attempt() -> PaymentAttempt {
    PaymentAttempt {
        payment_id: "pay_1".to_string(),
        merchant_id: "merchant_1".to_string(),
        attempt_id: "pay_1_1".to_string(),
        status: AttemptStatus::Pending,
        payment_method: None,
        payment_method_id: None,
        authentication_type: None,
        connector_metadata: None,
        business_sub_label: None,
    }
}

#[test]
fn validate_id_length_constraint() {
    let payment_id =
        "abcdefghijlkmnopqrstuvwzyzabcdefghijknlmnopsjkdnfjsknfkjsdnfspoig".to_string(); //length = 65

    let result = validate_id(payment_id, "payment_id");
    assert!(result.is_err());
}

#[test]
fn validate_id_proper_response() {
    let payment_id = "abcdefghijlkmnopqrstjhbjhjhkhbhgcxdfxvmhb".to_string();

    let result = validate_id(payment_id.clone(), "payment_id");
    assert!(result.is_ok());
    let result = result.unwrap_or_default();
    assert_eq!(result, payment_id);
}

#[test]
fn test_generate_id() {
    let generated_id = generate_id(ID_LENGTH, "ref");
    assert_eq!(generated_id.len(), ID_LENGTH + 3)
}

#[test]
fn generated_id_is_prefix_and_alphanumerics() {
    let id = generate_id(12, "pay");
    assert!(id.starts_with("pay"));
    assert_eq!(id.len(), 3 + 12);
    assert!(id[3..].chars().all(|c| c.is_ascii_alphanumeric()));
}

#[test]
fn generated_ids_differ() {
    assert_ne!(generate_id(ID_LENGTH, "ref"), generate_id(ID_LENGTH, "ref"));
}

#[test]
fn validate_id_names_field_and_limit() {
    let id = "a".repeat(MAX_ID_LENGTH + 1);
    assert_eq!(validate_id(id, "refund_id"), Err(invalid_format("refund_id")));
}

#[test]
fn validate_id_accepts_the_limit() {
    let id = "a".repeat(MAX_ID_LENGTH);
    assert_eq!(validate_id(id.clone(), "payment_id"), Ok(id));
}

#[test]
fn validate_id_counts_bytes() {
    // 33 two-byte characters: 33 characters, 66 bytes
    let id = "é".repeat(33);
    assert_eq!(validate_id(id, "payment_id"), Err(invalid_format("payment_id")));
}

#[test]
fn invalid_id_format_error_text() {
    assert_eq!(invalid_id_format_error("payment_id"), invalid_format("payment_id"));
}

#[test]
fn get_or_generate_id_keeps_a_valid_id() {
    let supplied = Some("pay_abc".to_string());
    assert_eq!(get_or_generate_id("payment_id", &supplied, "pay"), Ok("pay_abc".to_string()));
}

#[test]
fn get_or_generate_id_rejects_a_long_id() {
    let supplied = Some("x".repeat(65));
    assert_eq!(
        get_or_generate_id("payment_id", &supplied, "pay"),
        Err(invalid_format("payment_id"))
    );
}

#[test]
fn get_or_generate_id_generates_when_none() {
    let id = get_or_generate_id("payment_id", &None, "pay").unwrap();
    assert_eq!(id.len(), 3 + ID_LENGTH);
    assert!(id.starts_with("pay"));
    assert!(id[3..].chars().all(|c| c.is_ascii_alphanumeric()));
}

#[test]
fn generate_uuid_is_hyphenated_and_parses() {
    let id = generate_uuid();
    assert_eq!(id.len(), 36);
    assert!(uuid::Uuid::parse_str(&id).is_ok());
    assert_eq!(id.chars().filter(|c| *c == '-').count(), 4);
}

#[test]
fn validate_uuid_accepts_a_uuid() {
    let id = "550e8400-e29b-41d4-a716-446655440000".to_string();
    assert_eq!(validate_uuid(id.clone(), "refund_id"), Ok(id));
}

#[test]
fn validate_uuid_rejects_other_text() {
    assert_eq!(
        validate_uuid("not-a-uuid".to_string(), "refund_id"),
        Err(invalid_format("refund_id"))
    );
    assert_eq!(validate_uuid(String::new(), "refund_id"), Err(invalid_format("refund_id")));
}

#[test]
fn get_or_generate_uuid_paths() {
    let valid = "550e8400e29b41d4a716446655440000".to_string();
    assert_eq!(get_or_generate_uuid("id", Some(&valid)), Ok(valid.clone()));
    let invalid = "550e8400".to_string();
    assert_eq!(get_or_generate_uuid("id", Some(&invalid)), Err(invalid_format("id")));
    let fresh = get_or_generate_uuid("id", None).unwrap();
    assert_eq!(fresh.len(), 36);
    assert_eq!(validate_uuid(fresh.clone(), "id"), Ok(fresh));
}

#[test]
fn same_text_compares_characters() {
    assert!(same_text("abc", "abc"));
    assert!(!same_text("abc", "abd"));
    assert!(!same_text("abc", "ab"));
    assert!(same_text("", ""));
}

#[test]
fn merchant_lookup() {
    let conf = settings(&["merchant_1", "merchant_2"]);
    assert!(is_merchant_enabled_for_payment_id_as_connector_request_id(&conf, "merchant_2"));
    assert!(!is_merchant_enabled_for_payment_id_as_connector_request_id(&conf, "merchant_3"));
    assert!(!is_merchant_enabled_for_payment_id_as_connector_request_id(&settings(&[]), "merchant_1"));
}

#[test]
fn request_reference_follows_the_settings() {
    let listed = settings(&["merchant_1"]);
    assert_eq!(get_connector_request_reference_id(&listed, "merchant_1", &attempt()), "pay_1");
    assert_eq!(get_connector_request_reference_id(&listed, "merchant_9", &attempt()), "pay_1_1");
}

#[test]
fn correlation_id_choice() {
    let payment_id = "pay_1".to_string();
    let attempt_id = "pay_1_1".to_string();
    assert_eq!(choose_correlation_id(true, &payment_id, &attempt_id), "pay_1");
    assert_eq!(choose_correlation_id(false, &payment_id, &attempt_id), "pay_1_1");
}

#[test]
fn prefixed_id_puts_the_suffix_behind_the_prefix() {
    assert_eq!(prefixed_id("ref", "abc"), "refabc");
    assert_eq!(prefixed_id("", ""), "");
    assert_eq!(prefixed_id("ref", ""), "ref");
}

#[test]
fn check_uuid_needs_acceptance_and_length() {
    let id = "550e8400-e29b-41d4-a716-446655440000".to_string();
    assert_eq!(check_uuid(id.clone(), true, "id"), Ok(id.clone()));
    assert_eq!(check_uuid(id, false, "id"), Err(invalid_format("id")));
    assert_eq!(check_uuid("u".repeat(65), true, "id"), Err(invalid_format("id")));
    assert_eq!(check_uuid("u".repeat(64), true, "id"), Ok("u".repeat(64)));
}
