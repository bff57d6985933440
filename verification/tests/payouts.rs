use router::enums::{AttemptStatus, AuthenticationType, Currency, PaymentMethod};
use router::errors::ApiErrorResponse;
use router::flows::get_connector_label;
use router::payouts::{
    construct_payout_router_data, get_business_details, get_mca_for_payout, Customer,
    CustomerDetails, MerchantConnectorAccountSource, PayoutAttempt, PayoutData, PayoutEntityType,
    PayoutType, Payouts, PayoutsData, PayoutsResponseData, StoredAddress,
};
use router::types::{
    Address, AddressDetails, ConnectorAuthType, MerchantAccount, MerchantConnectorAccount,
    PaymentAddress, PayoutMethodData, PhoneDetails, PrimaryBusinessDetails, Secret,
};

fn secret(value: &str) -> Secret<String> {
    Secret::new(value.to_string())
}

fn keys() -> ConnectorAuthType {
    ConnectorAuthType::HeaderKey { api_key: secret("KEY") }
}

fn account(details: Option<ConnectorAuthType>) -> MerchantConnectorAccount {
    MerchantConnectorAccount {
        connector_account_details: details,
        metadata: Some("{}".to_string()),
        test_mode: Some(false),
    }
}

fn merchant(lines: &[(&str, &str)]) -> MerchantAccount {
    MerchantAccount {
        merchant_id: "merchant_1".to_string(),
        primary_business_details: lines
            .iter()
            .map(|(country, business)| PrimaryBusinessDetails {
                country: country.to_string(),
                business: business.to_string(),
            })
            .collect(),
    }
}

fn stored_address() -> StoredAddress {
    StoredAddress {
        city: Some("Haifa".to_string()),
        country: Some("IL".to_string()),
        line1: Some(secret("1 Main St")),
        line2: None,
        line3: None,
        zip: Some(secret("31000")),
        state: None,
        first_name: Some(secret("Ada")),
        last_name: Some(secret("Lovelace")),
        phone_number: Some(secret("5551234")),
        country_code: Some("+972".to_string()),
    }
}

fn customer() -> Customer {
    Customer {
        customer_id: "cus_1".to_string(),
        name: Some(secret("Ada Lovelace")),
        email: Some(secret("ada@example.com")),
        phone: None,
        phone_country_code: None,
        connector_customer_id: Some("GW-CUS-1".to_string()),
    }
}

fn payout_data(
    country: Option<&str>,
    label: Option<&str>,
    at_hand: Option<MerchantConnectorAccount>,
) -> PayoutData {
    PayoutData {
        billing_address: Some(stored_address()),
        customer_details: Some(customer()),
        payouts: Payouts {
            payout_id: "po_1".to_string(),
            amount: 2500,
            destination_currency: Currency::EUR,
            source_currency: Currency::USD,
            entity_type: PayoutEntityType::Individual,
            payout_type: PayoutType::Bank,
            return_url: Some("https://shop.example/payouts".to_string()),
        },
        payout_attempt: PayoutAttempt {
            connector_payout_id: "GW-PO-1".to_string(),
            business_country: country.map(|c| c.to_string()),
            business_label: label.map(|l| l.to_string()),
        },
        payout_method_data: Some(PayoutMethodData::Bank { iban: secret("DE00"), bic: None }),
        merchant_connector_account: at_hand,
    }
}

fn missing_business() -> ApiErrorResponse {
    ApiErrorResponse::MissingRequiredField {
        field_name: "business_country, business_label".to_string(),
    }
}

#[test]
fn connector_label_text() {
    assert_eq!(get_connector_label("IL", "default", None, "payme"), "payme_IL_default");
    assert_eq!(
        get_connector_label("IL", "default", Some(&"web".to_string()), "payme"),
        "payme_IL_default_web"
    );
}

#[test]
fn business_details_from_record_or_single_line() {
    let both = get_business_details(
        &Some("IL".to_string()),
        &Some("food".to_string()),
        &merchant(&[("US", "default")]),
    );
    assert_eq!(both, Ok(("IL".to_string(), "food".to_string())));
    let fallback = get_business_details(&Some("IL".to_string()), &None, &merchant(&[("US", "default")]));
    assert_eq!(fallback, Ok(("US".to_string(), "default".to_string())));
    let several = get_business_details(&None, &None, &merchant(&[("US", "a"), ("IL", "b")]));
    assert_eq!(several, Err(missing_business()));
    let none = get_business_details(&None, &Some("food".to_string()), &merchant(&[]));
    assert_eq!(none, Err(missing_business()));
}

#[test]
fn account_at_hand_is_used() {
    let data = payout_data(None, None, Some(account(Some(keys()))));
    assert!(
        get_mca_for_payout("wise", &merchant(&[]), &data)
            == Ok(MerchantConnectorAccountSource::AtHand(account(Some(keys()))))
    );
}

#[test]
fn account_is_fetched_under_its_label() {
    let data = payout_data(Some("IL"), Some("food"), None);
    assert!(
        get_mca_for_payout("wise", &merchant(&[]), &data)
            == Ok(MerchantConnectorAccountSource::Fetch {
                connector_label: "wise_IL_food".to_string()
            })
    );
    let unnamed = payout_data(None, None, None);
    assert!(get_mca_for_payout("wise", &merchant(&[]), &unnamed) == Err(missing_business()));
}

#[test]
fn payout_record_is_begun() {
    let mut data = payout_data(Some("IL"), Some("food"), None);
    let record =
        construct_payout_router_data("wise", &merchant(&[]), account(Some(keys())), &mut data)
            .ok()
            .unwrap();
    assert!(data == payout_data(Some("IL"), Some("food"), Some(account(Some(keys())))));
    assert_eq!(record.merchant_id, "merchant_1");
    assert_eq!(record.customer_id, None);
    assert_eq!(record.connector_customer, Some("GW-CUS-1".to_string()));
    assert_eq!(record.connector, "wise");
    assert_eq!(record.payment_id, "");
    assert_eq!(record.attempt_id, "");
    assert_eq!(record.status, AttemptStatus::Failure);
    assert_eq!(record.payment_method, PaymentMethod::Card);
    assert!(record.connector_auth_type == keys());
    assert_eq!(record.return_url, Some("https://shop.example/payouts".to_string()));
    assert!(
        record.address
            == PaymentAddress {
                shipping: None,
                billing: Some(Address {
                    address: Some(AddressDetails {
                        city: Some("Haifa".to_string()),
                        country: Some("IL".to_string()),
                        line1: Some(secret("1 Main St")),
                        line2: None,
                        line3: None,
                        zip: Some(secret("31000")),
                        state: None,
                        first_name: Some(secret("Ada")),
                        last_name: Some(secret("Lovelace")),
                    }),
                    phone: Some(PhoneDetails {
                        number: Some(secret("5551234")),
                        country_code: Some("+972".to_string()),
                    }),
                }),
            }
    );
    assert_eq!(record.auth_type, AuthenticationType::NoThreeDs);
    assert_eq!(record.connector_meta_data, Some("{}".to_string()));
    assert_eq!(
        record.connector_request_reference_id,
        "irrelevant_connector_request_reference_id_in_dispute_flow"
    );
    assert!(
        record.payout_method_data == Some(PayoutMethodData::Bank { iban: secret("DE00"), bic: None })
    );
    assert_eq!(record.test_mode, Some(false));
    assert!(
        record.request
            == PayoutsData {
                payout_id: "po_1".to_string(),
                amount: 2500,
                connector_payout_id: Some("GW-PO-1".to_string()),
                destination_currency: Currency::EUR,
                source_currency: Currency::USD,
                payout_type: PayoutType::Bank,
                entity_type: PayoutEntityType::Individual,
                country_code: "IL".to_string(),
                customer_details: Some(CustomerDetails {
                    customer_id: Some("cus_1".to_string()),
                    name: Some(secret("Ada Lovelace")),
                    email: Some(secret("ada@example.com")),
                    phone: None,
                    phone_country_code: None,
                }),
            }
    );
    assert_eq!(
        record.response,
        Ok(PayoutsResponseData { status: None, connector_payout_id: String::new(), payout_eligible: None })
    );
}

#[test]
fn payout_record_failures() {
    let mut unnamed = payout_data(None, None, None);
    assert!(
        construct_payout_router_data("wise", &merchant(&[]), account(Some(keys())), &mut unnamed)
            == Err(missing_business())
    );
    assert!(unnamed == payout_data(None, None, None));
    let mut unreadable = payout_data(Some("IL"), Some("food"), None);
    assert!(
        construct_payout_router_data("wise", &merchant(&[]), account(None), &mut unreadable)
            == Err(ApiErrorResponse::InternalServerError)
    );
    assert!(unreadable == payout_data(Some("IL"), Some("food"), Some(account(None))));
}

#[test]
fn account_at_hand_goes_before_the_one_handed_in() {
    let at_hand = || MerchantConnectorAccount {
        connector_account_details: Some(ConnectorAuthType::NoKey),
        metadata: Some("{\"at\":\"hand\"}".to_string()),
        test_mode: Some(true),
    };
    let mut data = payout_data(Some("IL"), Some("food"), Some(at_hand()));
    let record =
        construct_payout_router_data("wise", &merchant(&[]), account(Some(keys())), &mut data)
            .ok()
            .unwrap();
    assert!(record.connector_auth_type == ConnectorAuthType::NoKey);
    assert_eq!(record.connector_meta_data, Some("{\"at\":\"hand\"}".to_string()));
    assert_eq!(record.test_mode, Some(true));
    assert!(data == payout_data(Some("IL"), Some("food"), Some(at_hand())));
    let mut unreadable = payout_data(Some("IL"), Some("food"), Some(account(None)));
    assert!(
        construct_payout_router_data("wise", &merchant(&[]), account(Some(keys())), &mut unreadable)
            == Err(ApiErrorResponse::InternalServerError)
    );
    assert!(unreadable == payout_data(Some("IL"), Some("food"), Some(account(None))));
}
